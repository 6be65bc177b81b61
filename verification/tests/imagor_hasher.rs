use imagor_rs::imagorpath::filter::{Filter, ImageType};
use imagor_rs::imagorpath::hasher::{
    compute_hash, digest_result_storage_hasher, digest_storage_hasher,
    size_suffix_result_storage_hasher, suffix_result_storage_hasher, verify_hash, AuthError,
};
use imagor_rs::imagorpath::params::Params;
use imagor_rs::imagorpath::parse::parse_path;

#[test]
fn test_digest_result_storage_hasher() {
    let (_, p) = parse_path("fit-in/16x17/foobar").unwrap();
    assert_eq!(
        digest_result_storage_hasher(&p),
        "d5/c2/804e5d81c475bee50f731db17ee613f43262",
    );
}

#[test]
fn test_suffix_result_storage_hasher_fit_in() {
    let (_, p) = parse_path("fit-in/16x17/foobar").unwrap();
    assert_eq!(
        suffix_result_storage_hasher(&p),
        "foobar.d5c2804e5d81c475bee5",
    );
}

#[test]
fn test_size_suffix_result_storage_hasher_fit_in() {
    let (_, p) = parse_path("fit-in/16x17/foobar").unwrap();
    assert_eq!(
        size_suffix_result_storage_hasher(&p),
        "foobar.d5c2804e5d81c475bee5_16x17"
    );
}

#[test]
fn test_suffix_result_storage_hasher_smart() {
    let (_, p) = parse_path("17x19/smart/example.com/foobar").unwrap();
    assert_eq!(
        suffix_result_storage_hasher(&p),
        "example.com/foobar.ddd349e092cda6d9c729"
    );
    assert_eq!(
        size_suffix_result_storage_hasher(&p),
        "example.com/foobar.ddd349e092cda6d9c729_17x19"
    );
}

#[test]
fn test_size_suffix_result_storage_hasher_smart_no_size() {
    let (_, p) = parse_path("smart/example.com/foobar").unwrap();
    assert_eq!(
        size_suffix_result_storage_hasher(&p),
        "example.com/foobar.afa3503c0d76bc49eccd"
    );
}

#[test]
fn test_suffix_result_storage_hasher_smart_no_size() {
    let (_, p) = parse_path("smart/example.com/foobar").unwrap();
    assert_eq!(
        suffix_result_storage_hasher(&p),
        "example.com/foobar.afa3503c0d76bc49eccd"
    );
}

#[test]
fn test_suffix_result_storage_hasher_with_extension() {
    let (_, p) = parse_path("166x169/top/foobar.jpg").unwrap();
    assert_eq!(
        suffix_result_storage_hasher(&p),
        "foobar.45d8ebb31bd4ed80c26e.jpg"
    );
}

#[test]
fn test_size_suffix_result_storage_hasher_with_extension() {
    let (_, p) = parse_path("166x169/top/foobar.jpg").unwrap();
    assert_eq!(
        size_suffix_result_storage_hasher(&p),
        "foobar.45d8ebb31bd4ed80c26e_166x169.jpg"
    );
}

#[test]
fn source_key_is_split_sha1() {
    assert_eq!(digest_storage_hasher("img"), "97/8e/a7af39ad5fefb6bfbc82a1c5023494bdade2");
    assert_eq!(
        digest_storage_hasher("example.com/foobar.jpg"),
        "9c/9a/37b5ab78a1e733a0e2a6dac8d970ec917463"
    );
}

fn with_path(path: &str, image: &str) -> Params {
    Params {
        path: Some(path.to_string()),
        image: Some(image.to_string()),
        ..Default::default()
    }
}

#[test]
fn suffix_key_extension_choice() {
    let p = Params {
        filters: vec![Filter::Grayscale, Filter::Format(ImageType::WEBP), Filter::Format(ImageType::PNG)],
        ..with_path("example.com/foobar.jpg", "example.com/foobar.jpg")
    };
    assert_eq!(suffix_result_storage_hasher(&p), "example.com/foobar.9c9a37b5ab78a1e733a0.webp");
    let m = Params { meta: true, ..p.clone() };
    assert_eq!(suffix_result_storage_hasher(&m), "example.com/foobar.9c9a37b5ab78a1e733a0.json");
    let dir_dot = with_path("example.com/foobar.jpg", "example.com/foobar");
    assert_eq!(suffix_result_storage_hasher(&dir_dot), "example.com/foobar.9c9a37b5ab78a1e733a0");
}

#[test]
fn size_suffix_with_one_side() {
    let p = Params { width: Some(-5), ..with_path("img", "a/b.png") };
    assert_eq!(size_suffix_result_storage_hasher(&p), "a/b.978ea7af39ad5fefb6bf_-5x0.png");
}

#[test]
fn argon2_hash_round_trip() {
    let phc = compute_hash("path/to/img.jpg".to_string()).unwrap();
    assert!(phc.starts_with("$argon2id$v=19$m=15000,t=2,p=1$"));
    assert_eq!(verify_hash(&phc, "path/to/img.jpg"), Ok(()));
    assert_eq!(
        verify_hash(&phc, "path/to/other.jpg"),
        Err(AuthError::InvalidCredentials("Invalid hash".to_string()))
    );
}

#[test]
fn argon2_malformed_hash_is_unexpected() {
    assert_eq!(
        verify_hash("not a phc string", "anything"),
        Err(AuthError::UnexpectedError(
            "Failed to parse hash in PHC string format.".to_string()
        ))
    );
}
