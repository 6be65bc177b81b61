use imagor_rs::config::Environment;
use imagor_rs::imagorpath::hasher::AuthError;
use imagor_rs::imagorpath::normalize::{new_safe_chars, normalize, SafeCharsType};
use imagor_rs::imagorpath::params::Params;
use imagor_rs::service::{check_request, image_source, ImageSource};
use imagor_rs::storage::{after_failed_connect, ConnectStep, StorageLayout};

#[test]
fn environment_names() {
    assert_eq!(Environment::Local.as_str(), "local");
    assert_eq!(Environment::Production.as_str(), "production");
    assert_eq!(Environment::try_from("Local".to_string()), Ok(Environment::Local));
    assert_eq!(Environment::try_from("PRODUCTION".to_string()), Ok(Environment::Production));
    assert_eq!(
        Environment::try_from("Staging".to_string()),
        Err("staging is not a supported environment. Use either `local` or `production`".to_string())
    );
    for e in [Environment::Local, Environment::Production] {
        assert_eq!(Environment::try_from(e.as_str().to_string()), Ok(e));
    }
}

#[test]
fn storage_full_path() {
    let layout = StorageLayout {
        base_dir: "base".to_string(),
        path_prefix: "images".to_string(),
        safe_chars: SafeCharsType::Default,
    };
    assert_eq!(layout.get_full_path("/a b/c.jpg/"), "images/a+b/c.jpg");
    assert_eq!(
        layout.get_full_path("a/b.png"),
        format!("images/{}", normalize("a/b.png", &SafeCharsType::Default))
    );
}

#[test]
fn safe_chars_policies() {
    assert!(matches!(new_safe_chars("--"), SafeCharsType::Noop));
    assert!(matches!(new_safe_chars(""), SafeCharsType::Default));
    assert!(matches!(new_safe_chars("!"), SafeCharsType::Custom(_)));
    assert_eq!(normalize("a!b", &new_safe_chars("!")), "a!b");
    assert_eq!(normalize("a!b", &SafeCharsType::Default), "a%21b");
    assert_eq!(normalize("a b", &SafeCharsType::Noop), "a b");
}

#[test]
fn object_store_retries() {
    assert_eq!(after_failed_connect(0, 5), ConnectStep::Retry { next: 1 });
    assert_eq!(after_failed_connect(3, 5), ConnectStep::Retry { next: 4 });
    assert_eq!(after_failed_connect(4, 5), ConnectStep::GiveUp);
}

#[test]
fn sources_by_scheme() {
    assert_eq!(image_source("https://example.com/a.jpg"), ImageSource::Remote);
    assert_eq!(image_source("http://example.com/a.jpg"), ImageSource::Remote);
    assert_eq!(image_source("ftp://example.com/a.jpg"), ImageSource::Stored);
    assert_eq!(image_source("a/b.jpg"), ImageSource::Stored);
}

#[test]
fn request_checks() {
    let p = Params {
        path: Some("smart/example.com/foobar".to_string()),
        image: Some("example.com/foobar".to_string()),
        smart: true,
        ..Default::default()
    };
    assert_eq!(check_request(&p), Ok("example.com/foobar.afa3503c0d76bc49eccd".to_string()));
    let bad = Params { hash: Some("garbage".to_string()), ..p.clone() };
    let r = check_request(&bad).unwrap_err();
    assert_eq!(r.status, 400);
    assert_eq!(r.message, "Failed to verify hash: Failed to parse hash in PHC string format.");
    let phc = imagor_rs::imagorpath::hasher::compute_hash("other".to_string()).unwrap();
    let wrong = Params { hash: Some(phc), ..p.clone() };
    assert_eq!(
        check_request(&wrong).unwrap_err().message,
        "Failed to verify hash: Invalid credentials"
    );
    let phc = imagor_rs::imagorpath::hasher::compute_hash("smart/example.com/foobar".to_string()).unwrap();
    let good = Params { hash: Some(phc), ..p.clone() };
    assert_eq!(check_request(&good), Ok("example.com/foobar.afa3503c0d76bc49eccd".to_string()));
}

#[test]
fn auth_error_messages() {
    assert_eq!(AuthError::InvalidCredentials("x".to_string()).message(), "Invalid credentials");
    assert_eq!(AuthError::UnexpectedError("boom".to_string()).message(), "boom");
}

#[test]
fn default_keys_are_url_safe() {
    let key = normalize("/héllo wörld?/a#b\n~c/", &SafeCharsType::Default);
    assert_eq!(key, "h%C3%A9llo+w%C3%B6rld%3F/a%23b~c");
    assert!(key
        .chars()
        .all(|c| c.is_ascii_alphanumeric() || "/-_.~%+".contains(c)));
}

fn percent_decode(s: &str) -> Vec<u8> {
    let b = s.as_bytes();
    let mut out = vec![];
    let mut i = 0;
    while i < b.len() {
        if b[i] == b'%' {
            out.push(u8::from_str_radix(&s[i + 1..i + 3], 16).unwrap());
            i += 3;
        } else if b[i] == b'+' {
            out.push(b' ');
            i += 1;
        } else {
            out.push(b[i]);
            i += 1;
        }
    }
    out
}

#[test]
fn default_keys_decode_to_cleaned_key() {
    let key = normalize("//a+b %/\r\nc\u{2028}d//", &SafeCharsType::Default);
    assert_eq!(key, "a%2Bb+%25/cd");
    assert_eq!(percent_decode(&key), "a+b %/cd".as_bytes().to_vec());
    let key = normalize("/héllo wörld?/a#b\n~c/", &SafeCharsType::Default);
    assert_eq!(percent_decode(&key), "héllo wörld?/a#b~c".as_bytes().to_vec());
}

#[test]
fn keys_have_no_outer_slash() {
    for policy in [SafeCharsType::Default, SafeCharsType::Noop, new_safe_chars("/")] {
        let key = normalize("///x/y///", &policy);
        assert_eq!(key, "x/y");
        assert_eq!(normalize("////", &policy), "");
    }
}
