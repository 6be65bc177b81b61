use imagor_rs::imagorpath::parse::parse_path;
use imagor_rs::imagorpath::params::Params;
use imagor_rs::service::{
    serve_step, Blob, FetchFailure, ImageSource, ProcessingFailure, ServeAction, ServeEvent,
    ServeState,
};

fn request(path: &str) -> Params {
    parse_path(path).unwrap().1
}

fn blob(data: &[u8], content_type: &str) -> Blob {
    Blob { data: data.to_vec(), content_type: content_type.to_string() }
}

fn looking_up(p: &Params) -> ServeState {
    let (s, a) = serve_step(p, ServeState::Start, ServeEvent::Arrived);
    match a {
        ServeAction::LookUp(k) => assert_eq!(k, "foobar.d5c2804e5d81c475bee5"),
        other => panic!("unexpected {:?}", other),
    }
    s
}

#[test]
fn stored_result_is_served_without_processing() {
    let p = request("fit-in/16x17/foobar");
    let s = looking_up(&p);
    let (s, a) = serve_step(&p, s, ServeEvent::Looked(Some(blob(b"ok", "image/png"))));
    assert!(matches!(s, ServeState::Done));
    match a {
        ServeAction::Respond(b) => {
            assert_eq!(b.data, b"ok".to_vec());
            assert_eq!(b.content_type, "image/png");
        }
        other => panic!("unexpected {:?}", other),
    }
}

#[test]
fn new_result_is_fetched_processed_put_and_served() {
    let p = request("fit-in/16x17/https://example.com/foobar");
    let (s, a) = serve_step(&p, ServeState::Start, ServeEvent::Arrived);
    let key = match a {
        ServeAction::LookUp(k) => k,
        other => panic!("unexpected {:?}", other),
    };
    let (s, a) = serve_step(&p, s, ServeEvent::Looked(None));
    match a {
        ServeAction::Fetch(image, source) => {
            assert_eq!(image, "https://example.com/foobar");
            assert_eq!(source, ImageSource::Remote);
        }
        other => panic!("unexpected {:?}", other),
    }
    let (s, a) = serve_step(&p, s, ServeEvent::Fetched(Ok(blob(b"src", "image/jpeg"))));
    assert!(matches!(a, ServeAction::Process(ref b) if b.data == b"src".to_vec()));
    let (s, a) = serve_step(&p, s, ServeEvent::Processed(Ok(blob(b"out", "image/webp"))));
    match a {
        ServeAction::Put(k, b) => {
            assert_eq!(k, key);
            assert_eq!(b.data, b"out".to_vec());
        }
        other => panic!("unexpected {:?}", other),
    }
    let (s, a) = serve_step(&p, s, ServeEvent::Stored(Ok(())));
    assert!(matches!(s, ServeState::Done));
    match a {
        ServeAction::Respond(b) => {
            assert_eq!(b.data, b"out".to_vec());
            assert_eq!(b.content_type, "image/webp");
        }
        other => panic!("unexpected {:?}", other),
    }
}

fn rejection(a: ServeAction) -> (u16, String) {
    match a {
        ServeAction::Reject { status, message } => (status, message),
        other => panic!("unexpected {:?}", other),
    }
}

#[test]
fn failures_are_answered_with_their_status() {
    let p = request("fit-in/16x17/foobar");
    let fetching = |p: &Params| serve_step(p, looking_up(p), ServeEvent::Looked(None)).0;
    let (_, a) = serve_step(&p, fetching(&p), ServeEvent::Fetched(Err(FetchFailure::NotFound("gone".to_string()))));
    assert_eq!(rejection(a), (404, "Failed to fetch image: gone".to_string()));
    let (_, a) = serve_step(&p, fetching(&p), ServeEvent::Fetched(Err(FetchFailure::Unreadable("cut".to_string()))));
    assert_eq!(rejection(a), (500, "Failed to fetch image: cut".to_string()));
    let processing = |p: &Params| serve_step(p, fetching(p), ServeEvent::Fetched(Ok(blob(b"x", "image/png")))).0;
    let (_, a) = serve_step(&p, processing(&p), ServeEvent::Processed(Err(ProcessingFailure::Join("panic".to_string()))));
    assert_eq!(rejection(a), (500, "joining spawned task failed: panic".to_string()));
    let (_, a) = serve_step(&p, processing(&p), ServeEvent::Processed(Err(ProcessingFailure::Failed("bad".to_string()))));
    assert_eq!(rejection(a), (500, "Failed to process image: bad".to_string()));
    let storing = serve_step(&p, processing(&p), ServeEvent::Processed(Ok(blob(b"y", "image/png")))).0;
    let (s, a) = serve_step(&p, storing, ServeEvent::Stored(Err("full".to_string())));
    assert!(matches!(s, ServeState::Done));
    assert_eq!(rejection(a), (500, "Failed to save result image: full".to_string()));
}

#[test]
fn bad_hash_is_refused_before_lookup() {
    let mut p = request("fit-in/16x17/foobar");
    p.hash = Some("not a phc string".to_string());
    let (s, a) = serve_step(&p, ServeState::Start, ServeEvent::Arrived);
    assert!(matches!(s, ServeState::Done));
    assert_eq!(
        rejection(a),
        (400, "Failed to verify hash: Failed to parse hash in PHC string format.".to_string())
    );
}

#[test]
fn event_out_of_turn_is_refused() {
    let p = request("fit-in/16x17/foobar");
    let (s, a) = serve_step(&p, ServeState::Done, ServeEvent::Arrived);
    assert!(matches!(s, ServeState::Done));
    assert_eq!(rejection(a), (500, "request handled out of turn".to_string()));
    let (_, a) = serve_step(&p, ServeState::Start, ServeEvent::Stored(Ok(())));
    assert_eq!(rejection(a), (500, "request handled out of turn".to_string()));
}

#[test]
fn blob_copy_is_equal() {
    let b = blob(b"abc", "image/gif");
    let c = b.duplicate();
    assert_eq!(c.data, b.data);
    assert_eq!(c.content_type, b.content_type);
}
