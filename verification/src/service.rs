//! The decisions of serving a request: the hash check, the key a result is
//! stored under, and where the source image comes from.
use vstd::prelude::*;
use vstd::utf8::encode_utf8;
use crate::cyberpunkpath::hasher::{short_hash_text, suffixed_image};
use crate::grammar::tag_at;
use crate::imagorpath::hasher::{
    format_text, phc_verdict, suffix_result_storage_hasher, verify_hash, AuthError,
};
use crate::imagorpath::params::{Params, ParamsModel};
use crate::text::{has_at, push_str, str_chars, string_of};

verus! {

/// A refused request: the HTTP status and the message.
#[derive(Debug, Clone, PartialEq, Eq)]
pub struct Rejection {
    pub status: u16,
    pub message: String,
}

/// The message an authentication error shows.
pub open spec fn auth_error_text(e: AuthError) -> Seq<char> {
    match e {
        AuthError::InvalidCredentials(_) => "Invalid credentials"@,
        AuthError::UnexpectedError(m) => m@,
    }
}

impl AuthError {
    /// The message the error shows: a fixed one for a refused hash, the cause
    /// otherwise.
    pub fn message(&self) -> (r: String)
        ensures
            r@ == auth_error_text(*self),
    {
        match self {
            AuthError::InvalidCredentials(_) => string_of(&str_chars("Invalid credentials")),
            AuthError::UnexpectedError(m) => string_of(&str_chars(m.as_str())),
        }
    }
}

/// The key a request's result is stored under, once its hash, when it carries
/// one, matches its path.
pub open spec fn result_key_of(p: crate::imagorpath::params::ParamsModel) -> Seq<char> {
    suffixed_image(p.image.unwrap(), short_hash_text(p.path.unwrap()), p.meta, format_text(p))
}

/// What checking a request gives: the key of its result, or the status and
/// message it is refused with.
pub open spec fn request_check_of(p: ParamsModel) -> Result<Seq<char>, (u16, Seq<char>)> {
    match p.hash {
        Some(h) => match phc_verdict(h, encode_utf8(p.path.unwrap())) {
            Some(true) => Ok(result_key_of(p)),
            Some(false) => Err((400u16, "Failed to verify hash: Invalid credentials"@)),
            None => Err(
                (400u16, "Failed to verify hash: Failed to parse hash in PHC string format."@),
            ),
        },
        None => Ok(result_key_of(p)),
    }
}

/// Checks a request and names its result: when the parameters carry a hash,
/// it must verify against the path (else 400 with the reason); the key is
/// the suffix storage key of the parameters.
pub fn check_request(params: &Params) -> (r: Result<String, Rejection>)
    requires
        params@.path is Some,
        params@.image is Some,
    ensures
        match request_check_of(params@) {
            Ok(k) => r matches Ok(k2) && k2@ == k,
            Err((status, m)) => r matches Err(j) && j.status == status && j.message@ == m,
        },
{
    match (&params.hash, &params.path) {
        (Some(hash), Some(path)) => {
            match verify_hash(hash.as_str(), path.as_str()) {
                Ok(()) => {},
                Err(e) => {
                    let mut msg = str_chars("Failed to verify hash: ");
                    let text = e.message();
                    push_str(&mut msg, text.as_str());
                    proof {
                        reveal_strlit("Failed to verify hash: ");
                        reveal_strlit("Invalid credentials");
                        reveal_strlit("Failed to parse hash in PHC string format.");
                        reveal_strlit("Failed to verify hash: Invalid credentials");
                        reveal_strlit(
                            "Failed to verify hash: Failed to parse hash in PHC string format.",
                        );
                    }
                    return Err(Rejection { status: 400, message: string_of(&msg) });
                },
            }
        },
        _ => {},
    }
    Ok(suffix_result_storage_hasher(params))
}

/// Where a source image comes from.
#[derive(Debug, Clone, Copy, PartialEq, Eq, Structural)]
pub enum ImageSource {
    /// Fetched over HTTP(S): the image is a URL.
    Remote,
    /// Read from the storage under its name.
    Stored,
}

/// An image is fetched over the network when it starts with `https://` or `http://`.
pub open spec fn image_source_of(image: Seq<char>) -> ImageSource {
    if has_at(image, 0, "https://"@) || has_at(image, 0, "http://"@) {
        ImageSource::Remote
    } else {
        ImageSource::Stored
    }
}

/// Where an image is read from.
pub fn image_source(image: &str) -> (r: ImageSource)
    ensures
        r == image_source_of(image@),
{
    let cs = str_chars(image);
    if tag_at(&cs, 0, "https://") || tag_at(&cs, 0, "http://") {
        ImageSource::Remote
    } else {
        ImageSource::Stored
    }
}


/// An image's bytes and its content type.
#[derive(Debug, Clone)]
pub struct Blob {
    pub data: Vec<u8>,
    pub content_type: String,
}

/// A blob as bytes and the text of its content type.
pub type BlobView = (Seq<u8>, Seq<char>);

impl View for Blob {
    type V = BlobView;

    open spec fn view(&self) -> BlobView {
        (self.data@, self.content_type@)
    }
}

impl Blob {
    /// A copy of the blob.
    pub fn duplicate(&self) -> (r: Blob)
        ensures
            r@ == self@,
    {
        let mut data: Vec<u8> = Vec::new();
        let mut i: usize = 0;
        while i < self.data.len()
            invariant
                i <= self.data@.len(),
                data@ == self.data@.subrange(0, i as int),
            decreases self.data@.len() - i,
        {
            data.push(self.data[i]);
            i = i + 1;
        }
        proof {
            assert(data@ == self.data@.subrange(0, self.data@.len() as int));
            assert(self.data@.subrange(0, self.data@.len() as int) =~= self.data@);
        }
        Blob { data, content_type: copy_string(&self.content_type) }
    }
}

/// A copy of a string.
fn copy_string(s: &String) -> (r: String)
    ensures
        r@ == s@,
{
    string_of(&str_chars(s.as_str()))
}

/// A message: a fixed lead-in, then the cause.
fn reason(lead: &str, cause: &str) -> (r: String)
    ensures
        r@ == lead@ + cause@,
{
    let mut out = str_chars(lead);
    push_str(&mut out, cause);
    string_of(&out)
}

/// Why the source image could not be had.
#[derive(Debug, Clone, PartialEq, Eq)]
pub enum FetchFailure<S = String> {
    /// The request for it failed, or the storage has nothing under its name.
    NotFound(S),
    /// The response came, and its body could not be read.
    Unreadable(S),
}

/// Why the processed image could not be had.
#[derive(Debug, Clone, PartialEq, Eq)]
pub enum ProcessingFailure<S = String> {
    /// The task that processed it did not finish.
    Join(S),
    /// Processing reported an error.
    Failed(S),
}

impl View for FetchFailure {
    type V = FetchFailure<Seq<char>>;

    open spec fn view(&self) -> FetchFailure<Seq<char>> {
        match self {
            FetchFailure::NotFound(m) => FetchFailure::NotFound(m@),
            FetchFailure::Unreadable(m) => FetchFailure::Unreadable(m@),
        }
    }
}

impl View for ProcessingFailure {
    type V = ProcessingFailure<Seq<char>>;

    open spec fn view(&self) -> ProcessingFailure<Seq<char>> {
        match self {
            ProcessingFailure::Join(m) => ProcessingFailure::Join(m@),
            ProcessingFailure::Failed(m) => ProcessingFailure::Failed(m@),
        }
    }
}

/// Where serving a request stands.
#[derive(Debug)]
pub enum ServeState<S = String, B = Blob> {
    /// Nothing is done yet.
    Start,
    /// The result store is asked for the result under the key.
    LookingUp(S),
    /// The source image is fetched; the key is kept for its result.
    Fetching(S),
    /// The source image is processed; the key is kept for its result.
    Processing(S),
    /// The processed image is put under the key.
    Storing(S, B),
    /// The request is answered.
    Done,
}

/// What the outside world reports to the request's server.
#[derive(Debug)]
pub enum ServeEvent<S = String, B = Blob> {
    /// The request has come.
    Arrived,
    /// What the result store holds under the key, if anything.
    Looked(Option<B>),
    /// The source image, or why it could not be had.
    Fetched(Result<B, FetchFailure<S>>),
    /// The processed image, or why it could not be had.
    Processed(Result<B, ProcessingFailure<S>>),
    /// Whether the result store kept the processed image.
    Stored(Result<(), S>),
}

/// What the request's server does next.
#[derive(Debug)]
pub enum ServeAction<S = String, B = Blob> {
    /// Answer with an error status and its message.
    Reject { status: u16, message: S },
    /// Ask the result store for the result under the key.
    LookUp(S),
    /// Fetch the source image from where it lives.
    Fetch(S, ImageSource),
    /// Process the source image with the request's parameters.
    Process(B),
    /// Put the processed image under the key in the result store.
    Put(S, B),
    /// Answer with the image.
    Respond(B),
}

impl View for ServeState {
    type V = ServeState<Seq<char>, BlobView>;

    open spec fn view(&self) -> ServeState<Seq<char>, BlobView> {
        match self {
            ServeState::Start => ServeState::Start,
            ServeState::LookingUp(k) => ServeState::LookingUp(k@),
            ServeState::Fetching(k) => ServeState::Fetching(k@),
            ServeState::Processing(k) => ServeState::Processing(k@),
            ServeState::Storing(k, b) => ServeState::Storing(k@, b@),
            ServeState::Done => ServeState::Done,
        }
    }
}

impl View for ServeEvent {
    type V = ServeEvent<Seq<char>, BlobView>;

    open spec fn view(&self) -> ServeEvent<Seq<char>, BlobView> {
        match self {
            ServeEvent::Arrived => ServeEvent::Arrived,
            ServeEvent::Looked(o) => ServeEvent::Looked(
                match o {
                    Some(b) => Some(b@),
                    None => None,
                },
            ),
            ServeEvent::Fetched(r) => ServeEvent::Fetched(
                match r {
                    Ok(b) => Ok(b@),
                    Err(e) => Err(e@),
                },
            ),
            ServeEvent::Processed(r) => ServeEvent::Processed(
                match r {
                    Ok(b) => Ok(b@),
                    Err(e) => Err(e@),
                },
            ),
            ServeEvent::Stored(r) => ServeEvent::Stored(
                match r {
                    Ok(()) => Ok(()),
                    Err(m) => Err(m@),
                },
            ),
        }
    }
}

impl View for ServeAction {
    type V = ServeAction<Seq<char>, BlobView>;

    open spec fn view(&self) -> ServeAction<Seq<char>, BlobView> {
        match self {
            ServeAction::Reject { status, message } => ServeAction::Reject {
                status: *status,
                message: message@,
            },
            ServeAction::LookUp(k) => ServeAction::LookUp(k@),
            ServeAction::Fetch(i, src) => ServeAction::Fetch(i@, *src),
            ServeAction::Process(b) => ServeAction::Process(b@),
            ServeAction::Put(k, b) => ServeAction::Put(k@, b@),
            ServeAction::Respond(b) => ServeAction::Respond(b@),
        }
    }
}

/// An event that the state does not wait for ends the request with a 500.
pub open spec fn out_of_turn() -> (ServeState<Seq<char>, BlobView>, ServeAction<Seq<char>, BlobView>) {
    (ServeState::Done, ServeAction::Reject { status: 500, message: "request handled out of turn"@ })
}

/// One step of serving a request: the hash check names the key; a result
/// stored under it is the answer; else the source is fetched (a failed
/// request 404, an unreadable body 500), processed (500 on failure), put under
/// the key (500 when that fails), and then the answer.
pub open spec fn serve_step_of(
    p: ParamsModel,
    s: ServeState<Seq<char>, BlobView>,
    e: ServeEvent<Seq<char>, BlobView>,
) -> (ServeState<Seq<char>, BlobView>, ServeAction<Seq<char>, BlobView>) {
    match s {
        ServeState::Start => match e {
            ServeEvent::Arrived => match request_check_of(p) {
                Ok(k) => (ServeState::LookingUp(k), ServeAction::LookUp(k)),
                Err((status, m)) => (ServeState::Done, ServeAction::Reject { status, message: m }),
            },
            _ => out_of_turn(),
        },
        ServeState::LookingUp(k) => match e {
            ServeEvent::Looked(Some(b)) => (ServeState::Done, ServeAction::Respond(b)),
            ServeEvent::Looked(None) => (
                ServeState::Fetching(k),
                ServeAction::Fetch(p.image.unwrap(), image_source_of(p.image.unwrap())),
            ),
            _ => out_of_turn(),
        },
        ServeState::Fetching(k) => match e {
            ServeEvent::Fetched(Ok(b)) => (ServeState::Processing(k), ServeAction::Process(b)),
            ServeEvent::Fetched(Err(FetchFailure::NotFound(m))) => (
                ServeState::Done,
                ServeAction::Reject { status: 404, message: "Failed to fetch image: "@ + m },
            ),
            ServeEvent::Fetched(Err(FetchFailure::Unreadable(m))) => (
                ServeState::Done,
                ServeAction::Reject { status: 500, message: "Failed to fetch image: "@ + m },
            ),
            _ => out_of_turn(),
        },
        ServeState::Processing(k) => match e {
            ServeEvent::Processed(Ok(b)) => (ServeState::Storing(k, b), ServeAction::Put(k, b)),
            ServeEvent::Processed(Err(ProcessingFailure::Join(m))) => (
                ServeState::Done,
                ServeAction::Reject { status: 500, message: "joining spawned task failed: "@ + m },
            ),
            ServeEvent::Processed(Err(ProcessingFailure::Failed(m))) => (
                ServeState::Done,
                ServeAction::Reject { status: 500, message: "Failed to process image: "@ + m },
            ),
            _ => out_of_turn(),
        },
        ServeState::Storing(k, b) => match e {
            ServeEvent::Stored(Ok(())) => (ServeState::Done, ServeAction::Respond(b)),
            ServeEvent::Stored(Err(m)) => (
                ServeState::Done,
                ServeAction::Reject { status: 500, message: "Failed to save result image: "@ + m },
            ),
            _ => out_of_turn(),
        },
        ServeState::Done => out_of_turn(),
    }
}

/// The next state and action of serving a request, after an event.
pub fn serve_step(params: &Params, state: ServeState, event: ServeEvent) -> (r: (ServeState, ServeAction))
    requires
        params@.path is Some,
        params@.image is Some,
    ensures
        (r.0@, r.1@) == serve_step_of(params@, state@, event@),
{
    match state {
        ServeState::Start => match event {
            ServeEvent::Arrived => match check_request(params) {
                Ok(k) => (ServeState::LookingUp(copy_string(&k)), ServeAction::LookUp(k)),
                Err(j) => (ServeState::Done, ServeAction::Reject { status: j.status, message: j.message }),
            },
            _ => out_of_turn_step(),
        },
        ServeState::LookingUp(k) => match event {
            ServeEvent::Looked(Some(b)) => (ServeState::Done, ServeAction::Respond(b)),
            ServeEvent::Looked(None) => {
                let image = params.image.as_ref().unwrap();
                let source = image_source(image.as_str());
                (ServeState::Fetching(k), ServeAction::Fetch(copy_string(image), source))
            },
            _ => out_of_turn_step(),
        },
        ServeState::Fetching(k) => match event {
            ServeEvent::Fetched(Ok(b)) => (ServeState::Processing(k), ServeAction::Process(b)),
            ServeEvent::Fetched(Err(FetchFailure::NotFound(m))) => (
                ServeState::Done,
                ServeAction::Reject { status: 404, message: reason("Failed to fetch image: ", m.as_str()) },
            ),
            ServeEvent::Fetched(Err(FetchFailure::Unreadable(m))) => (
                ServeState::Done,
                ServeAction::Reject { status: 500, message: reason("Failed to fetch image: ", m.as_str()) },
            ),
            _ => out_of_turn_step(),
        },
        ServeState::Processing(k) => match event {
            ServeEvent::Processed(Ok(b)) => {
                let kept = b.duplicate();
                (ServeState::Storing(copy_string(&k), kept), ServeAction::Put(k, b))
            },
            ServeEvent::Processed(Err(ProcessingFailure::Join(m))) => (
                ServeState::Done,
                ServeAction::Reject {
                    status: 500,
                    message: reason("joining spawned task failed: ", m.as_str()),
                },
            ),
            ServeEvent::Processed(Err(ProcessingFailure::Failed(m))) => (
                ServeState::Done,
                ServeAction::Reject { status: 500, message: reason("Failed to process image: ", m.as_str()) },
            ),
            _ => out_of_turn_step(),
        },
        ServeState::Storing(k, b) => match event {
            ServeEvent::Stored(Ok(())) => (ServeState::Done, ServeAction::Respond(b)),
            ServeEvent::Stored(Err(m)) => (
                ServeState::Done,
                ServeAction::Reject {
                    status: 500,
                    message: reason("Failed to save result image: ", m.as_str()),
                },
            ),
            _ => out_of_turn_step(),
        },
        ServeState::Done => out_of_turn_step(),
    }
}

fn out_of_turn_step() -> (r: (ServeState, ServeAction))
    ensures
        (r.0@, r.1@) == out_of_turn(),
{
    (
        ServeState::Done,
        ServeAction::Reject { status: 500, message: string_of(&str_chars("request handled out of turn")) },
    )
}

/// A request whose result is stored under its key is answered with that
/// result at once: nothing is fetched, processed or put.
pub proof fn law_stored_result_is_served(p: ParamsModel, k: Seq<char>, b: BlobView)
    requires
        request_check_of(p) == Ok::<Seq<char>, (u16, Seq<char>)>(k),
    ensures
        serve_step_of(p, ServeState::Start, ServeEvent::Arrived) == (
            ServeState::<Seq<char>, BlobView>::LookingUp(k),
            ServeAction::<Seq<char>, BlobView>::LookUp(k),
        ),
        serve_step_of(p, ServeState::LookingUp(k), ServeEvent::Looked(Some(b))) == (
            ServeState::<Seq<char>, BlobView>::Done,
            ServeAction::<Seq<char>, BlobView>::Respond(b),
        ),
{
}

/// A request whose result is not stored: the source is fetched and processed,
/// the processed image is put under the request's key, and once it is kept
/// the answer is that same image.
pub proof fn law_new_result_is_kept_and_served(p: ParamsModel, k: Seq<char>, source: BlobView, out: BlobView)
    requires
        p.image is Some,
        request_check_of(p) == Ok::<Seq<char>, (u16, Seq<char>)>(k),
    ensures
        ({
            let (s1, a1) = serve_step_of(p, ServeState::Start, ServeEvent::Arrived);
            let (s2, a2) = serve_step_of(p, s1, ServeEvent::Looked(None));
            let (s3, a3) = serve_step_of(p, s2, ServeEvent::Fetched(Ok(source)));
            let (s4, a4) = serve_step_of(p, s3, ServeEvent::Processed(Ok(out)));
            let (s5, a5) = serve_step_of(p, s4, ServeEvent::Stored(Ok(())));
            &&& a1 == ServeAction::<Seq<char>, BlobView>::LookUp(k)
            &&& a2 == ServeAction::<Seq<char>, BlobView>::Fetch(
                p.image.unwrap(),
                image_source_of(p.image.unwrap()),
            )
            &&& a3 == ServeAction::<Seq<char>, BlobView>::Process(source)
            &&& a4 == ServeAction::<Seq<char>, BlobView>::Put(k, out)
            &&& a5 == ServeAction::<Seq<char>, BlobView>::Respond(out)
            &&& s5 == ServeState::<Seq<char>, BlobView>::Done
        }),
{
}

/// Once answered, a request does nothing more: every later event ends in the
/// out-of-turn refusal.
pub proof fn law_answered_request_is_final(p: ParamsModel, e: ServeEvent<Seq<char>, BlobView>)
    ensures
        serve_step_of(p, ServeState::Done, e) == out_of_turn(),
{
}

} // verus!
