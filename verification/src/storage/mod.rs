//! Where stored objects go: a key is normalised and put under the storage's
//! path prefix.
use vstd::prelude::*;
use crate::imagorpath::normalize::{normalize, normalized_key, SafeCharsType};
use crate::text::{push_str, str_chars, string_of};

verus! {

/// What a storage needs to know to place a key.
#[derive(Debug)]
pub struct StorageLayout {
    pub base_dir: String,
    pub path_prefix: String,
    pub safe_chars: SafeCharsType,
}

/// `prefix/key`, with the key in its normalised form.
pub open spec fn full_path_of(path_prefix: Seq<char>, key: Seq<char>, safe_chars: SafeCharsType) -> Seq<char> {
    path_prefix + seq!['/'] + normalized_key(key, safe_chars)
}

impl StorageLayout {
    /// The object name a key is stored under.
    pub fn get_full_path(&self, key: &str) -> (r: String)
        ensures
            r@ == full_path_of(self.path_prefix@, key@, self.safe_chars),
    {
        let safe_key = normalize(key, &self.safe_chars);
        let mut out = str_chars(self.path_prefix.as_str());
        out.push('/');
        push_str(&mut out, safe_key.as_str());
        string_of(&out)
    }
}

/// What to do after a failed attempt to reach the object store.
#[derive(Debug, Clone, Copy, PartialEq, Eq, Structural)]
pub enum ConnectStep {
    /// Report the failure: it was the last attempt.
    GiveUp,
    /// Wait, then make attempt number `next` (counted from one).
    Retry { next: u32 },
}

/// After failed attempt `attempt` (counted from zero) of `max_retries`: give
/// up on the last one, else wait and try again.
pub fn after_failed_connect(attempt: u32, max_retries: u32) -> (r: ConnectStep)
    requires
        attempt < max_retries,
    ensures
        attempt == max_retries - 1 ==> r == ConnectStep::GiveUp,
        attempt < max_retries - 1 ==> r == (ConnectStep::Retry { next: (attempt + 1) as u32 }),
{
    if attempt == max_retries - 1 {
        ConnectStep::GiveUp
    } else {
        ConnectStep::Retry { next: attempt + 1 }
    }
}

} // verus!
