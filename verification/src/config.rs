//! The service's settings that are plain values, and its environments.
use vstd::prelude::*;
use crate::text::{
    all_ascii, ascii_lower, push_str, str_chars, str_to_lowercase, string_of, unicode_lowercase,
};

verus! {

/// How the processor is configured.
#[derive(Debug, Clone, PartialEq, Eq)]
pub struct ProcessorSettings {
    pub disable_blur: bool,
    pub disabled_filters: Vec<String>,
    pub max_filter_ops: usize,
    pub concurrency: Option<i32>,
    pub max_cache_files: i32,
    pub max_cache_mem: i32,
    pub max_cache_size: i32,
    pub max_width: i32,
    pub max_height: i32,
    pub max_resolution: i32,
    pub max_animation_frames: usize,
    pub strip_metadata: bool,
    pub avif_speed: i32,
}

/// Storage on the local file system.
#[derive(Debug, Clone, PartialEq, Eq)]
pub struct FilesystemSettings {
    pub base_dir: String,
}

/// Where the cache lives.
#[derive(Debug, Clone, PartialEq, Eq)]
pub enum CacheSettings {
    Redis(RedisSettings),
    Filesystem(String),
}

/// A Redis cache.
#[derive(Debug, Clone, PartialEq, Eq)]
pub struct RedisSettings {
    pub uri: String,
}

/// A cache on the local file system.
#[derive(Debug, Clone, PartialEq, Eq)]
pub struct FilesystemCacheSettings {
    pub base_dir: String,
}

/// Where the service runs, which picks its configuration file.
#[derive(Debug, Clone, Copy, PartialEq, Eq, Structural)]
pub enum Environment {
    Local,
    Production,
}

/// The name of an environment.
pub open spec fn environment_name(e: Environment) -> Seq<char> {
    match e {
        Environment::Local => "local"@,
        Environment::Production => "production"@,
    }
}

/// The environment a lower-cased name picks; any other name is refused with
/// a message that quotes it.
pub open spec fn environment_of(lower: Seq<char>) -> Result<Environment, Seq<char>> {
    if lower == "local"@ {
        Ok(Environment::Local)
    } else if lower == "production"@ {
        Ok(Environment::Production)
    } else {
        Err(lower + " is not a supported environment. Use either `local` or `production`"@)
    }
}

fn same_text(a: &Vec<char>, lit: &str) -> (r: bool)
    ensures
        r == (a@ == lit@),
{
    let l = str_chars(lit);
    if a.len() != l.len() {
        return false;
    }
    let r = crate::text::starts_at(a.as_slice(), 0, &l);
    proof {
        assert(a@.subrange(0, l@.len() as int) =~= a@);
    }
    r
}

impl Environment {
    /// The environment's name.
    pub fn as_str(&self) -> (r: &'static str)
        ensures
            r@ == environment_name(*self),
    {
        match self {
            Environment::Local => "local",
            Environment::Production => "production",
        }
    }

    /// The environment a name picks, in any case.
    pub fn try_from(s: String) -> (r: Result<Environment, String>)
        ensures
            match environment_of(unicode_lowercase(s@)) {
                Ok(e) => r == Ok::<Environment, String>(e),
                Err(m) => r matches Err(m2) && m2@ == m,
            },
            all_ascii(s@) ==> unicode_lowercase(s@) == ascii_lower(s@),
    {
        let lower = str_to_lowercase(s.as_str());
        let cs = str_chars(lower.as_str());
        if same_text(&cs, "local") {
            Ok(Environment::Local)
        } else if same_text(&cs, "production") {
            Ok(Environment::Production)
        } else {
            let mut out = cs;
            push_str(&mut out, " is not a supported environment. Use either `local` or `production`");
            Err(string_of(&out))
        }
    }
}

/// Environments round-trip through their names: a name is ASCII, and lower
/// casing it picks the same environment again.
pub proof fn law_environment_name_round_trip(e: Environment)
    ensures
        all_ascii(environment_name(e)),
        environment_of(ascii_lower(environment_name(e))) == Ok::<Environment, Seq<char>>(e),
{
    reveal_strlit("local");
    reveal_strlit("production");
    assert(ascii_lower("local"@) =~= "local"@);
    assert(ascii_lower("production"@) =~= "production"@);
}

} // verus!
