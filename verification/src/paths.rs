//! Where the app keeps its files, given the user's base directories.

use vstd::prelude::*;
use crate::constants::APP_NAME;
use crate::text::{chars_of, from_chars};

verus! {

/// A relative path appended to a directory: with a `/` between them
/// unless the directory is empty or already ends in one.
pub open spec fn join_path(base: Seq<char>, part: Seq<char>) -> Seq<char> {
    if base.len() == 0 {
        part
    } else if base.last() == '/' {
        base + part
    } else {
        base + seq!['/'] + part
    }
}

pub fn join(base: &str, part: &str) -> (s: String)
    ensures s@ == join_path(base@, part@),
{
    let mut out = chars_of(base);
    let tail = chars_of(part);
    if out.len() > 0 && out[out.len() - 1] != '/' {
        out.push('/');
    }
    let ghost head = out@;
    let mut i: usize = 0;
    while i < tail.len()
        invariant
            i <= tail.len(),
            out@ == head + tail@.take(i as int),
        decreases tail.len() - i,
    {
        out.push(tail[i]);
        i += 1;
        assert(out@ =~= head + tail@.take(i as int));
    }
    assert(tail@.take(tail.len() as int) =~= tail@);
    assert(out@ =~= join_path(base@, part@));
    from_chars(&out)
}

/// The app's files: its configuration directory, the user's profiles, the
/// remembered state, the daemon's socket and its log.
#[derive(Debug, Clone)]
pub struct Paths {
    pub config_dir: String,
    pub profiles_dir: String,
    pub state_file: String,
    pub socket: String,
    pub log_file: String,
}

impl Paths {
    /// The files under the configuration, runtime (or cache) and state
    /// directories, each in a directory named after the app.
    pub fn from_dirs(config: String, runtime_or_cache: String, state: String) -> (p: Paths)
        ensures
            p.config_dir@ == join_path(config@, APP_NAME@),
            p.profiles_dir@ == join_path(join_path(config@, APP_NAME@), "profiles"@),
            p.state_file@ == join_path(join_path(config@, APP_NAME@), "state.json"@),
            p.socket@ == join_path(join_path(runtime_or_cache@, APP_NAME@), "daemon.sock"@),
            p.log_file@ == join_path(join_path(state@, APP_NAME@), "opentartarus.log"@),
    {
        let config_dir = join(config.as_str(), APP_NAME);
        let runtime_dir = join(runtime_or_cache.as_str(), APP_NAME);
        let state_dir = join(state.as_str(), APP_NAME);
        Paths {
            profiles_dir: join(config_dir.as_str(), "profiles"),
            state_file: join(config_dir.as_str(), "state.json"),
            socket: join(runtime_dir.as_str(), "daemon.sock"),
            log_file: join(state_dir.as_str(), "opentartarus.log"),
            config_dir,
        }
    }
}

} // verus!
