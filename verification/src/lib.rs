//! A broker for power-management inhibitor locks: the registry of held locks,
//! the wire protocol, and the decisions of the daemon and of its client.

use vstd::prelude::*;
use vstd::string::{StrSliceExecFns, StringExecFns};
use crate::text::owned;

pub mod client;
pub mod daemon;
pub mod json;
pub mod protocol;
pub mod state;
mod text;

verus! {

/// Where the daemon keeps its files.
#[derive(Clone, Debug, PartialEq, Eq)]
pub struct Locations {
    pub tmp_dir: String,
    pub socket_path: String,
    pub lock_path: String,
}

/// A path with one more component: the component follows a separator,
/// which is added unless the path is empty or ends in one.
pub open spec fn joined(base: Seq<char>, name: Seq<char>) -> Seq<char> {
    if base.len() > 0 && base.last() != '/' {
        base + seq!['/'] + name
    } else {
        base + name
    }
}

/// The locations under a runtime directory.
pub open spec fn locations_under(runtime_dir: Seq<char>, locations: Locations) -> bool {
    &&& locations.tmp_dir@ == joined(runtime_dir, "doppio"@)
    &&& locations.socket_path@ == joined(locations.tmp_dir@, "doppio.sock"@)
    &&& locations.lock_path@ == joined(locations.tmp_dir@, "doppio.lock"@)
}

/// The sentence for a session without a runtime directory.
pub open spec fn no_runtime_dir_text() -> Seq<char> {
    "XDG_RUNTIME_DIR not set. Is your session running?"@
}

/// Adds a component to a path.
pub fn join(base: &str, name: &str) -> (r: String)
    ensures
        r@ == joined(base@, name@),
{
    let n = base.unicode_len();
    let mut path = owned(base);
    if n > 0 && base.get_char(n - 1) != '/' {
        proof {
            reveal_strlit("/");
            assert("/"@ =~= seq!['/']);
        }
        path.append("/");
    }
    path.append(name);
    path
}

impl Locations {
    /// The locations under the runtime directory of the session, which is
    /// the value of `XDG_RUNTIME_DIR`. Without one there are none.
    pub fn new(runtime_dir: Option<&str>) -> (r: Result<Locations, String>)
        ensures
            match r {
                Ok(locations) => runtime_dir matches Some(dir) && locations_under(dir@, locations),
                Err(text) => runtime_dir is None && text@ == no_runtime_dir_text(),
            },
    {
        let dir = match runtime_dir {
            Some(dir) => dir,
            None => {
                return Err(owned("XDG_RUNTIME_DIR not set. Is your session running?"));
            },
        };
        let tmp_dir = join(dir, "doppio");
        let socket_path = join(tmp_dir.as_str(), "doppio.sock");
        let lock_path = join(tmp_dir.as_str(), "doppio.lock");
        Ok(Locations { tmp_dir, socket_path, lock_path })
    }
}

} // verus!
