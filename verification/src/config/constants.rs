//! Settings read from the environment.
use vstd::prelude::*;
use crate::text::{contains_str, has_substring, to_lowercase, unicode_lowercase};

verus! {

/// Whether a `RUST_LOG` value turns on debug logging: once lower-cased it
/// mentions `debug`, `full` or `trace`. An unset variable counts as empty.
pub open spec fn debug_log(rust_log: Seq<char>) -> bool {
    let v = unicode_lowercase(rust_log);
    has_substring(v, "debug"@) || has_substring(v, "full"@) || has_substring(v, "trace"@)
}

/// Whether the `RUST_LOG` value `rust_log` (empty when unset) turns on debug
/// logging.
pub fn is_debug(rust_log: &str) -> (r: bool)
    ensures
        r == debug_log(rust_log@),
{
    let v = to_lowercase(rust_log);
    contains_str(v.as_str(), "debug") || contains_str(v.as_str(), "full") || contains_str(v.as_str(), "trace")
}

} // verus!
