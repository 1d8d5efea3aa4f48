//! Small path helpers.

use vstd::prelude::*;
use vstd::string::*;

verus! {

/// Joins `path` under `base` with a separator when a base directory is
/// given, and leaves `path` alone otherwise.
pub fn maybe_join(base: Option<&str>, path: &str) -> (r: String)
    ensures
        match base {
            Some(b) => r@ == b@ + "/"@ + path@,
            None => r@ == path@,
        },
{
    match base {
        Some(b) => {
            let mut s = String::from_str(b);
            s.append("/");
            s.append(path);
            s
        },
        None => String::from_str(path),
    }
}

} // verus!
