//! Where a requested path is fetched from.
use vstd::prelude::*;
use vstd::string::StringExecFns;

verus! {

/// The base that every requested path is appended to.
pub const ORIGIN_BASE: &'static str = "https://images.t-online.de";

/// The absolute origin URL of a request path: the base followed by the path,
/// with no validation of its own.
pub fn origin_url(path: &str) -> (r: String)
    ensures
        r@ == ORIGIN_BASE@ + path@,
{
    String::from_str(ORIGIN_BASE).concat(path)
}

} // verus!
