use vstd::prelude::*;
use vstd::string::StringExecFns;

verus! {

/// The prefix under which every API route of the server is mounted.
pub open spec fn api_path(path: Seq<char>) -> Seq<char> {
    "/api"@ + path
}

/// Mounts `path` (which should start with a `/`) under the API prefix.
pub fn format_api(path: &str) -> (r: String)
    ensures
        r@ == api_path(path@),
{
    String::from_str("/api").concat(path)
}

} // verus!
