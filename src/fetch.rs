//! The two endpoints that the views read, and how a fetch can fail.
use vstd::prelude::*;
use vstd::string::StringExecFns;

verus! {

/// Why a fetch produced no usable payload.
#[derive(Clone, Copy, Debug, PartialEq, Eq, Structural)]
pub enum FetchError {
    /// The request never got a response (connection refused, timeout, ...).
    Transport,
    /// A response came back but its body did not decode.
    Decode,
}

pub open spec fn projects_path() -> Seq<char> {
    "/api/v1/projects"@
}

/// `{base}/api/v1/projects`: the list of all project summaries.
pub fn projects_url(base: &str) -> (r: String)
    ensures
        r@ == base@ + projects_path(),
{
    let r = String::from_str(base);
    r.concat("/api/v1/projects")
}

/// `{base}/api/v1/projects/{name}`: the detail text of one project.
pub fn project_url(base: &str, name: &str) -> (r: String)
    ensures
        r@ == base@ + projects_path() + seq!['/'] + name@,
{
    proof {
        reveal_strlit("/");
    }
    let r = projects_url(base).concat("/").concat(name);
    assert(r@ =~= base@ + projects_path() + seq!['/'] + name@);
    r
}

} // verus!
