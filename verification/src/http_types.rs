//! Plain request shapes consumed by the HTTP layer around the core. The
//! handlers themselves (routing, authentication, process control) are outside
//! collaborators; only the data shapes belong to the core.

use vstd::prelude::*;

verus! {

/// Body of a process-kill request.
#[derive(Clone, Debug, PartialEq)]
pub struct KilledInfo {
    pub pid: String,
}

impl Default for KilledInfo {
    fn default() -> (r: Self)
        ensures
            r.pid@ == Seq::<char>::empty(),
    {
        KilledInfo { pid: String::new() }
    }
}

/// Query-string parameters of a range read: the inputs of the range query
/// interface.
#[derive(Clone, Copy, Debug, PartialEq, Eq, Structural)]
pub struct QueryParams {
    pub start_time: i64,
    pub stop_time: i64,
    pub period: i64,
}

/// Body of a token-reset request.
#[derive(Clone, Debug, PartialEq)]
pub struct TokenInfo {
    pub token: String,
}

impl Default for TokenInfo {
    fn default() -> (r: Self)
        ensures
            r.token@ == Seq::<char>::empty(),
    {
        TokenInfo { token: String::new() }
    }
}

} // verus!
