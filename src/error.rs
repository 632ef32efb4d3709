use vstd::prelude::*;

verus! {

/// Errors surfaced by the session registry and the tunnel supervisor.
#[derive(Debug, PartialEq, Eq)]
pub enum HtMcpError {
    /// An operation addressed a session id that the registry does not hold.
    SessionNotFound(String),
    /// Any other failure: I/O, a channel, a timeout, a missing tunnel.
    Internal(String),
}

pub open spec fn is_not_found(e: HtMcpError, id: Seq<char>) -> bool {
    e matches HtMcpError::SessionNotFound(s) && s@ == id
}

impl HtMcpError {
    /// The text a caller sees for this error.
    pub fn message(&self) -> (r: String)
        ensures
            match self {
                HtMcpError::SessionNotFound(id) => r@ == "Session not found: "@ + id@,
                HtMcpError::Internal(m) => r@ == "Internal error: "@ + m@,
            },
    {
        match self {
            HtMcpError::SessionNotFound(id) => {
                let r = String::from_str("Session not found: ");
                r.concat(id.as_str())
            },
            HtMcpError::Internal(m) => {
                let r = String::from_str("Internal error: ");
                r.concat(m.as_str())
            },
        }
    }
}

} // verus!
