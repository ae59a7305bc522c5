use vstd::prelude::*;
use vstd::string::StringExecFns;

verus! {

/// Every failure the library reports. Each kind carries a message meant for
/// the host, never a native trace.
#[derive(Debug, Clone, PartialEq, Eq)]
pub enum Error {
    /// The destination of a download could not be created or written.
    Io(String),
    /// Connection, TLS, timeout or protocol failure, or a transport that
    /// could not be built.
    Transport(String),
    /// A malformed method, URL, header, proxy or user agent, found before
    /// anything was sent.
    Validation(String),
    /// The host's post-processing of a response failed.
    Callback(String),
    /// The external interrupt fired before the operation completed.
    Cancelled,
}

impl Error {
    /// The message the host sees.
    pub fn message(&self) -> (r: String)
        ensures
            match self {
                Error::Io(m) | Error::Transport(m) | Error::Validation(m) | Error::Callback(m) => r@ == m@,
                Error::Cancelled => r@ == "cancelled"@,
            },
    {
        match self {
            Error::Io(m) | Error::Transport(m) | Error::Validation(m) | Error::Callback(m) => m.clone(),
            Error::Cancelled => String::from_str("cancelled"),
        }
    }
}

} // verus!
