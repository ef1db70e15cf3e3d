//! Failures a registration can end in, and how a listener's bind outcome becomes one.
use vstd::prelude::*;
use crate::notifier::NotificationError;
use crate::server::Cancellable;

verus! {

/// Why a registration failed: its body could not be read, or its listener
/// could not be stood up.
pub enum Error {
    JsonParse(String),
    Connection(String),
}

/// The cause given when the listener's bind outcome cannot be read back.
pub open spec fn unavailable_outcome_message() -> Seq<char> {
    "the listener did not report whether it bound its port"@
}

impl Error {
    /// The failure's kind, as the name shown to callers.
    pub fn failure_type(&self) -> (r: String)
        ensures
            r@ == match self {
                Error::JsonParse(_) => "MalformedJson"@,
                Error::Connection(_) => "Connection"@,
            },
    {
        proof {
            reveal_strlit("MalformedJson");
            reveal_strlit("Connection");
        }
        match self {
            Error::JsonParse(_) => "MalformedJson".to_owned(),
            Error::Connection(_) => "Connection".to_owned(),
        }
    }

    /// The failure's human-readable cause.
    pub fn message(&self) -> (r: String)
        ensures
            r@ == match self {
                Error::JsonParse(m) => m@,
                Error::Connection(m) => m@,
            },
    {
        match self {
            Error::JsonParse(m) => m.clone(),
            Error::Connection(m) => m.clone(),
        }
    }
}

/// Turns the bind outcome that a spawned listener reported through the
/// rendezvous into the result of establishing the connection: the handle of
/// the running listener where it bound, a connection error carrying its cause
/// where it did not, and a generic connection error where the outcome could not
/// be read. In the last case the listener is cancelled, so that none is left
/// running unaccounted for.
pub fn connection_outcome<H: Cancellable>(
    handle: H,
    bind: Result<Result<(), String>, NotificationError>,
) -> (r: Result<H, Error>)
    ensures
        match bind {
            Ok(Ok(())) => r == Ok::<H, Error>(handle),
            Ok(Err(cause)) => r matches Err(Error::Connection(m)) && m@ == cause@,
            Err(_) => r matches Err(Error::Connection(m)) && m@ == unavailable_outcome_message(),
        },
{
    match bind {
        Ok(Ok(())) => Ok(handle),
        Ok(Err(cause)) => Err(Error::Connection(cause)),
        Err(_) => {
            handle.cancel();
            proof {
                reveal_strlit("the listener did not report whether it bound its port");
            }
            Err(Error::Connection("the listener did not report whether it bound its port".to_owned()))
        },
    }
}

} // verus!
