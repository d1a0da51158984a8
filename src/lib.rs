//! Verified protocol core of a bridge to the pion webrtc engine.
//!
//! The engine lives behind a narrow C-ABI boundary that carries only
//! machine words. This crate holds the logic of that boundary: the tag
//! table, the slot encoding of calls, the decoding of responses and events,
//! the exactly-once response rule, the single event subscriber, the routing
//! of events to peer connections and the lifecycle of handles.
use vstd::prelude::*;

pub mod data_chan;
pub mod evt;
pub mod go_buf;
pub mod handle;
pub mod sys;

pub use data_chan::DataChannel;
pub use evt::{
    register_peer_con_evt_cb, unregister_peer_con_evt_cb, Manager, PeerConnectionEvent,
};

verus! {

/// Error type.
#[derive(Debug, Clone, PartialEq, Eq, PartialOrd, Ord, Hash)]
pub enum Error {
    /// Generic error without a code.
    Other(String),
}

/// Result type of this crate.
pub type Result<T> = core::result::Result<T, Error>;

impl Error {
    /// The message this error carries.
    pub open spec fn spec_message(&self) -> Seq<char> {
        match self {
            Error::Other(s) => s@,
        }
    }
}

impl From<String> for Error {
    fn from(s: String) -> (r: Error)
        ensures
            r.spec_message() == s@,
    {
        Error::Other(s)
    }
}

impl vstd::std_specs::convert::FromSpecImpl<String> for Error {
    open spec fn obeys_from_spec() -> bool {
        true
    }

    open spec fn from_spec(s: String) -> Error {
        Error::Other(s)
    }
}

impl From<sys::Error> for Error {
    /// Keeps the engine's message; the code has no place here.
    fn from(err: sys::Error) -> (r: Error)
        ensures
            r.spec_message() == err.error@,
    {
        Error::Other(err.error)
    }
}

impl vstd::std_specs::convert::FromSpecImpl<sys::Error> for Error {
    open spec fn obeys_from_spec() -> bool {
        true
    }

    open spec fn from_spec(err: sys::Error) -> Error {
        Error::Other(err.error)
    }
}

impl From<Error> for sys::Error {
    /// An error of this crate crosses back with code zero.
    fn from(err: Error) -> (r: sys::Error)
        ensures
            r@ == (sys::ErrorView { code: 0, message: err.spec_message() }),
    {
        match err {
            Error::Other(error) => sys::Error { code: 0, error },
        }
    }
}

impl vstd::std_specs::convert::FromSpecImpl<Error> for sys::Error {
    open spec fn obeys_from_spec() -> bool {
        true
    }

    open spec fn from_spec(err: Error) -> sys::Error {
        match err {
            Error::Other(error) => sys::Error { code: 0, error },
        }
    }
}

} // verus!
