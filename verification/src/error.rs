//! Why a retrieval did not produce the selection's contents.

use vstd::prelude::*;
use crate::atoms::WellKnownAtom;

verus! {

/// The ways a retrieval fails.
///
/// The first four arise while the connection is set up and are final: nothing
/// is retried after them. `FormatNegotiationFailed` is the only one that is
/// reached after the retriever has retried on its own.
#[derive(Clone, Copy, Debug, PartialEq, Eq, Structural)]
pub enum RetrievalError {
    /// The display could not be opened.
    ConnectionUnavailable,
    /// The server gave no window to receive the transfer.
    WindowCreationFailed,
    /// The window could not be subscribed to property changes.
    EventSubscriptionFailed,
    /// The server resolved this name to the null atom.
    AtomUnresolvable(WellKnownAtom),
    /// The owner refused every target format on the list.
    FormatNegotiationFailed,
    /// The deadline passed, or the replies ended, before the transfer did.
    Timeout,
    /// A reply did not fit the transfer in progress.
    MalformedTransfer,
}

impl RetrievalError {
    /// True of the errors that arise before any conversion is requested.
    pub open spec fn spec_is_setup_error(self) -> bool {
        self is ConnectionUnavailable || self is WindowCreationFailed
            || self is EventSubscriptionFailed || self is AtomUnresolvable
    }

    /// Whether the error arose while the connection was set up.
    pub fn is_setup_error(&self) -> (b: bool)
        ensures
            b == self.spec_is_setup_error(),
    {
        match self {
            RetrievalError::ConnectionUnavailable => true,
            RetrievalError::WindowCreationFailed => true,
            RetrievalError::EventSubscriptionFailed => true,
            RetrievalError::AtomUnresolvable(_) => true,
            _ => false,
        }
    }

    /// The text of [`RetrievalError::message`].
    pub open spec fn spec_message(self) -> Seq<char> {
        match self {
            RetrievalError::ConnectionUnavailable => "XOpenDisplay"@,
            RetrievalError::WindowCreationFailed => "XCreateSimpleWindow"@,
            RetrievalError::EventSubscriptionFailed => "XSelectInput"@,
            RetrievalError::AtomUnresolvable(WellKnownAtom::Clipboard) => "XA_CLIPBOARD"@,
            RetrievalError::AtomUnresolvable(WellKnownAtom::Utf8String) => "XA_UTF8_STRING"@,
            RetrievalError::AtomUnresolvable(WellKnownAtom::Incr) => "INCR"@,
            RetrievalError::AtomUnresolvable(WellKnownAtom::TransferProperty) => {
                "SERVO_CLIPBOARD_OUT"@
            },
            RetrievalError::FormatNegotiationFailed => "unable to negotiate format"@,
            RetrievalError::Timeout => "timed out waiting for the selection"@,
            RetrievalError::MalformedTransfer => "malformed selection transfer"@,
        }
    }

    /// A short fixed text that names the failure: for a setup error, the
    /// step that failed.
    pub fn message(&self) -> (text: &'static str)
        ensures
            text@ == self.spec_message(),
    {
        match self {
            RetrievalError::ConnectionUnavailable => "XOpenDisplay",
            RetrievalError::WindowCreationFailed => "XCreateSimpleWindow",
            RetrievalError::EventSubscriptionFailed => "XSelectInput",
            RetrievalError::AtomUnresolvable(WellKnownAtom::Clipboard) => "XA_CLIPBOARD",
            RetrievalError::AtomUnresolvable(WellKnownAtom::Utf8String) => "XA_UTF8_STRING",
            RetrievalError::AtomUnresolvable(WellKnownAtom::Incr) => "INCR",
            RetrievalError::AtomUnresolvable(WellKnownAtom::TransferProperty) => {
                "SERVO_CLIPBOARD_OUT"
            },
            RetrievalError::FormatNegotiationFailed => "unable to negotiate format",
            RetrievalError::Timeout => "timed out waiting for the selection",
            RetrievalError::MalformedTransfer => "malformed selection transfer",
        }
    }
}

} // verus!
