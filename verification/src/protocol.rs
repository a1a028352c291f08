//! What passes between the retriever and the connection: the replies that
//! come in, and the requests that go out.

use vstd::prelude::*;
use crate::atoms::{Atom, TargetFormat, Window};
use crate::chunk::PropertyChunk;

verus! {

/// The state code of a property-change event that reports a new value.
/// Any other code reports a deletion.
pub const PROPERTY_NEW_VALUE: i32 = 0;

/// An event of the connection, reduced to what a retrieval reads of it.
#[derive(Clone, Copy, Debug, PartialEq, Eq, Structural)]
pub enum EventRecord {
    /// The owner has answered a conversion request. `property` names where
    /// the data was put; the null atom says that the target was refused.
    SelectionNotify { property: Atom },
    /// A property of the window has changed; `state` says how.
    PropertyNotify { state: i32 },
    /// Any other event.
    Other,
}

/// What the connection hands back for the last request that asked for
/// something.
#[derive(Debug, PartialEq, Eq)]
pub enum Reply {
    /// The next event, for [`Effect::AwaitEvent`].
    Event(EventRecord),
    /// What was read, for [`Effect::ReadProperty`].
    Property(PropertyChunk),
    /// Nothing came before the caller's deadline.
    DeadlineExpired,
}

impl Clone for Reply {
    /// A reply of the same kind with the same contents.
    fn clone(&self) -> (copy: Reply)
        ensures
            match (*self, copy) {
                (Reply::Event(a), Reply::Event(b)) => a == b,
                (Reply::Property(a), Reply::Property(b)) => {
                    &&& a.type_id == b.type_id
                    &&& a.format == b.format
                    &&& a.item_count == b.item_count
                    &&& a.bytes_after == b.bytes_after
                    &&& a.data@ == b.data@
                },
                (Reply::DeadlineExpired, Reply::DeadlineExpired) => true,
                _ => false,
            },
    {
        match self {
            Reply::Event(event) => Reply::Event(*event),
            Reply::Property(chunk) => Reply::Property(chunk.clone()),
            Reply::DeadlineExpired => Reply::DeadlineExpired,
        }
    }
}

/// One request to the connection.
#[derive(Clone, Copy, Debug, PartialEq, Eq, Structural)]
pub enum Effect {
    /// Ask the owner of `selection` to convert it to `target` and to put the
    /// result into `property` on `window`.
    ConvertSelection { selection: Atom, target: TargetFormat, property: Atom, window: Window },
    /// Wait for the next event and hand it back.
    AwaitEvent,
    /// Read `property` of `window` from its start, at most `length` units
    /// of four bytes, deleting nothing, and hand the result back. Length
    /// zero probes: it learns type, format and size and takes no data.
    ReadProperty { window: Window, property: Atom, length: u64 },
    /// Delete `property` from `window`, which tells the owner that the
    /// value has been taken.
    DeleteProperty { window: Window, property: Atom },
    /// Send what has been requested so far.
    Flush,
}

impl Effect {
    /// True of the requests that are answered with a [`Reply`].
    pub open spec fn spec_expects_reply(self) -> bool {
        self is AwaitEvent || self is ReadProperty
    }

    /// Whether the connection answers this request with a [`Reply`].
    pub fn expects_reply(&self) -> (b: bool)
        ensures
            b == self.spec_expects_reply(),
    {
        match self {
            Effect::AwaitEvent => true,
            Effect::ReadProperty { .. } => true,
            _ => false,
        }
    }
}

} // verus!
