//! Identifiers handed out by the display server.

use vstd::prelude::*;

verus! {

/// The server's number for an interned name. Zero is the null atom: the
/// server never hands it out for a name that it resolved.
pub type Atom = u64;

/// The server's number for a window. Zero is no window.
pub type Window = u64;

/// A representation in which the selection's data can be asked for, named
/// by its atom.
pub type TargetFormat = Atom;

/// The null atom.
pub const NULL_ATOM: Atom = 0;

/// The predefined atom of the legacy plain-text target. The protocol fixes
/// its number, so it is never resolved by name.
pub const XA_STRING: Atom = 31;

/// The names that a retrieval resolves before it starts.
#[derive(Clone, Copy, Debug, PartialEq, Eq, Structural)]
pub enum WellKnownAtom {
    /// The selection that is read.
    Clipboard,
    /// The UTF-8 text target.
    Utf8String,
    /// The type that marks an incremental transfer.
    Incr,
    /// The property on the requestor's window that receives the data.
    TransferProperty,
}

impl WellKnownAtom {
    /// The protocol-level name, as the server interns it.
    pub open spec fn spec_name(self) -> Seq<char> {
        match self {
            WellKnownAtom::Clipboard => "CLIPBOARD"@,
            WellKnownAtom::Utf8String => "UTF8_STRING"@,
            WellKnownAtom::Incr => "INCR"@,
            WellKnownAtom::TransferProperty => "SERVO_CLIPBOARD_OUT"@,
        }
    }

    /// The protocol-level name to resolve.
    pub fn name(&self) -> (name: &'static str)
        ensures
            name@ == self.spec_name(),
    {
        match self {
            WellKnownAtom::Clipboard => "CLIPBOARD",
            WellKnownAtom::Utf8String => "UTF8_STRING",
            WellKnownAtom::Incr => "INCR",
            WellKnownAtom::TransferProperty => "SERVO_CLIPBOARD_OUT",
        }
    }
}

} // verus!
