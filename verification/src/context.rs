//! The handles that a retrieval works with.

use vstd::prelude::*;
use crate::atoms::{Atom, TargetFormat, WellKnownAtom, Window, XA_STRING};
use crate::error::RetrievalError;

verus! {

/// The steps in which a connection is set up, in their order. Each hands
/// back a number, and zero says that the step has failed.
#[derive(Clone, Copy, Debug, PartialEq, Eq, Structural)]
pub enum SetupStep {
    /// The display is opened. The number is one if it was, zero if not.
    OpenDisplay,
    /// The window that receives the transfer is created. The number is the
    /// window's.
    CreateWindow,
    /// The window is subscribed to property changes. The number is the
    /// status that the subscription returned.
    SelectInput,
    /// A name is resolved. The number is the atom's.
    ResolveAtom(WellKnownAtom),
}

impl SetupStep {
    /// The failure that a zero from this step means.
    pub open spec fn spec_failure(self) -> RetrievalError {
        match self {
            SetupStep::OpenDisplay => RetrievalError::ConnectionUnavailable,
            SetupStep::CreateWindow => RetrievalError::WindowCreationFailed,
            SetupStep::SelectInput => RetrievalError::EventSubscriptionFailed,
            SetupStep::ResolveAtom(atom) => RetrievalError::AtomUnresolvable(atom),
        }
    }

    /// The failure that a zero from this step means.
    pub fn failure(&self) -> (error: RetrievalError)
        ensures
            error == self.spec_failure(),
    {
        match self {
            SetupStep::OpenDisplay => RetrievalError::ConnectionUnavailable,
            SetupStep::CreateWindow => RetrievalError::WindowCreationFailed,
            SetupStep::SelectInput => RetrievalError::EventSubscriptionFailed,
            SetupStep::ResolveAtom(atom) => RetrievalError::AtomUnresolvable(*atom),
        }
    }

    /// Takes what the step handed back: the number itself, unless it is
    /// zero, which is the step's failure.
    pub fn require(&self, outcome: u64) -> (r: Result<u64, RetrievalError>)
        ensures
            outcome != 0 ==> r == Ok::<u64, RetrievalError>(outcome),
            outcome == 0 ==> r == Err::<u64, RetrievalError>(self.spec_failure()),
    {
        if outcome == 0 {
            Err(self.failure())
        } else {
            Ok(outcome)
        }
    }
}

/// The first reason, if any, for which the given handles cannot serve a
/// retrieval: a handle that is zero, asked in the order in which the handles
/// are obtained.
pub open spec fn setup_error(
    window: Window,
    selection: Atom,
    utf8string: Atom,
    property: Atom,
    incr: Atom,
) -> Option<RetrievalError> {
    if window == 0 {
        Some(SetupStep::CreateWindow.spec_failure())
    } else if selection == 0 {
        Some(SetupStep::ResolveAtom(WellKnownAtom::Clipboard).spec_failure())
    } else if utf8string == 0 {
        Some(SetupStep::ResolveAtom(WellKnownAtom::Utf8String).spec_failure())
    } else if property == 0 {
        Some(SetupStep::ResolveAtom(WellKnownAtom::TransferProperty).spec_failure())
    } else if incr == 0 {
        Some(SetupStep::ResolveAtom(WellKnownAtom::Incr).spec_failure())
    } else {
        None
    }
}

/// A window that receives the transfer and the atoms that the exchange
/// names, resolved once and then only read. None of them is zero.
#[derive(Clone, Copy, Debug, PartialEq, Eq)]
pub struct ClipboardContext {
    window: Window,
    selection: Atom,
    utf8string: Atom,
    property: Atom,
    incr: Atom,
}

impl ClipboardContext {
    #[verifier::type_invariant]
    closed spec fn resolved(self) -> bool {
        setup_error(self.window, self.selection, self.utf8string, self.property, self.incr)
            is None
    }

    /// The window that receives the transfer.
    pub closed spec fn spec_window(&self) -> Window {
        self.window
    }

    /// The selection that is read.
    pub closed spec fn spec_selection(&self) -> Atom {
        self.selection
    }

    /// The UTF-8 text target.
    pub closed spec fn spec_utf8string(&self) -> Atom {
        self.utf8string
    }

    /// The property on the window through which the data arrives.
    pub closed spec fn spec_property(&self) -> Atom {
        self.property
    }

    /// The type that marks an incremental transfer.
    pub closed spec fn spec_incr(&self) -> Atom {
        self.incr
    }

    /// The target formats in the order in which they are tried: UTF-8 text,
    /// then legacy plain text.
    pub open spec fn spec_preferred_formats(&self) -> Seq<TargetFormat> {
        seq![self.spec_utf8string(), XA_STRING]
    }

    /// Gathers the handles of a connection that has been set up.
    ///
    /// Fails on the first handle that is zero: a window that was not created,
    /// or a name that the server did not resolve.
    pub fn new(
        window: Window,
        selection: Atom,
        utf8string: Atom,
        property: Atom,
        incr: Atom,
    ) -> (r: Result<ClipboardContext, RetrievalError>)
        ensures
            match r {
                Ok(ctx) => {
                    &&& setup_error(window, selection, utf8string, property, incr) is None
                    &&& ctx.spec_window() == window
                    &&& ctx.spec_selection() == selection
                    &&& ctx.spec_utf8string() == utf8string
                    &&& ctx.spec_property() == property
                    &&& ctx.spec_incr() == incr
                },
                Err(e) => setup_error(window, selection, utf8string, property, incr) == Some(e),
            },
    {
        let window = match SetupStep::CreateWindow.require(window) {
            Ok(window) => window,
            Err(e) => return Err(e),
        };
        let selection = match SetupStep::ResolveAtom(WellKnownAtom::Clipboard).require(selection) {
            Ok(atom) => atom,
            Err(e) => return Err(e),
        };
        let utf8string = match SetupStep::ResolveAtom(WellKnownAtom::Utf8String).require(
            utf8string,
        ) {
            Ok(atom) => atom,
            Err(e) => return Err(e),
        };
        let property = match SetupStep::ResolveAtom(WellKnownAtom::TransferProperty).require(
            property,
        ) {
            Ok(atom) => atom,
            Err(e) => return Err(e),
        };
        let incr = match SetupStep::ResolveAtom(WellKnownAtom::Incr).require(incr) {
            Ok(atom) => atom,
            Err(e) => return Err(e),
        };
        Ok(ClipboardContext { window, selection, utf8string, property, incr })
    }

    /// The window that receives the transfer.
    #[verifier::when_used_as_spec(spec_window)]
    pub fn window(&self) -> (window: Window)
        ensures
            window == self.spec_window(),
            window != 0,
    {
        proof {
            use_type_invariant(self);
        }
        self.window
    }

    /// The selection that is read.
    #[verifier::when_used_as_spec(spec_selection)]
    pub fn selection(&self) -> (selection: Atom)
        ensures
            selection == self.spec_selection(),
            selection != 0,
    {
        proof {
            use_type_invariant(self);
        }
        self.selection
    }

    /// The UTF-8 text target.
    #[verifier::when_used_as_spec(spec_utf8string)]
    pub fn utf8string(&self) -> (utf8string: Atom)
        ensures
            utf8string == self.spec_utf8string(),
            utf8string != 0,
    {
        proof {
            use_type_invariant(self);
        }
        self.utf8string
    }

    /// The property on the window through which the data arrives.
    #[verifier::when_used_as_spec(spec_property)]
    pub fn property(&self) -> (property: Atom)
        ensures
            property == self.spec_property(),
            property != 0,
    {
        proof {
            use_type_invariant(self);
        }
        self.property
    }

    /// The type that marks an incremental transfer.
    #[verifier::when_used_as_spec(spec_incr)]
    pub fn incr(&self) -> (incr: Atom)
        ensures
            incr == self.spec_incr(),
            incr != 0,
    {
        proof {
            use_type_invariant(self);
        }
        self.incr
    }

    /// The target formats in the order in which they are tried.
    pub fn preferred_formats(&self) -> (formats: Vec<TargetFormat>)
        ensures
            formats@ == self.spec_preferred_formats(),
    {
        let mut formats: Vec<TargetFormat> = Vec::new();
        formats.push(self.utf8string);
        formats.push(XA_STRING);
        formats
    }
}

} // verus!
