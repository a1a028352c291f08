//! Retrieval of a display server's selection (the clipboard) as a verified
//! state machine.
//!
//! A selection is read by asking its owner to convert it to a target format
//! and to put the result into a property of a window of the requestor. The
//! owner answers with an event; the data is then read from the property, in
//! one piece or, when it is large, in pieces that the owner writes one after
//! another as the requestor deletes each.
//!
//! The library decides; the caller performs. A [`SelectionRetriever`] is fed
//! the replies of the display connection one at a time and answers each with
//! the requests to issue next, until the payload is complete or the
//! retrieval has failed. Nothing here talks to a display server: the caller
//! owns the connection and carries requests and replies across.
//!
//! ```text
//! let (mut retriever, mut requests) = context.retriever();
//! loop {
//!     let mut reply = None;
//!     for request in &requests {
//!         reply = connection.perform(request);
//!     }
//!     match reply {
//!         Some(reply) => requests = retriever.step(&reply),
//!         None => break retriever.finish_text(),
//!     }
//! }
//! ```
//!
//! [`fetch`] and [`ClipboardContext::get_contents`] do the same with the
//! replies of a recorded exchange in place of a live connection.
//!
//! The modules, from the leaves up:
//!
//! - [`atoms`], [`error`], [`protocol`]: the vocabulary.
//! - [`chunk`]: what a property read returns, and the buffer for the payload.
//! - [`context`]: the window and the atoms of a retrieval.
//! - [`transfer`]: the exchange for one target format.
//! - [`retriever`]: the fallback from one target format to the next.
//! - [`text`]: the payload as text.
//! - [`transcript`]: the shapes that an exchange takes, and what is proved
//!   of the retrieval for each of them.

pub mod atoms;
pub mod chunk;
pub mod context;
pub mod error;
pub mod protocol;
pub mod retriever;
pub mod text;
pub mod transcript;
pub mod transfer;

pub use atoms::{Atom, TargetFormat, WellKnownAtom, Window, NULL_ATOM, XA_STRING};
pub use chunk::{item_width, payload_len, PropertyChunk, ResultBuffer};
pub use context::{ClipboardContext, SetupStep};
pub use error::RetrievalError;
pub use protocol::{Effect, EventRecord, Reply, PROPERTY_NEW_VALUE};
pub use retriever::{fetch, SelectionRetriever};
pub use transfer::{Awaiting, Transfer, TransferState};
