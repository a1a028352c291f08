//! What one read of a window property returns, and the buffer that the
//! values read are gathered in.

use vstd::prelude::*;
use crate::atoms::Atom;
use crate::error::RetrievalError;

verus! {

/// The number of bytes that one item of a property occupies in the memory
/// handed back by a read: 1, 2 and 8 for the format codes 8, 16 and 32.
/// Items of format 32 arrive in slots as wide as a native long, not in four
/// bytes. Any other format code has no width.
pub open spec fn spec_item_width(format: i32) -> Option<nat> {
    if format == 8 {
        Some(1nat)
    } else if format == 16 {
        Some(2nat)
    } else if format == 32 {
        Some(8nat)
    } else {
        None
    }
}

/// The number of bytes that `item_count` items of the given format occupy:
/// the count times the width of one item.
pub open spec fn spec_payload_len(format: i32, item_count: u64) -> Option<nat> {
    match spec_item_width(format) {
        Some(width) => Some(item_count as nat * width),
        None => None,
    }
}

/// The width in bytes of one item of the given format, if it is one of the
/// three formats that the protocol knows.
pub fn item_width(format: i32) -> (width: Option<usize>)
    ensures
        match width {
            Some(w) => spec_item_width(format) == Some(w as nat),
            None => spec_item_width(format) is None,
        },
{
    if format == 8 {
        Some(1)
    } else if format == 16 {
        Some(2)
    } else if format == 32 {
        Some(8)
    } else {
        None
    }
}

/// The number of bytes to take from the memory that a read handed back.
///
/// `None` when the format has no width, or when the product does not fit the
/// address space, in which case no such value can have been read.
pub fn payload_len(format: i32, item_count: u64) -> (len: Option<usize>)
    ensures
        match len {
            Some(n) => spec_payload_len(format, item_count) == Some(n as nat),
            None => match spec_payload_len(format, item_count) {
                Some(n) => n > usize::MAX,
                None => true,
            },
        },
{
    match item_width(format) {
        None => None,
        Some(width) => {
            let total: u128 = (item_count as u128) * (width as u128);
            if total <= usize::MAX as u128 {
                Some(total as usize)
            } else {
                None
            }
        },
    }
}

/// The result of one property read.
///
/// A read of length zero is a probe: it returns no items, and `bytes_after`
/// is then the size of the whole value. A read of that size returns the items.
#[derive(Debug, PartialEq, Eq)]
pub struct PropertyChunk {
    /// The type of the property's value; the null atom if there is none.
    pub type_id: Atom,
    /// The format code of the items: 8, 16 or 32.
    pub format: i32,
    /// The number of items returned.
    pub item_count: u64,
    /// The number of bytes of the value that lie behind what was returned.
    pub bytes_after: u64,
    /// The items returned, as the bytes they occupy.
    pub data: Vec<u8>,
}

impl Clone for PropertyChunk {
    /// A chunk with the same header and the same bytes.
    fn clone(&self) -> (copy: PropertyChunk)
        ensures
            copy.type_id == self.type_id,
            copy.format == self.format,
            copy.item_count == self.item_count,
            copy.bytes_after == self.bytes_after,
            copy.data@ == self.data@,
    {
        PropertyChunk {
            type_id: self.type_id,
            format: self.format,
            item_count: self.item_count,
            bytes_after: self.bytes_after,
            data: self.data.clone(),
        }
    }
}

impl PropertyChunk {
    /// The header and the data agree: the data holds exactly the bytes that
    /// the item count and the format call for.
    pub open spec fn well_formed(&self) -> bool {
        spec_payload_len(self.format, self.item_count) == Some(self.data@.len())
    }

    /// Whether the header and the data agree.
    pub fn is_well_formed(&self) -> (ok: bool)
        ensures
            ok == self.well_formed(),
    {
        let held: usize = self.data.len();
        match payload_len(self.format, self.item_count) {
            Some(n) => n == held,
            None => false,
        }
    }
}

/// The bytes gathered so far, in the order in which they arrived.
///
/// The buffer only grows: the one operation that changes it appends a whole
/// chunk behind what is there.
#[derive(Debug, PartialEq, Eq)]
pub struct ResultBuffer {
    bytes: Vec<u8>,
}

impl View for ResultBuffer {
    type V = Seq<u8>;

    closed spec fn view(&self) -> Seq<u8> {
        self.bytes@
    }
}

impl Clone for ResultBuffer {
    /// A buffer with the same bytes.
    fn clone(&self) -> (copy: ResultBuffer)
        ensures
            copy@ == self@,
    {
        ResultBuffer { bytes: self.bytes.clone() }
    }
}

impl ResultBuffer {
    /// An empty buffer.
    pub fn new() -> (buffer: ResultBuffer)
        ensures
            buffer@ == Seq::<u8>::empty(),
    {
        ResultBuffer { bytes: Vec::new() }
    }

    /// The number of bytes gathered.
    pub fn len(&self) -> (n: usize)
        ensures
            n == self@.len(),
    {
        self.bytes.len()
    }

    /// Appends the chunk's bytes, if its header and its data agree.
    ///
    /// A chunk whose data is not what its header calls for is refused as a
    /// `MalformedTransfer`, and the buffer is left as it was.
    pub fn append(&mut self, chunk: &PropertyChunk) -> (r: Result<(), RetrievalError>)
        ensures
            chunk.well_formed() ==> r is Ok && final(self)@ == old(self)@ + chunk.data@,
            !chunk.well_formed() ==> r == Err::<(), RetrievalError>(
                RetrievalError::MalformedTransfer,
            ) && final(self)@ == old(self)@,
    {
        if chunk.is_well_formed() {
            self.bytes.extend_from_slice(chunk.data.as_slice());
            Ok(())
        } else {
            Err(RetrievalError::MalformedTransfer)
        }
    }

    /// The bytes gathered.
    pub fn as_slice(&self) -> (bytes: &[u8])
        ensures
            bytes@ == self@,
    {
        self.bytes.as_slice()
    }

    /// Gives up the buffer for the bytes gathered.
    pub fn into_bytes(self) -> (bytes: Vec<u8>)
        ensures
            bytes@ == self@,
    {
        self.bytes
    }
}

} // verus!
