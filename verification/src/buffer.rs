//! Render buffers: byte buffers allocated on behalf of the engine, and the
//! typed views the mesh pipeline reads from them.

use vstd::prelude::*;

verus! {

/// What a buffer holds.
#[derive(Clone, Copy, Debug, PartialEq, Eq, Structural)]
pub enum BufferType {
    Index,
    Vertex,
}

/// No buffer flag set.
pub const BUFFER_FLAGS_NONE: u32 = 0;

/// The buffer is mapped once, at initialization, and never again.
pub const BUFFER_FLAGS_MAPPED_ONCE_AT_INITIALIZATION: u32 = 1;

/// Buffer allocation flags, a bit set over the constants above.
#[derive(Clone, Copy, Debug, PartialEq, Eq, Structural)]
pub struct BufferFlags {
    pub bits: u32,
}

/// A plain byte buffer.
#[derive(Debug)]
pub struct Buffer {
    pub data: Vec<u8>,
}

/// The 16-bit little-endian values stored in a byte sequence, two bytes
/// each; a trailing odd byte is ignored.
pub open spec fn u16s_of(bytes: Seq<u8>) -> Seq<u16> {
    Seq::new(
        bytes.len() / 2,
        |i: int| (bytes[2 * i] + 256 * bytes[2 * i + 1]) as u16,
    )
}

impl Buffer {
    /// A zero-filled buffer of the given length; the type and flags do not
    /// change what is allocated.
    pub fn new(buffer_type: BufferType, flags: BufferFlags, len_in_bytes: usize) -> (r: Buffer)
        ensures
            r.data@.len() == len_in_bytes,
            forall|i: int| 0 <= i < len_in_bytes ==> r.data@[i] == 0u8,
    {
        let mut data: Vec<u8> = Vec::new();
        let mut i: usize = 0;
        while i < len_in_bytes
            invariant
                0 <= i <= len_in_bytes,
                data@.len() == i,
                forall|j: int| 0 <= j < i ==> data@[j] == 0u8,
            decreases len_in_bytes - i,
        {
            data.push(0u8);
            i = i + 1;
        }
        Buffer { data }
    }

    /// Grants mutable access to the bytes; whatever the caller writes
    /// through the result is what the buffer then holds.
    pub fn map(&mut self) -> (r: &mut Vec<u8>)
        ensures
            *r == old(self).data,
            final(self).data == *final(r),
    {
        &mut self.data
    }

    /// Unmapping is a no-op for an in-memory buffer.
    pub fn unmap(&mut self)
        ensures
            *final(self) == *old(self),
    {
    }

    /// Reads the buffer as 16-bit little-endian values.
    pub fn as_u16s(&self) -> (r: Vec<u16>)
        ensures
            r@ == u16s_of(self.data@),
    {
        let n = self.data.len() / 2;
        proof {
            assert(2 * n <= self.data@.len());
        }
        let mut out: Vec<u16> = Vec::new();
        let mut i: usize = 0;
        let mut at: usize = 0;
        while i < n
            invariant
                0 <= i <= n,
                at == 2 * i,
                n == self.data@.len() / 2,
                2 * n <= self.data@.len(),
                self.data@.len() <= usize::MAX,
                out@.len() == i,
                forall|j: int| 0 <= j < i ==> out@[j] == u16s_of(self.data@)[j],
            decreases n - i,
        {
            let lo = self.data[at];
            let hi = self.data[at + 1];
            let v: u16 = lo as u16 + 256 * (hi as u16);
            out.push(v);
            i = i + 1;
            at = at + 2;
        }
        proof {
            assert(out@ =~= u16s_of(self.data@));
        }
        out
    }
}

} // verus!
