//! Endpoint buffers in USB RAM, and the allocator that hands them out.

use vcell::VolatileCell;
use vstd::prelude::*;

use crate::drivers::usbd::constants::{EP_MEM_ADDR, EP_MEM_SIZE, EP_REGISTERS_SIZE, UsbAccessType};
use crate::drivers::usbd::usb_ram;
use crate::drivers::usbd::usb_ram::RamByte;

verus! {

/// What can go wrong when endpoint memory is allocated.
#[derive(Clone, Copy, Debug, PartialEq, Eq, Structural)]
pub enum UsbError {
    /// The endpoints together ask for more memory than there is.
    EndpointMemoryOverflow,
}

/// A contiguous piece of the endpoint memory.
///
/// It says where the piece lies; the memory itself is handed to
/// [`read`](EndpointBuffer::read) and [`write`](EndpointBuffer::write).
pub struct EndpointBuffer {
    offset: usize,
    size: usize,
}

impl EndpointBuffer {
    /// Offset of the first byte from the start of the endpoint memory.
    pub closed spec fn start(&self) -> int {
        self.offset as int
    }

    /// Number of bytes.
    pub closed spec fn size(&self) -> int {
        self.size as int
    }

    /// Offset just past the last byte.
    pub open spec fn end(&self) -> int {
        self.start() + self.size()
    }

    /// The buffer lies inside the endpoint memory.
    #[verifier::type_invariant]
    pub open spec fn wf(&self) -> bool {
        &&& 0 <= self.start()
        &&& 0 <= self.size()
        &&& self.end() <= EP_MEM_SIZE
    }

    /// No byte belongs to both buffers.
    pub open spec fn disjoint(&self, other: &EndpointBuffer) -> bool {
        self.end() <= other.start() || other.end() <= self.start()
    }

    /// How many bytes move between the buffer and a slice of `len` bytes: as
    /// many as both hold.
    pub open spec fn transfer_len(&self, len: nat) -> int {
        if len <= self.size() {
            len as int
        } else {
            self.size()
        }
    }

    /// How many of them move as whole words; the bytes behind those move one
    /// by one.
    pub open spec fn transfer_words(&self, len: nat) -> int {
        self.transfer_len(len) / 4
    }

    /// A read that met the endpoint memory from the start of the buffer on as
    /// `before`, left it as `after`, and filled a slice that held `buf` with
    /// `result`.
    ///
    /// The slice starts with what was loaded from the buffer, in order, and
    /// keeps the bytes for which the buffer has none. Only the bytes that were
    /// loaded can have changed, and those only where the controller stores
    /// into them.
    pub open spec fn reads(
        &self,
        before: Seq<RamByte>,
        after: Seq<RamByte>,
        buf: Seq<u8>,
        result: Seq<u8>,
    ) -> bool {
        &&& after.len() == before.len()
        &&& result.len() == buf.len()
        &&& forall|k: int|
            0 <= k < buf.len() ==> #[trigger] result[k] == if k < self.transfer_len(buf.len()) {
                after[k].value
            } else {
                buf[k]
            }
        &&& forall|k: int|
            0 <= k < before.len() && (self.transfer_len(buf.len()) <= k || before[k].undisturbed)
                ==> #[trigger] after[k] == before[k]
        &&& forall|k: int|
            0 <= k < before.len() ==> (#[trigger] after[k]).undisturbed == before[k].undisturbed
    }

    /// A write of `buf` that met the endpoint memory from the start of the
    /// buffer on as `before` and left it as `after`.
    ///
    /// The buffer starts with the bytes of `buf`, in order, as far as they
    /// fit. No other byte is touched.
    pub open spec fn writes(
        &self,
        before: Seq<RamByte>,
        after: Seq<RamByte>,
        buf: Seq<u8>,
    ) -> bool {
        &&& after.len() == before.len()
        &&& forall|k: int|
            0 <= k < before.len() ==> #[trigger] after[k] == if k < self.transfer_len(buf.len()) {
                RamByte { value: buf[k], undisturbed: before[k].undisturbed }
            } else {
                before[k]
            }
    }

    /// The whole endpoint memory, `memory` up to the start of the buffer and
    /// `part` from there on.
    pub open spec fn in_memory(&self, memory: Seq<RamByte>, part: Seq<RamByte>) -> Seq<RamByte> {
        memory.take(self.start()) + part
    }

    /// Whether `words` and `rest` words and bytes make up the endpoint memory
    /// from the start of the buffer to its end, and are parted as a transfer
    /// to or from a slice of `len` bytes asks for.
    pub open spec fn parted(&self, words: nat, rest: nat, len: nat) -> bool {
        &&& words == self.transfer_words(len)
        &&& 4 * words + rest == EP_MEM_SIZE - self.start()
    }

    /// The buffer of `size` bytes that starts `offset` bytes into the endpoint
    /// memory.
    pub fn new(offset: usize, size: usize) -> (buffer: Self)
        requires
            offset + size <= EP_MEM_SIZE,
        ensures
            buffer.start() == offset,
            buffer.size() == size,
            buffer.wf(),
    {
        EndpointBuffer { offset, size }
    }

    /// How many whole words a transfer to or from a slice of `len` bytes moves.
    pub fn word_count(&self, len: usize) -> (words: usize)
        ensures
            words == self.transfer_words(len as nat),
            4 * words <= len,
            4 * words <= self.size(),
            len < 4 * words + 4 || self.size() < 4 * words + 4,
            self.wf(),
    {
        proof {
            use_type_invariant(self);
        }
        if len <= self.size {
            len / 4
        } else {
            self.size / 4
        }
    }

    /// Copies out of USB RAM a word at a time, and what is left over a byte at
    /// a time: fills `buf` from the start of the buffer, with as many bytes as
    /// both hold. Nothing is stored into the RAM.
    ///
    /// `words` and `rest` are the endpoint memory from the start of the buffer
    /// to its end: as many words as are moved whole, and the bytes behind them.
    pub fn read(
        &self,
        words: &mut [VolatileCell<u32>],
        rest: &mut [VolatileCell<UsbAccessType>],
        buf: &mut [u8],
    )
        requires
            self.parted(old(words)@.len(), old(rest)@.len(), old(buf)@.len()),
        ensures
            final(words)@.len() == old(words)@.len(),
            final(rest)@.len() == old(rest)@.len(),
            self.reads(
                usb_ram::ram_bytes(old(words)@, old(rest)@),
                usb_ram::ram_bytes(final(words)@, final(rest)@),
                old(buf)@,
                final(buf)@,
            ),
            forall|j: int|
                0 <= j < old(words)@.len() && usb_ram::word_undisturbed(old(words)@[j])
                    ==> #[trigger] final(words)@[j] == old(words)@[j],
            forall|j: int|
                0 <= j < old(rest)@.len() && (usb_ram::byte_undisturbed(old(rest)@[j]) || 4
                    * old(words)@.len() + j >= self.transfer_len(old(buf)@.len()))
                    ==> #[trigger] final(rest)@[j] == old(rest)@[j],
            final(buf)@.len() == old(buf)@.len(),
            forall|j: int|
                0 <= j < old(words)@.len() ==> usb_ram::last_word(#[trigger] final(words)@[j])
                    == final(buf)@[4 * j] + 0x100 * final(buf)@[4 * j + 1] 
                    + 0x1_0000 * final(buf)@[4 * j + 2] + 0x100_0000 * final(buf)@[4 * j + 3],
            forall|k: int|
                4 * old(words)@.len() <= k < old(buf)@.len() && k < self.size()
                    ==> #[trigger] final(buf)@[k] == usb_ram::last_byte(
                    final(rest)@[k - 4 * old(words)@.len()],
                ),
            forall|k: int|
                self.size() <= k < old(buf)@.len() ==> #[trigger] final(buf)@[k] == old(buf)@[k],
    {
        proof {
            use_type_invariant(self);
        }
        let count: usize = if buf.len() <= self.size { buf.len() } else { self.size };
        let whole: usize = words.len();
        let mut i: usize = 0;
        while i < whole
            invariant
                i <= whole,
                whole == words@.len() == old(words)@.len(),
                4 * whole <= count <= buf@.len(),
                buf@.len() == old(buf)@.len(),
                forall|k: int|
                    0 <= k < 4 * i ==> #[trigger] buf@[k] == usb_ram::byte_of_word(
                        usb_ram::last_word(words@[k / 4]),
                        k % 4,
                    ),
                forall|k: int| 4 * i <= k < buf@.len() ==> #[trigger] buf@[k] == old(buf)@[k],
                forall|j: int|
                    0 <= j < whole && (i <= j || usb_ram::word_undisturbed(old(words)@[j]))
                        ==> #[trigger] words@[j] == old(words)@[j],
                forall|j: int|
                    0 <= j < whole ==> usb_ram::word_undisturbed(#[trigger] words@[j])
                        == usb_ram::word_undisturbed(old(words)@[j]),
            decreases whole - i,
        {
            let bytes: [u8; 4] = usb_ram::split_word(usb_ram::load_word(&mut words[i]));
            buf[4 * i] = bytes[0];
            buf[4 * i + 1] = bytes[1];
            buf[4 * i + 2] = bytes[2];
            buf[4 * i + 3] = bytes[3];
            i = i + 1;
        }
        let tail: usize = count - 4 * whole;
        let mut i: usize = 0;
        while i < tail
            invariant
                i <= tail,
                tail == count - 4 * whole,
                tail <= rest@.len(),
                whole == words@.len() == old(words)@.len(),
                rest@.len() == old(rest)@.len(),
                4 * whole <= count <= buf@.len(),
                buf@.len() == old(buf)@.len(),
                forall|k: int|
                    0 <= k < 4 * whole ==> #[trigger] buf@[k] == usb_ram::byte_of_word(
                        usb_ram::last_word(words@[k / 4]),
                        k % 4,
                    ),
                forall|k: int|
                    4 * whole <= k < 4 * whole + i ==> #[trigger] buf@[k] == usb_ram::last_byte(
                        rest@[k - 4 * whole],
                    ),
                forall|k: int|
                    4 * whole + i <= k < buf@.len() ==> #[trigger] buf@[k] == old(buf)@[k],
                forall|j: int|
                    0 <= j < rest@.len() && (i <= j || usb_ram::byte_undisturbed(old(rest)@[j]))
                        ==> #[trigger] rest@[j] == old(rest)@[j],
                forall|j: int|
                    0 <= j < rest@.len() ==> usb_ram::byte_undisturbed(#[trigger] rest@[j])
                        == usb_ram::byte_undisturbed(old(rest)@[j]),
            decreases tail - i,
        {
            buf[4 * whole + i] = usb_ram::load_byte(&mut rest[i]);
            i = i + 1;
        }
    }

    /// Copies into USB RAM a word at a time, and what is left over a byte at a
    /// time: stores `buf` from the start of the buffer on, as many bytes as
    /// both hold. No cell behind them is accessed.
    ///
    /// `words` and `rest` are as for [`read`](EndpointBuffer::read).
    pub fn write(
        &self,
        words: &mut [VolatileCell<u32>],
        rest: &mut [VolatileCell<UsbAccessType>],
        buf: &[u8],
    )
        requires
            self.parted(old(words)@.len(), old(rest)@.len(), buf@.len()),
        ensures
            final(words)@.len() == old(words)@.len(),
            final(rest)@.len() == old(rest)@.len(),
            self.writes(
                usb_ram::ram_bytes(old(words)@, old(rest)@),
                usb_ram::ram_bytes(final(words)@, final(rest)@),
                buf@,
            ),
            forall|j: int|
                0 <= j < old(rest)@.len() && 4 * old(words)@.len() + j >= self.transfer_len(
                    buf@.len(),
                ) ==> #[trigger] final(rest)@[j] == old(rest)@[j],
            forall|j: int|
                0 <= j < old(words)@.len() ==> usb_ram::last_word(#[trigger] final(words)@[j])
                    == buf@[4 * j] + 0x100 * buf@[4 * j + 1] + 0x1_0000 * buf@[4 * j + 2]
                    + 0x100_0000 * buf@[4 * j + 3],
            forall|k: int|
                4 * old(words)@.len() <= k < buf@.len() && k < self.size() ==> usb_ram::last_byte(
                    final(rest)@[k - 4 * old(words)@.len()],
                ) == #[trigger] buf@[k],
    {
        proof {
            use_type_invariant(self);
        }
        let count: usize = if buf.len() <= self.size { buf.len() } else { self.size };
        let whole: usize = words.len();
        let mut i: usize = 0;
        while i < whole
            invariant
                i <= whole,
                whole == words@.len() == old(words)@.len(),
                4 * whole <= count <= buf@.len(),
                forall|k: int|
                    0 <= k < 4 * i ==> #[trigger] buf@[k] == usb_ram::byte_of_word(
                        usb_ram::last_word(words@[k / 4]),
                        k % 4,
                    ),
                forall|j: int|
                    0 <= j < whole ==> usb_ram::word_undisturbed(#[trigger] words@[j])
                        == usb_ram::word_undisturbed(old(words)@[j]),
            decreases whole - i,
        {
            let word: u32 = usb_ram::join_word(
                buf[4 * i],
                buf[4 * i + 1],
                buf[4 * i + 2],
                buf[4 * i + 3],
            );
            usb_ram::store_word(&mut words[i], word);
            i = i + 1;
        }
        let tail: usize = count - 4 * whole;
        let mut i: usize = 0;
        while i < tail
            invariant
                i <= tail,
                tail == count - 4 * whole,
                tail <= rest@.len(),
                rest@.len() == old(rest)@.len(),
                4 * whole <= count <= buf@.len(),
                forall|j: int|
                    0 <= j < i ==> usb_ram::last_byte(#[trigger] rest@[j]) == buf@[4 * whole + j],
                forall|j: int| i <= j < rest@.len() ==> #[trigger] rest@[j] == old(rest)@[j],
                forall|j: int|
                    0 <= j < rest@.len() ==> usb_ram::byte_undisturbed(#[trigger] rest@[j])
                        == usb_ram::byte_undisturbed(old(rest)@[j]),
            decreases tail - i,
        {
            usb_ram::store_byte(&mut rest[i], buf[4 * whole + i]);
            i = i + 1;
        }
    }

    /// Offset of the buffer from the start of the endpoint memory.
    pub fn offset(&self) -> (offset: usize)
        ensures
            offset == self.start(),
            self.wf(),
    {
        proof {
            use_type_invariant(self);
        }
        self.offset
    }

    /// Address of the buffer.
    pub fn addr(&self) -> (addr: u32)
        ensures
            addr == EP_MEM_ADDR + self.start(),
            self.wf(),
    {
        proof {
            use_type_invariant(self);
        }
        (EP_MEM_ADDR + self.offset) as u32
    }

    /// Number of bytes that the buffer holds.
    pub fn capacity(&self) -> (capacity: usize)
        ensures
            capacity == self.size(),
            self.wf(),
    {
        proof {
            use_type_invariant(self);
        }
        self.size
    }

    /// Whether the buffer holds no bytes at all.
    pub fn is_empty(&self) -> (empty: bool)
        ensures
            empty == (self.size() == 0),
            self.wf(),
    {
        proof {
            use_type_invariant(self);
        }
        self.size == 0
    }
}

/// What buffers are aligned to, in bytes.
pub const EP_BUFFER_ALIGN: usize = 64;

/// The first offset from `offset` on that is a multiple of the alignment.
pub open spec fn align_up(offset: int) -> int {
    (offset + EP_BUFFER_ALIGN - 1) / EP_BUFFER_ALIGN as int * EP_BUFFER_ALIGN
}

/// Hands out pieces of the endpoint memory, one after the other.
///
/// This is a bump allocator: nothing is ever given back.
pub struct EndpointMemoryAllocator {
    next_free_offset: usize,
}

impl EndpointMemoryAllocator {
    /// Everything from this offset on is still free.
    pub closed spec fn next_free(&self) -> int {
        self.next_free_offset as int
    }

    /// What was handed out lies between the endpoint registers and the end of
    /// the endpoint memory.
    #[verifier::type_invariant]
    pub open spec fn wf(&self) -> bool {
        EP_REGISTERS_SIZE <= self.next_free() <= EP_MEM_SIZE
    }

    /// Where the next buffer starts.
    pub open spec fn next_start(&self) -> int {
        align_up(self.next_free())
    }

    /// Whether a buffer of `size` bytes still fits.
    pub open spec fn fits(&self, size: int) -> bool {
        self.next_start() + size <= EP_MEM_SIZE
    }

    /// Allocating `size` bytes from `self` hands out `buffer` and leaves
    /// `after`: the buffer starts at the first free aligned offset, and what
    /// follows it is free.
    pub open spec fn allocates(
        &self,
        size: int,
        buffer: &EndpointBuffer,
        after: &EndpointMemoryAllocator,
    ) -> bool {
        &&& self.fits(size)
        &&& buffer.start() == self.next_start()
        &&& buffer.size() == size
        &&& after.next_free() == buffer.end()
    }

    /// Everything but the endpoint registers, which are kept at the start, is
    /// free.
    pub fn new() -> (allocator: Self)
        ensures
            allocator.next_free() == EP_REGISTERS_SIZE,
            allocator.wf(),
    {
        EndpointMemoryAllocator { next_free_offset: EP_REGISTERS_SIZE }
    }

    /// Hands out the next `size` bytes, from an aligned offset on.
    pub fn allocate_buffer(&mut self, size: usize) -> (result: Result<EndpointBuffer, UsbError>)
        ensures
            match result {
                Ok(buffer) => {
                    &&& old(self).allocates(size as int, &buffer, final(self))
                    &&& buffer.wf()
                },
                Err(error) => {
                    &&& error == UsbError::EndpointMemoryOverflow
                    &&& !old(self).fits(size as int)
                    &&& *final(self) == *old(self)
                },
            },
            result matches Ok(buffer) ==> {
                &&& size == buffer.size()
                &&& buffer.start() % 64 == 0
                &&& old(self).next_free() <= buffer.start() < old(self).next_free() + 64
                &&& buffer.start() + size <= EP_MEM_SIZE
                &&& final(self).next_free() == buffer.start() + size
            },
            result is Err ==> forall|start: int|
                old(self).next_free() <= start && #[trigger] (start % 64) == 0 ==> EP_MEM_SIZE
                    < start + size,
            final(self).wf(),
    {
        proof {
            use_type_invariant(&*self);
        }
        let next_free_addr: usize = EP_MEM_ADDR + self.next_free_offset;
        let padded: usize = next_free_addr + EP_BUFFER_ALIGN - 1;

        // buffers have to be 64 byte aligned
        let addr: usize = padded & !(EP_BUFFER_ALIGN - 1);
        assert(padded & !63usize == padded / 64 * 64) by (bit_vector);

        let offset: usize = addr - EP_MEM_ADDR;
        // `offset + size` need not fit in a `usize`
        if size > EP_MEM_SIZE - offset {
            return Err(UsbError::EndpointMemoryOverflow);
        }
        self.next_free_offset = offset + size;
        Ok(EndpointBuffer::new(offset, size))
    }
}

impl Default for EndpointMemoryAllocator {
    /// The same as [`EndpointMemoryAllocator::new`].
    fn default() -> (allocator: Self)
        ensures
            allocator.next_free() == EP_REGISTERS_SIZE,
            allocator.wf(),
    {
        EndpointMemoryAllocator::new()
    }
}

} // verus!
