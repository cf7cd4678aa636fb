//! What holds of endpoint buffers and their allocator over several calls.

use vcell::VolatileCell;
use vstd::prelude::*;

use crate::drivers::usbd::constants::{EP_MEM_ADDR, EP_MEM_SIZE, EP_REGISTERS_SIZE};
use crate::drivers::usbd::endpoint_memory::{
    EP_BUFFER_ALIGN, EndpointBuffer, EndpointMemoryAllocator,
};
use crate::drivers::usbd::usb_ram;
use crate::drivers::usbd::usb_ram::RamByte;

verus! {

/// A history of successful allocations: the `i`-th takes the allocator from
/// `states[i]` to `states[i + 1]` and hands out `buffers[i]`.
pub open spec fn allocation_history(
    states: Seq<EndpointMemoryAllocator>,
    buffers: Seq<EndpointBuffer>,
) -> bool {
    &&& states.len() == buffers.len() + 1
    &&& states[0].wf()
    &&& forall|i: int|
        0 <= i < buffers.len() ==> states[i].allocates(
            (#[trigger] buffers[i]).size(),
            &buffers[i],
            &states[i + 1],
        )
        && buffers[i].wf()
}

/// Every allocated buffer starts at a multiple of the alignment, counted from
/// the start of the endpoint memory and as an address, lies behind the endpoint
/// registers and inside the endpoint memory, and leaves less than one alignment
/// unit unused in front of it. The allocator stays well-formed.
pub proof fn allocated_buffer_is_aligned_and_in_memory(
    before: EndpointMemoryAllocator,
    size: int,
    buffer: EndpointBuffer,
    after: EndpointMemoryAllocator,
)
    requires
        before.wf(),
        buffer.wf(),
        before.allocates(size, &buffer, &after),
    ensures
        buffer.start() % (EP_BUFFER_ALIGN as int) == 0,
        (EP_MEM_ADDR + buffer.start()) % (EP_BUFFER_ALIGN as int) == 0,
        EP_REGISTERS_SIZE <= before.next_free() <= buffer.start(),
        buffer.start() < before.next_free() + EP_BUFFER_ALIGN,
        buffer.end() <= EP_MEM_SIZE,
        after.wf(),
{
}

/// By every point of a history, each buffer handed out lies in front of the
/// free offset.
proof fn lemma_history_bounds(
    states: Seq<EndpointMemoryAllocator>,
    buffers: Seq<EndpointBuffer>,
    n: int,
)
    requires
        allocation_history(states, buffers),
        0 <= n <= buffers.len(),
    ensures
        states[n].wf(),
        forall|i: int|
            0 <= i < n ==> (#[trigger] buffers[i]).end() <= states[n].next_free(),
    decreases n,
{
    if n > 0 {
        lemma_history_bounds(states, buffers, n - 1);
        let last = buffers[n - 1];
        assert(states[n - 1].allocates(last.size(), &last, &states[n - 1 + 1]));
    }
}

/// Any two buffers that one allocator hands out are disjoint, whatever was
/// allocated between them; and all of them lie behind the endpoint registers.
pub proof fn allocated_buffers_are_disjoint(
    states: Seq<EndpointMemoryAllocator>,
    buffers: Seq<EndpointBuffer>,
    i: int,
    j: int,
    byte: int,
)
    requires
        allocation_history(states, buffers),
        0 <= i < j < buffers.len(),
    ensures
        buffers[i].disjoint(&buffers[j]),
        buffers[i].end() <= buffers[j].start(),
        EP_REGISTERS_SIZE <= buffers[i].start(),
        !(buffers[i].start() <= byte < buffers[i].start() + buffers[i].size()
            && buffers[j].start() <= byte < buffers[j].start() + buffers[j].size()),
{
    lemma_history_bounds(states, buffers, i);
    lemma_history_bounds(states, buffers, j);
    assert(buffers[i].wf() && buffers[j].wf());
}

/// Over a history the free offset never moves back: what did not fit once does
/// not fit later either.
pub proof fn free_offset_never_moves_back(
    states: Seq<EndpointMemoryAllocator>,
    buffers: Seq<EndpointBuffer>,
    i: int,
    j: int,
    size: int,
)
    requires
        allocation_history(states, buffers),
        0 <= i <= j <= buffers.len(),
    ensures
        states[i].next_free() <= states[j].next_free(),
        !states[i].fits(size) ==> !states[j].fits(size),
    decreases j - i,
{
    if i < j {
        free_offset_never_moves_back(states, buffers, i, j - 1, size);
        let last = buffers[j - 1];
        assert(states[j - 1].allocates(last.size(), &last, &states[j - 1 + 1]));
        assert(last.wf());
    }
}

/// A read gives back what was written before it, as far as buffer and both
/// slices reach, where the controller stores nothing else into the byte: be it
/// that it never does, or that the byte is read as the write left it.
pub proof fn read_returns_what_was_written(
    buffer: EndpointBuffer,
    before: Seq<RamByte>,
    written: Seq<RamByte>,
    after: Seq<RamByte>,
    data: Seq<u8>,
    buf: Seq<u8>,
    result: Seq<u8>,
    k: int,
)
    requires
        buffer.wf(),
        before.len() == EP_MEM_SIZE - buffer.start(),
        buffer.writes(before, written, data),
        buffer.reads(written, after, buf, result),
        0 <= k < data.len(),
        k < buf.len(),
        k < buffer.size(),
        before[k].undisturbed || after[k].value == written[k].value,
    ensures
        result[k] == data[k],
{
    assert(written[k].value == data[k]);
    assert(written[k].undisturbed ==> after[k] == written[k]);
}

/// A write to one buffer leaves every byte of a disjoint buffer as it was.
pub proof fn write_leaves_disjoint_buffer(
    buffer: EndpointBuffer,
    other: EndpointBuffer,
    memory: Seq<RamByte>,
    part: Seq<RamByte>,
    data: Seq<u8>,
)
    requires
        buffer.wf(),
        other.wf(),
        buffer.disjoint(&other),
        memory.len() == EP_MEM_SIZE,
        buffer.writes(memory.skip(buffer.start()), part, data),
    ensures
        buffer.in_memory(memory, part).subrange(other.start(), other.end()) == memory.subrange(
            other.start(),
            other.end(),
        ),
{
    assert(buffer.in_memory(memory, part).subrange(other.start(), other.end())
        =~= memory.subrange(other.start(), other.end()));
}

/// A buffer that an allocator handed out never reaches into the endpoint
/// registers: a write to it leaves them as they were.
pub proof fn write_leaves_endpoint_registers(
    allocator: EndpointMemoryAllocator,
    buffer: EndpointBuffer,
    allocator_after: EndpointMemoryAllocator,
    memory: Seq<RamByte>,
    part: Seq<RamByte>,
    data: Seq<u8>,
)
    requires
        allocator.wf(),
        buffer.wf(),
        allocator.allocates(buffer.size(), &buffer, &allocator_after),
        memory.len() == EP_MEM_SIZE,
        buffer.writes(memory.skip(buffer.start()), part, data),
    ensures
        buffer.in_memory(memory, part).take(EP_REGISTERS_SIZE as int) == memory.take(
            EP_REGISTERS_SIZE as int,
        ),
{
    assert(buffer.in_memory(memory, part).take(EP_REGISTERS_SIZE as int) =~= memory.take(
        EP_REGISTERS_SIZE as int,
    ));
}

/// A successful allocation hands out exactly as many bytes as were asked for, at
/// the first place from the free offset on that is a multiple of 64, and what
/// is free afterwards starts right behind them.
pub proof fn allocation_gives_what_was_asked_for(
    before: EndpointMemoryAllocator,
    size: int,
    buffer: EndpointBuffer,
    after: EndpointMemoryAllocator,
    start: int,
)
    requires
        before.allocates(size, &buffer, &after),
    ensures
        buffer.size() == size,
        buffer.start() % 64 == 0,
        before.next_free() <= buffer.start(),
        before.next_free() <= start && start % 64 == 0 ==> buffer.start() <= start,
        buffer.start() + size <= EP_MEM_SIZE,
        after.next_free() == buffer.start() + size,
{
}

/// A request is refused only for want of room: where any multiple of 64 from the
/// free offset on leaves room for it, it fits.
pub proof fn request_with_room_fits(
    allocator: EndpointMemoryAllocator,
    size: int,
    start: int,
)
    requires
        allocator.next_free() <= start,
        start % 64 == 0,
        start + size <= EP_MEM_SIZE,
    ensures
        allocator.fits(size),
{
}

/// What moves is all that the slice holds or all that the buffer holds, and no
/// more than either; of that, all but at most three bytes move as whole words.
pub proof fn transfer_is_what_both_hold(buffer: EndpointBuffer, len: nat)
    requires
        buffer.wf(),
    ensures
        0 <= buffer.transfer_len(len) <= len,
        buffer.transfer_len(len) <= buffer.size(),
        buffer.transfer_len(len) == len || buffer.transfer_len(len) == buffer.size(),
        0 <= buffer.transfer_len(len) - 4 * buffer.transfer_words(len) <= 3,
{
}

/// Words and bytes make up the memory behind the start of a buffer, parted for a
/// slice of `len` bytes, just where they reach to the end of the endpoint memory
/// and not one more whole word would fit both buffer and slice.
pub proof fn parted_where_no_further_word_fits(
    buffer: EndpointBuffer,
    words: nat,
    rest: nat,
    len: nat,
)
    requires
        buffer.wf(),
    ensures
        buffer.parted(words, rest, len) <==> {
            &&& buffer.start() + 4 * words + rest == EP_MEM_SIZE
            &&& 4 * words <= len
            &&& 4 * words <= buffer.size()
            &&& len < 4 * (words + 1) || buffer.size() < 4 * (words + 1)
        },
{
}

/// A word is the sum of its bytes, each with its weight: the first byte counts
/// least.
pub proof fn word_is_the_sum_of_its_bytes(word: u32)
    ensures
        usb_ram::byte_of_word(word, 0) + 0x100 * usb_ram::byte_of_word(word, 1) + 0x1_0000
            * usb_ram::byte_of_word(word, 2) + 0x100_0000 * usb_ram::byte_of_word(word, 3) == word,
{
    assert(word / 0x1_0000 == word / 0x100 / 0x100);
    assert(word / 0x100_0000 == word / 0x1_0000 / 0x100);
    assert(word == word / 0x100 * 0x100 + word % 0x100);
    assert(word / 0x100 == word / 0x1_0000 * 0x100 + word / 0x100 % 0x100);
    assert(word / 0x1_0000 == word / 0x100_0000 * 0x100 + word / 0x1_0000 % 0x100);
}

/// The bytes of a stretch of USB RAM are those of its cells, in order: four that
/// add up to each word, then one for each byte behind them.
pub proof fn ram_bytes_are_those_of_the_cells(
    words: Seq<VolatileCell<u32>>,
    rest: Seq<VolatileCell<u8>>,
    j: int,
)
    ensures
        usb_ram::ram_bytes(words, rest).len() == 4 * words.len() + rest.len(),
        ({
            let bytes = usb_ram::ram_bytes(words, rest);
            &&& 0 <= j < words.len() ==> {
                &&& bytes[4 * j].value + 0x100 * bytes[4 * j + 1].value + 0x1_0000 * bytes[4 * j
                    + 2].value + 0x100_0000 * bytes[4 * j + 3].value == usb_ram::last_word(words[j])
                &&& bytes[4 * j].undisturbed == usb_ram::word_undisturbed(words[j])
                &&& bytes[4 * j + 1].undisturbed == usb_ram::word_undisturbed(words[j])
                &&& bytes[4 * j + 2].undisturbed == usb_ram::word_undisturbed(words[j])
                &&& bytes[4 * j + 3].undisturbed == usb_ram::word_undisturbed(words[j])
            }
            &&& 0 <= j < rest.len() ==> {
                &&& bytes[4 * words.len() + j].value == usb_ram::last_byte(rest[j])
                &&& bytes[4 * words.len() + j].undisturbed == usb_ram::byte_undisturbed(rest[j])
            }
        }),
{
    if 0 <= j < words.len() {
        word_is_the_sum_of_its_bytes(usb_ram::last_word(words[j]));
        assert((4 * j + 1) / 4 == j && (4 * j + 2) / 4 == j && (4 * j + 3) / 4 == j);
    }
}

/// After a write each word moved is the sum of the four bytes of the slice that
/// belong there, the first of them counting least; each byte moved behind them
/// is the byte of the slice; and the bytes behind the transfer hold what they
/// held.
pub proof fn write_fills_the_cells(
    buffer: EndpointBuffer,
    words: Seq<VolatileCell<u32>>,
    rest: Seq<VolatileCell<u8>>,
    words_after: Seq<VolatileCell<u32>>,
    rest_after: Seq<VolatileCell<u8>>,
    data: Seq<u8>,
    j: int,
)
    requires
        buffer.wf(),
        buffer.parted(words.len(), rest.len(), data.len()),
        words_after.len() == words.len(),
        rest_after.len() == rest.len(),
        buffer.writes(
            usb_ram::ram_bytes(words, rest),
            usb_ram::ram_bytes(words_after, rest_after),
            data,
        ),
    ensures
        0 <= j < words.len() ==> usb_ram::last_word(words_after[j]) == data[4 * j] + 0x100 * data[4
            * j + 1] + 0x1_0000 * data[4 * j + 2] + 0x100_0000 * data[4 * j + 3],
        0 <= j < rest.len() ==> {
            let k = 4 * words.len() + j;
            usb_ram::last_byte(rest_after[j]) == if k < data.len() && k < buffer.size() {
                data[k]
            } else {
                usb_ram::last_byte(rest[j])
            }
        },
        0 <= j < words.len() ==> usb_ram::word_undisturbed(words_after[j])
            == usb_ram::word_undisturbed(words[j]),
        0 <= j < rest.len() ==> usb_ram::byte_undisturbed(rest_after[j])
            == usb_ram::byte_undisturbed(rest[j]),
{
    let before = usb_ram::ram_bytes(words, rest);
    let after = usb_ram::ram_bytes(words_after, rest_after);
    transfer_is_what_both_hold(buffer, data.len());
    ram_bytes_are_those_of_the_cells(words, rest, j);
    ram_bytes_are_those_of_the_cells(words_after, rest_after, j);
    if 0 <= j < words.len() {
        assert(after[4 * j].value == data[4 * j]);
        assert(after[4 * j + 1].value == data[4 * j + 1]);
        assert(after[4 * j + 2].value == data[4 * j + 2]);
        assert(after[4 * j + 3].value == data[4 * j + 3]);
    }
    if 0 <= j < rest.len() {
        let k = 4 * words.len() + j;
        assert(after[k].undisturbed == before[k].undisturbed);
    }
}

/// After a read each word loaded is the sum of the four bytes of the slice that
/// it filled, the first of them counting least; each byte loaded behind them is
/// the byte of the slice; and where the buffer ends, the slice keeps what it
/// held. Bytes that nothing else stores into hold what they held.
pub proof fn read_fills_the_slice(
    buffer: EndpointBuffer,
    words: Seq<VolatileCell<u32>>,
    rest: Seq<VolatileCell<u8>>,
    words_after: Seq<VolatileCell<u32>>,
    rest_after: Seq<VolatileCell<u8>>,
    buf: Seq<u8>,
    result: Seq<u8>,
    j: int,
)
    requires
        buffer.wf(),
        buffer.parted(words.len(), rest.len(), buf.len()),
        words_after.len() == words.len(),
        rest_after.len() == rest.len(),
        buffer.reads(
            usb_ram::ram_bytes(words, rest),
            usb_ram::ram_bytes(words_after, rest_after),
            buf,
            result,
        ),
    ensures
        result.len() == buf.len(),
        0 <= j < words.len() ==> result[4 * j] + 0x100 * result[4 * j + 1] + 0x1_0000 * result[4 * j
            + 2] + 0x100_0000 * result[4 * j + 3] == usb_ram::last_word(words_after[j]),
        4 * words.len() <= j < buf.len() && j < buffer.size() ==> result[j] == usb_ram::last_byte(
            rest_after[j - 4 * words.len()],
        ),
        buffer.size() <= j < buf.len() ==> result[j] == buf[j],
        0 <= j < words.len() && usb_ram::word_undisturbed(words[j]) ==> usb_ram::last_word(
            words_after[j],
        ) == usb_ram::last_word(words[j]),
        0 <= j < rest.len() && usb_ram::byte_undisturbed(rest[j]) ==> usb_ram::last_byte(
            rest_after[j],
        ) == usb_ram::last_byte(rest[j]),
{
    let before = usb_ram::ram_bytes(words, rest);
    let after = usb_ram::ram_bytes(words_after, rest_after);
    transfer_is_what_both_hold(buffer, buf.len());
    ram_bytes_are_those_of_the_cells(words, rest, j);
    ram_bytes_are_those_of_the_cells(words_after, rest_after, j);
    if 0 <= j < words.len() {
        assert(result[4 * j] == after[4 * j].value);
        assert(result[4 * j + 1] == after[4 * j + 1].value);
        assert(result[4 * j + 2] == after[4 * j + 2].value);
        assert(result[4 * j + 3] == after[4 * j + 3].value);
        if usb_ram::word_undisturbed(words[j]) {
            assert(after[4 * j] == before[4 * j]);
            assert(after[4 * j + 1] == before[4 * j + 1]);
            assert(after[4 * j + 2] == before[4 * j + 2]);
            assert(after[4 * j + 3] == before[4 * j + 3]);
        }
    }
    if 0 <= j < rest.len() && usb_ram::byte_undisturbed(rest[j]) {
        assert(after[4 * words.len() + j] == before[4 * words.len() + j]);
    }
    if 4 * words.len() <= j < buf.len() && j < buffer.size() {
        ram_bytes_are_those_of_the_cells(words_after, rest_after, j - 4 * words.len());
        assert(result[j] == after[j].value);
    }
}

} // verus!
