//! Volatile access to USB RAM, one word or one byte at a time.
//!
//! The USB controller stores into the RAM on its own, so what a cell holds can
//! change between two accesses of the processor. The names below speak of the
//! processor's side alone.

use vcell::VolatileCell;
use vstd::prelude::*;

use crate::drivers::usbd::constants::UsbAccessType;

verus! {

/// Declares `vcell::VolatileCell`, of which Verus sees nothing inside.
#[verifier::external_type_specification]
#[verifier::external_body]
#[verifier::reject_recursive_types(T)]
pub struct ExVolatileCell<T>(VolatileCell<T>);

/// The value that the processor last loaded from the cell or stored into it.
/// Of a cell that was not accessed yet it is the value that the cell came with.
pub uninterp spec fn last_byte(cell: VolatileCell<u8>) -> u8;

/// Whether nothing but the processor stores into the cell.
pub uninterp spec fn byte_undisturbed(cell: VolatileCell<u8>) -> bool;

/// As [`last_byte`], of a cell that is a word wide.
pub uninterp spec fn last_word(cell: VolatileCell<u32>) -> u32;

/// As [`byte_undisturbed`], of a cell that is a word wide.
pub uninterp spec fn word_undisturbed(cell: VolatileCell<u32>) -> bool;

/// Calls `VolatileCell::get`, which reads the contained value.
///
/// The value returned is then the one last loaded. It is the value that was
/// there before, and the cell is as it was, where nothing else stores into the
/// cell. What the controller stores, and when, is left unsaid.
#[verifier::external_body]
pub(crate) fn load_byte(cell: &mut VolatileCell<UsbAccessType>) -> (value: UsbAccessType)
    ensures
        value == last_byte(*final(cell)),
        byte_undisturbed(*old(cell)) ==> *final(cell) == *old(cell),
        byte_undisturbed(*final(cell)) == byte_undisturbed(*old(cell)),
{
    cell.get()
}

/// Calls `VolatileCell::set`, which writes the contained value.
///
/// The value given is then the one last stored. Who else stores into the cell
/// stays the same.
#[verifier::external_body]
pub(crate) fn store_byte(cell: &mut VolatileCell<UsbAccessType>, value: UsbAccessType)
    ensures
        last_byte(*final(cell)) == value,
        byte_undisturbed(*final(cell)) == byte_undisturbed(*old(cell)),
{
    cell.set(value)
}

/// Calls `VolatileCell::get` on a cell that is a word wide, of which it claims
/// what [`load_byte`] does: the word is read by one access.
#[verifier::external_body]
pub(crate) fn load_word(cell: &mut VolatileCell<u32>) -> (value: u32)
    ensures
        value == last_word(*final(cell)),
        word_undisturbed(*old(cell)) ==> *final(cell) == *old(cell),
        word_undisturbed(*final(cell)) == word_undisturbed(*old(cell)),
{
    cell.get()
}

/// Calls `VolatileCell::set` on a cell that is a word wide, of which it claims
/// what [`store_byte`] does: the word is written by one access.
#[verifier::external_body]
pub(crate) fn store_word(cell: &mut VolatileCell<u32>, value: u32)
    ensures
        last_word(*final(cell)) == value,
        word_undisturbed(*final(cell)) == word_undisturbed(*old(cell)),
{
    cell.set(value)
}

/// One byte of USB RAM: what the processor last loaded from it or stored into
/// it, and whether nothing else stores into it.
pub struct RamByte {
    pub value: u8,
    pub undisturbed: bool,
}

/// The `k`-th byte of a word. The processor is little-endian.
pub open spec fn byte_of_word(word: u32, k: int) -> u8 {
    if k == 0 {
        (word % 0x100) as u8
    } else if k == 1 {
        (word / 0x100 % 0x100) as u8
    } else if k == 2 {
        (word / 0x1_0000 % 0x100) as u8
    } else {
        (word / 0x100_0000) as u8
    }
}

/// The bytes of a stretch of USB RAM that is accessed as `words`, and from
/// there on as `rest`, byte by byte.
pub open spec fn ram_bytes(
    words: Seq<VolatileCell<u32>>,
    rest: Seq<VolatileCell<u8>>,
) -> Seq<RamByte> {
    Seq::new(
        4 * words.len() + rest.len(),
        |i: int|
            if i < 4 * words.len() {
                RamByte {
                    value: byte_of_word(last_word(words[i / 4]), i % 4),
                    undisturbed: word_undisturbed(words[i / 4]),
                }
            } else {
                RamByte {
                    value: last_byte(rest[i - 4 * words.len()]),
                    undisturbed: byte_undisturbed(rest[i - 4 * words.len()]),
                }
            },
    )
}

/// The bytes of a word.
pub(crate) fn split_word(word: u32) -> (bytes: [u8; 4])
    ensures
        forall|k: int| 0 <= k < 4 ==> #[trigger] bytes@[k] == byte_of_word(word, k),
        word == bytes@[0] + 0x100 * bytes@[1] + 0x1_0000 * bytes@[2] + 0x100_0000 * bytes@[3],
{
    assert(word / 0x1_0000 == word / 0x100 / 0x100);
    assert(word / 0x100_0000 == word / 0x1_0000 / 0x100);
    [
        (word % 0x100) as u8,
        (word / 0x100 % 0x100) as u8,
        (word / 0x1_0000 % 0x100) as u8,
        (word / 0x100_0000) as u8,
    ]
}

/// The word made of four bytes.
pub(crate) fn join_word(b0: u8, b1: u8, b2: u8, b3: u8) -> (word: u32)
    ensures
        byte_of_word(word, 0) == b0,
        byte_of_word(word, 1) == b1,
        byte_of_word(word, 2) == b2,
        byte_of_word(word, 3) == b3,
        word == b0 + 0x100 * b1 + 0x1_0000 * b2 + 0x100_0000 * b3,
{
    proof {
        let word = b0 + 0x100 * b1 + 0x1_0000 * b2 + 0x100_0000 * b3;
        assert(word % 0x100 == b0);
        assert(word / 0x100 % 0x100 == b1);
        assert(word / 0x1_0000 % 0x100 == b2);
        assert(word / 0x100_0000 == b3);
    }
    b0 as u32 + 0x100 * (b1 as u32) + 0x1_0000 * (b2 as u32) + 0x100_0000 * (b3 as u32)
}

} // verus!
