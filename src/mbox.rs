//! Framing of the words that pass through the VideoCore mailbox FIFO.
//!
//! A word carries a 16-byte aligned payload address in its high 28 bits and
//! a channel number in its low four bits.
use vstd::prelude::*;

verus! {

/// Offset of the `READ` register in the mailbox aperture.
pub const READ: u32 = 0x00;

/// Offset of the `STATUS` register in the mailbox aperture.
pub const STATUS: u32 = 0x18;

/// Offset of the `WRITE` register in the mailbox aperture.
pub const WRITE: u32 = 0x20;

/// The low bits of a mailbox word that carry the channel.
pub const CHANNEL_MASK: u32 = 0xF;

/// `STATUS` bit: nothing to read.
pub const STATUS_EMPTY: u32 = 0x4000_0000;

/// `STATUS` bit: no room to write.
pub const STATUS_FULL: u32 = 0x8000_0000;

/// The channel of property-tag traffic to the VideoCore.
pub const PROPERTY_TAGS_VC: u32 = 8;

/// The word that carries `data` on `channel`.
pub open spec fn frame_word(channel: u32, data: u32) -> u32 {
    (data & !0xFu32) | (channel & 0xFu32)
}

/// The channel that a word carries.
pub open spec fn channel_of(word: u32) -> u32 {
    word & 0xFu32
}

/// The payload address that a word carries.
pub open spec fn payload_of(word: u32) -> u32 {
    word & !0xFu32
}

/// Whether a `STATUS` value says that the write FIFO is full.
pub open spec fn is_full(status: u32) -> bool {
    status & STATUS_FULL != 0
}

/// Whether a `STATUS` value says that the read FIFO is empty.
pub open spec fn is_empty(status: u32) -> bool {
    status & STATUS_EMPTY != 0
}

/// What a read on `channel` yields for a word loaded from `READ`.
pub open spec fn read_result(channel: u32, word: u32) -> Option<u32> {
    if channel_of(word) == channel {
        Some(payload_of(word))
    } else {
        None
    }
}

/// The word that carries `data` on `channel`: the channel in the low four
/// bits, the high 28 bits of `data` above them.
pub fn frame(channel: u32, data: u32) -> (r: u32)
    ensures
        r == frame_word(channel, data),
{
    (data & !CHANNEL_MASK) | (channel & CHANNEL_MASK)
}

/// One round of the write loop, given the `STATUS` value just loaded.
///
/// `None` while the FIFO is full: load `STATUS` again. Otherwise the word
/// to store to `WRITE`, which ends the write.
pub fn write_msg(channel: u32, data: u32, status: u32) -> (r: Option<u32>)
    ensures
        r == (if is_full(status) {
            None::<u32>
        } else {
            Some(frame_word(channel, data))
        }),
{
    if status & STATUS_FULL != 0 {
        None
    } else {
        Some(frame(channel, data))
    }
}

/// Whether the `STATUS` value just loaded says that there is nothing to
/// read; a read then yields `None` without loading `READ`.
pub fn mailbox_empty(status: u32) -> (r: bool)
    ensures
        r == is_empty(status),
{
    status & STATUS_EMPTY != 0
}

/// The outcome of a read on `channel`, given the word loaded from `READ`:
/// its payload address where it was sent on `channel`, else `None` (the
/// word belonged to another channel and is dropped).
pub fn read_msg(channel: u32, word: u32) -> (r: Option<u32>)
    ensures
        r == read_result(channel, word),
{
    let ch = word & CHANNEL_MASK;
    let data = word & !CHANNEL_MASK;
    if ch == channel {
        Some(data)
    } else {
        None
    }
}

/// Framing is a bijection between (channel, aligned address) pairs and
/// words: the word for channel `c` and a 16-byte aligned address `a` is
/// `a | c`, from which the channel and the address come back unchanged;
/// and any word whose low nibble is `c` yields, on a read of `c`, the word
/// with its low nibble cleared.
pub proof fn lemma_framing(c: u32, a: u32, w: u32)
    requires
        c <= 15,
        a & 0xFu32 == 0,
    ensures
        frame_word(c, a) == a | c,
        channel_of(frame_word(c, a)) == c,
        payload_of(frame_word(c, a)) == a,
        read_result(c, frame_word(c, a)) == Some(a),
        w & 0xFu32 == c ==> read_result(c, w) == Some(w & !0xFu32),
{
    assert(frame_word(c, a) == a | c) by (bit_vector)
        requires
            c <= 15,
            a & 0xFu32 == 0,
    ;
    assert((a | c) & 0xFu32 == c && (a | c) & !0xFu32 == a) by (bit_vector)
        requires
            c <= 15,
            a & 0xFu32 == 0,
    ;
}

} // verus!
