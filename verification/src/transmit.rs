//! The endpoint-0 transmit path: packing a payload into FIFO words and
//! the readiness decisions of the two hardware waits.
//!
//! A transmit programs the endpoint-0 transfer-size register with one
//! packet of the exact byte count, enables the endpoint and clears its
//! NAK, waits until the transmit FIFO has word space for the payload,
//! writes the words, waits until the transfer-size register drains to
//! zero, and finally unmasks the transmit-FIFO-empty and IN-endpoint
//! interrupts so a later handler can retire the stale FIFO-empty
//! notification. The waits are bounded: the environment polls the
//! readiness bit through [`WaitOutcome`] steps and fails explicitly
//! instead of hanging on an unresponsive peripheral.

use vstd::prelude::*;

verus! {

/// Endpoint-0 maximum packet size, in bytes. A payload must be strictly
/// shorter: multi-packet transfers are not implemented.
pub const MAX_PACKET_SIZE: usize = 64;

/// A prepared transmit: the exact byte count and the payload packed into
/// 32-bit FIFO words, to be written to the endpoint-0 FIFO data register
/// in order once the FIFO reports space.
pub struct TxPlan {
    pub byte_cnt: u8,
    pub words: Vec<u32>,
}

/// Byte `j` of a payload, zero once past its end (FIFO padding).
#[verifier::opaque]
pub open spec fn byte_or_pad(bytes: Seq<u8>, j: int) -> u8 {
    if 0 <= j < bytes.len() {
        bytes[j]
    } else {
        0
    }
}

/// FIFO word `i` of a payload: four consecutive bytes, little-endian,
/// zero-padded past the payload's end.
#[verifier::opaque]
pub open spec fn packed_word(bytes: Seq<u8>, i: int) -> u32 {
    (byte_or_pad(bytes, 4 * i) as u32) | ((byte_or_pad(bytes, 4 * i + 1) as u32) << 8u32) | ((
    byte_or_pad(bytes, 4 * i + 2) as u32) << 16u32) | ((byte_or_pad(bytes, 4 * i + 3) as u32)
        << 24u32)
}

/// A payload packed into FIFO words: `ceil(len / 4)` words, little-endian.
#[verifier::opaque]
pub open spec fn packed_words(bytes: Seq<u8>) -> Seq<u32> {
    Seq::new(((bytes.len() + 3) / 4) as nat, |i: int| packed_word(bytes, i))
}

/// Packs a payload into 32-bit FIFO words, little-endian, padding the
/// final word with zero bytes.
pub fn pack_words(bytes: &Vec<u8>) -> (r: Vec<u32>)
    requires
        bytes@.len() < MAX_PACKET_SIZE,
    ensures
        r@ == packed_words(bytes@),
{
    let n: usize = bytes.len();
    let word_cnt: usize = (n + 3) / 4;
    let mut out: Vec<u32> = Vec::new();
    let mut i: usize = 0;
    while i < word_cnt
        invariant
            i <= word_cnt,
            n == bytes@.len(),
            n < MAX_PACKET_SIZE,
            word_cnt == (n + 3) / 4,
            out@ =~= packed_words(bytes@).take(i as int),
        decreases word_cnt - i,
    {
        proof {
            reveal(byte_or_pad);
            reveal(packed_word);
            reveal(packed_words);
        }
        let base: usize = 4 * i;
        let b0: u32 = if base < n { bytes[base] as u32 } else { 0 };
        let b1: u32 = if base + 1 < n { bytes[base + 1] as u32 } else { 0 };
        let b2: u32 = if base + 2 < n { bytes[base + 2] as u32 } else { 0 };
        let b3: u32 = if base + 3 < n { bytes[base + 3] as u32 } else { 0 };
        let w: u32 = b0 | (b1 << 8) | (b2 << 16) | (b3 << 24);
        proof {
            let bb1: u32 = byte_or_pad(bytes@, 4 * i + 1) as u32;
            let bb2: u32 = byte_or_pad(bytes@, 4 * i + 2) as u32;
            let bb3: u32 = byte_or_pad(bytes@, 4 * i + 3) as u32;
            assert(bb1 < 0x100 && bb2 < 0x100 && bb3 < 0x100 ==> (bb1 << 8u32) == bb1 * 0x100 && (
            bb2 << 16u32) == bb2 * 0x10000 && (bb3 << 24u32) == bb3 * 0x1000000) by (bit_vector);
            assert(w == packed_word(bytes@, i as int));
        }
        out.push(w);
        i = i + 1;
    }
    proof {
        reveal(packed_words);
        assert(out@ =~= packed_words(bytes@));
    }
    out
}

/// One step of a bounded busy-wait on a hardware-readiness bit: proceed
/// when ready, retry with one attempt fewer while the budget lasts, and
/// fail explicitly once it is spent — an unresponsive peripheral must be
/// distinguishable from a slow one.
#[derive(Clone, Copy, Debug, PartialEq, Eq, Structural)]
pub enum WaitOutcome {
    Proceed,
    Retry(u32),
    TimedOut,
}

/// Decides one step of a bounded busy-wait.
pub fn wait_step(ready: bool, attempts_left: u32) -> (r: WaitOutcome)
    ensures
        ready ==> r == WaitOutcome::Proceed,
        !ready && attempts_left > 0 ==> r == WaitOutcome::Retry((attempts_left - 1) as u32),
        !ready && attempts_left == 0 ==> r == WaitOutcome::TimedOut,
{
    if ready {
        WaitOutcome::Proceed
    } else if attempts_left > 0 {
        WaitOutcome::Retry(attempts_left - 1)
    } else {
        WaitOutcome::TimedOut
    }
}

/// Whether the transmit FIFO reports enough free word space for the
/// payload: the readiness condition of the first transmit wait.
pub fn fifo_space_available(ineptfsav: u16, word_cnt: usize) -> (r: bool)
    ensures
        r == (ineptfsav as int >= word_cnt as int),
{
    ineptfsav as usize >= word_cnt
}

/// Whether the transfer-size register reports the transfer drained: the
/// readiness condition of the second transmit wait.
pub fn transfer_drained(xfrsiz_remaining: u32) -> (r: bool)
    ensures
        r == (xfrsiz_remaining == 0),
{
    xfrsiz_remaining == 0
}

} // verus!
