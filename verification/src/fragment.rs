//! Receive-FIFO entry classification and SETUP decoding.
//!
//! The receive FIFO delivers each pending entry as a status word (endpoint,
//! byte count, status code, data-PID, frame number) followed by the data
//! packed into 32-bit words, little-endian. An entry is part of a control
//! transfer in exactly two shapes: a SETUP data packet (status `0x6`,
//! data-PID `0x0`, 8 bytes) or a setup-complete marker (status `0x4`,
//! data-PID `0x0`, no bytes). Anything else is a fatal condition.

use vstd::prelude::*;

use crate::error::Fatal;

verus! {

/// One classified entry of the receive FIFO.
#[derive(Clone, Copy, Debug, PartialEq, Eq, Structural)]
pub enum ReceivedFragment {
    /// An 8-byte SETUP packet, decoded little-endian: byte 0 is the
    /// request type, byte 1 the request, bytes 2-3 the value, bytes 4-5
    /// the index, bytes 6-7 the length (low byte first throughout).
    SetupData {
        request_type: u8,
        request: u8,
        value: u16,
        index: u16,
        length: u16,
    },
    /// The marker the hardware enqueues once the SETUP phase of a control
    /// transfer is done.
    SetupComplete,
}

/// A complete logical SETUP transaction: a `SetupData` fragment whose
/// matching `SetupComplete` has been observed.
#[derive(Clone, Copy, Debug, PartialEq, Eq, Structural)]
pub struct ControlRequest {
    pub request_type: u8,
    pub request: u8,
    pub value: u16,
    pub index: u16,
    pub length: u16,
}

/// Byte `j` (0-based, little-endian) of a FIFO data word.
pub open spec fn word_byte(w: u32, j: u32) -> u8 {
    ((w >> (8u32 * j)) & 0xff) as u8
}

/// The first `count` bytes carried by a sequence of FIFO data words,
/// little-endian within each word; padding beyond `count` is discarded.
pub open spec fn fifo_bytes(words: Seq<u32>, count: int) -> Seq<u8> {
    Seq::new(count as nat, |i: int| word_byte(words[i / 4], (i % 4) as u32))
}

/// The 16-bit value encoded by two wire bytes, low byte first.
pub open spec fn le16(lo: u8, hi: u8) -> u16 {
    (((hi as u16) << 8u16) | (lo as u16)) as u16
}

/// How a `(status, data-PID, byte-count)` triple with its data bytes is
/// classified: exactly two shapes are recognized, all else is fatal.
pub open spec fn classify_spec(status: u8, dpid: u8, count: int, data: Seq<u8>) -> Result<
    ReceivedFragment,
    Fatal,
> {
    if status == 0x6 && dpid == 0x0 && count == 8 {
        Ok(
            ReceivedFragment::SetupData {
                request_type: data[0],
                request: data[1],
                value: le16(data[2], data[3]),
                index: le16(data[4], data[5]),
                length: le16(data[6], data[7]),
            },
        )
    } else if status == 0x4 && dpid == 0x0 && count == 0 {
        Ok(ReceivedFragment::SetupComplete)
    } else {
        Err(Fatal::UnrecognizedFragment)
    }
}

/// Classifies one receive-FIFO entry.
///
/// `data` holds exactly the entry's `count` bytes, already extracted from
/// the FIFO words (see [`extract_bytes`]).
pub fn classify_fragment(status: u8, dpid: u8, count: usize, data: &Vec<u8>) -> (r: Result<
    ReceivedFragment,
    Fatal,
>)
    requires
        data@.len() == count,
    ensures
        r == classify_spec(status, dpid, count as int, data@),
{
    if status == 0x6 && dpid == 0x0 && count == 8 {
        Ok(
            ReceivedFragment::SetupData {
                request_type: data[0],
                request: data[1],
                value: ((data[3] as u16) << 8u16) | (data[2] as u16),
                index: ((data[5] as u16) << 8u16) | (data[4] as u16),
                length: ((data[7] as u16) << 8u16) | (data[6] as u16),
            },
        )
    } else if status == 0x4 && dpid == 0x0 && count == 0 {
        Ok(ReceivedFragment::SetupComplete)
    } else {
        Err(Fatal::UnrecognizedFragment)
    }
}

/// A classification outside the two recognized `(status, data-PID,
/// byte-count)` triples yields the fatal path and never a fragment, and
/// the two recognized triples never yield the fatal path.
pub proof fn lemma_unrecognized_is_fatal(status: u8, dpid: u8, count: int, data: Seq<u8>)
    ensures
        classify_spec(status, dpid, count, data) is Err <==> !((status == 0x6 && dpid == 0x0
            && count == 8) || (status == 0x4 && dpid == 0x0 && count == 0)),
        classify_spec(status, dpid, count, data) is Err ==> classify_spec(
            status,
            dpid,
            count,
            data,
        ) == Result::<ReceivedFragment, Fatal>::Err(Fatal::UnrecognizedFragment),
{
}

/// Extracts exactly `count` bytes from the popped FIFO data words,
/// little-endian within each word, discarding the padding bytes of the
/// final word.
pub fn extract_bytes(words: &Vec<u32>, count: usize) -> (r: Vec<u8>)
    requires
        count < 0x800,
        words@.len() == (count + 3) / 4,
    ensures
        r@ == fifo_bytes(words@, count as int),
{
    let mut out: Vec<u8> = Vec::new();
    let mut i: usize = 0;
    while i < count
        invariant
            i <= count,
            count < 0x800,
            words@.len() == (count + 3) / 4,
            out@ =~= fifo_bytes(words@, count as int).take(i as int),
        decreases count - i,
    {
        let w: u32 = words[i / 4];
        let j: u32 = (i % 4) as u32;
        proof {
            assert(((w >> (8u32 * j)) & 0xff) < 256) by (bit_vector);
        }
        let b: u8 = ((w >> (8 * j)) & 0xff) as u8;
        out.push(b);
        i = i + 1;
    }
    proof {
        assert(out@ =~= fifo_bytes(words@, count as int));
    }
    out
}

/// Decodes a `SetupData` fragment into the control request it carries.
pub open spec fn decode_spec(f: ReceivedFragment) -> ControlRequest
    recommends
        f is SetupData,
{
    match f {
        ReceivedFragment::SetupData { request_type, request, value, index, length } => {
            ControlRequest { request_type, request, value, index, length }
        },
        ReceivedFragment::SetupComplete => { ControlRequest::arbitrary_value() },
    }
}

/// Decodes a complete `SetupData` fragment.
pub fn decode(f: &ReceivedFragment) -> (r: ControlRequest)
    requires
        *f is SetupData,
    ensures
        r == decode_spec(*f),
{
    match f {
        ReceivedFragment::SetupData { request_type, request, value, index, length } => {
            ControlRequest {
                request_type: *request_type,
                request: *request,
                value: *value,
                index: *index,
                length: *length,
            }
        },
        ReceivedFragment::SetupComplete => {
            // Unreachable under the precondition.
            ControlRequest { request_type: 0, request: 0, value: 0, index: 0, length: 0 }
        },
    }
}

impl ControlRequest {
    /// An arbitrary placeholder used only to totalize [`decode_spec`].
    pub open spec fn arbitrary_value() -> ControlRequest {
        ControlRequest { request_type: 0, request: 0, value: 0, index: 0, length: 0 }
    }
}

} // verus!
