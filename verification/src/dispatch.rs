//! Interrupt dispatch: from a status snapshot and the enabled mask to the
//! ordered list of handlers to invoke, and to the write-one-to-clear value
//! for the status register.
//!
//! The global interrupt-status register is a 32-bit snapshot; each bit
//! index that has a handler and is both asserted and enabled gets its
//! handler invoked exactly once, in ascending bit order. Afterwards the
//! firmware writes back only the bits that are both in the hardware's
//! defined read/write-clear mask and in the enabled mask, so that bits it
//! did not process stay pending.

use vstd::prelude::*;

verus! {

/// Bit index of the mode-mismatch interrupt source.
pub const BIT_MODE_MISMATCH: u32 = 1;

/// Bit index of the OTG event interrupt source.
pub const BIT_OTG_EVENT: u32 = 2;

/// Bit index of the receive-FIFO-non-empty interrupt source.
pub const BIT_RX_FIFO_NON_EMPTY: u32 = 4;

/// Bit index of the USB bus reset interrupt source.
pub const BIT_USB_RESET: u32 = 12;

/// Bit index of the enumeration-done interrupt source.
pub const BIT_ENUMERATION_DONE: u32 = 13;

/// Bit index of the IN-endpoint event interrupt source.
pub const BIT_IN_ENDPOINT: u32 = 18;

/// Bit index of the OUT-endpoint event interrupt source.
pub const BIT_OUT_ENDPOINT: u32 = 19;

/// The status bits the hardware defines as read/write-clear: writing one
/// to such a bit clears it; the others follow other conventions and must
/// not be written back blindly.
pub const GINT_RW_CLEAR_MASK: u32 = 0b11110000011100001111110000001010;

/// Single-bit mask of the receive-FIFO-non-empty source (bit 4).
pub const MASK_RX_FIFO_NON_EMPTY: u32 = 0x10;

/// Single-bit mask of the IN-endpoint event source (bit 18).
pub const MASK_IN_ENDPOINT: u32 = 0x40000;

/// The single-bit masks name the same bits as the corresponding bit
/// indices.
pub proof fn lemma_masks_match_bits()
    ensures
        MASK_RX_FIFO_NON_EMPTY == 1u32 << BIT_RX_FIFO_NON_EMPTY,
        MASK_IN_ENDPOINT == 1u32 << BIT_IN_ENDPOINT,
{
    assert(0x10u32 == 1u32 << 4u32) by (bit_vector);
    assert(0x40000u32 == 1u32 << 18u32) by (bit_vector);
}

/// The interrupt sources this engine handles, one per status bit that has
/// a handler.
#[derive(Clone, Copy, Debug, PartialEq, Eq, Structural)]
pub enum HandlerId {
    ModeMismatch,
    OtgEvent,
    RxFifoNonEmpty,
    UsbReset,
    EnumerationDone,
    InEndpoint,
    OutEndpoint,
}

/// The status bit each handler is registered at.
pub open spec fn handler_bit(h: HandlerId) -> u32 {
    match h {
        HandlerId::ModeMismatch => BIT_MODE_MISMATCH,
        HandlerId::OtgEvent => BIT_OTG_EVENT,
        HandlerId::RxFifoNonEmpty => BIT_RX_FIFO_NON_EMPTY,
        HandlerId::UsbReset => BIT_USB_RESET,
        HandlerId::EnumerationDone => BIT_ENUMERATION_DONE,
        HandlerId::InEndpoint => BIT_IN_ENDPOINT,
        HandlerId::OutEndpoint => BIT_OUT_ENDPOINT,
    }
}

/// The handler registered at a status bit, if any.
pub open spec fn handler_at_spec(bit: u32) -> Option<HandlerId> {
    if bit == BIT_MODE_MISMATCH {
        Some(HandlerId::ModeMismatch)
    } else if bit == BIT_OTG_EVENT {
        Some(HandlerId::OtgEvent)
    } else if bit == BIT_RX_FIFO_NON_EMPTY {
        Some(HandlerId::RxFifoNonEmpty)
    } else if bit == BIT_USB_RESET {
        Some(HandlerId::UsbReset)
    } else if bit == BIT_ENUMERATION_DONE {
        Some(HandlerId::EnumerationDone)
    } else if bit == BIT_IN_ENDPOINT {
        Some(HandlerId::InEndpoint)
    } else if bit == BIT_OUT_ENDPOINT {
        Some(HandlerId::OutEndpoint)
    } else {
        None
    }
}

/// The handler registered at a status bit, if any.
pub fn handler_at(bit: u32) -> (r: Option<HandlerId>)
    ensures
        r == handler_at_spec(bit),
{
    if bit == BIT_MODE_MISMATCH {
        Some(HandlerId::ModeMismatch)
    } else if bit == BIT_OTG_EVENT {
        Some(HandlerId::OtgEvent)
    } else if bit == BIT_RX_FIFO_NON_EMPTY {
        Some(HandlerId::RxFifoNonEmpty)
    } else if bit == BIT_USB_RESET {
        Some(HandlerId::UsbReset)
    } else if bit == BIT_ENUMERATION_DONE {
        Some(HandlerId::EnumerationDone)
    } else if bit == BIT_IN_ENDPOINT {
        Some(HandlerId::InEndpoint)
    } else if bit == BIT_OUT_ENDPOINT {
        Some(HandlerId::OutEndpoint)
    } else {
        None
    }
}

/// Whether status bit `i` is set in `x`.
pub open spec fn bit_set(x: u32, i: u32) -> bool
    recommends
        i < 32,
{
    x & (1u32 << i) != 0
}

/// The dispatch plan for the asserted-and-enabled set `active`, from bit
/// `i` upward: each bit at or above `i` that is set and has a handler
/// contributes that handler, in ascending bit order.
pub open spec fn plan_from(active: u32, i: int) -> Seq<HandlerId>
    decreases 32 - i,
{
    if i < 0 || i >= 32 {
        Seq::empty()
    } else {
        match handler_at_spec(i as u32) {
            Some(h) => {
                if bit_set(active, i as u32) {
                    seq![h] + plan_from(active, i + 1)
                } else {
                    plan_from(active, i + 1)
                }
            },
            None => plan_from(active, i + 1),
        }
    }
}

/// The full dispatch plan for an interrupt-status snapshot `gintsts` and
/// enabled mask `gintmsk`.
pub open spec fn plan_spec(gintsts: u32, gintmsk: u32) -> Seq<HandlerId> {
    plan_from(gintsts & gintmsk, 0)
}

/// Computes the dispatch plan: the handlers whose bit is set in
/// `gintsts & gintmsk`, in ascending bit order.
pub fn dispatch_plan(gintsts: u32, gintmsk: u32) -> (r: Vec<HandlerId>)
    ensures
        r@ == plan_spec(gintsts, gintmsk),
{
    let active: u32 = gintsts & gintmsk;
    let mut out: Vec<HandlerId> = Vec::new();
    let mut i: u32 = 0;
    while i < 32
        invariant
            i <= 32,
            out@ + plan_from(active, i as int) == plan_from(active, 0),
        decreases 32 - i,
    {
        proof {
            assert(plan_from(active, i as int) == (match handler_at_spec(i) {
                Some(h) => {
                    if bit_set(active, i) {
                        seq![h] + plan_from(active, i as int + 1)
                    } else {
                        plan_from(active, i as int + 1)
                    }
                },
                None => plan_from(active, i as int + 1),
            }));
        }
        match handler_at(i) {
            Some(h) => {
                if active & (1u32 << i) != 0 {
                    out.push(h);
                }
            },
            None => {},
        }
        proof {
            assert(out@ + plan_from(active, i as int + 1) =~= plan_from(active, 0));
        }
        i = i + 1;
    }
    proof {
        assert(out@ =~= plan_from(active, 0));
    }
    out
}

/// The value to write back to the status register after dispatch: only
/// the bits that are both read/write-clear by the hardware's convention
/// and enabled in the mask, so unprocessed bits are not cleared.
pub open spec fn clear_value_spec(gintsts: u32, gintmsk: u32) -> u32 {
    gintsts & (gintmsk & GINT_RW_CLEAR_MASK)
}

/// Computes the write-one-to-clear value for the status register.
pub fn clear_value(gintsts: u32, gintmsk: u32) -> (r: u32)
    ensures
        r == clear_value_spec(gintsts, gintmsk),
{
    gintsts & (gintmsk & GINT_RW_CLEAR_MASK)
}

/// Every handler in the plan from bit `i` up sits at a set bit at or
/// above `i`; every set bit at or above `i` with a handler contributes
/// it; and the plan is strictly ascending in bit order.
proof fn lemma_plan_from_exact(active: u32, i: int)
    requires
        0 <= i <= 32,
    ensures
        forall|k: int|
            0 <= k < plan_from(active, i).len() ==> i <= handler_bit(
                #[trigger] plan_from(active, i)[k],
            ) < 32 && bit_set(active, handler_bit(plan_from(active, i)[k])),
        forall|h: HandlerId|
            (i <= handler_bit(h) && bit_set(active, handler_bit(h))) <==> plan_from(
                active,
                i,
            ).contains(h),
        forall|k1: int, k2: int|
            0 <= k1 < k2 < plan_from(active, i).len() ==> handler_bit(
                #[trigger] plan_from(active, i)[k1],
            ) < handler_bit(#[trigger] plan_from(active, i)[k2]),
    decreases 32 - i,
{
    if i == 32 {
        assert forall|h: HandlerId| !(i <= handler_bit(h)) by {
            match h {
                HandlerId::ModeMismatch => {},
                HandlerId::OtgEvent => {},
                HandlerId::RxFifoNonEmpty => {},
                HandlerId::UsbReset => {},
                HandlerId::EnumerationDone => {},
                HandlerId::InEndpoint => {},
                HandlerId::OutEndpoint => {},
            }
        }
    } else {
        lemma_plan_from_exact(active, i + 1);
        let tail = plan_from(active, i + 1);
        assert forall|h: HandlerId| handler_bit(h) == i implies handler_at_spec(i as u32) == Some(
            h,
        ) by {
            match h {
                HandlerId::ModeMismatch => {},
                HandlerId::OtgEvent => {},
                HandlerId::RxFifoNonEmpty => {},
                HandlerId::UsbReset => {},
                HandlerId::EnumerationDone => {},
                HandlerId::InEndpoint => {},
                HandlerId::OutEndpoint => {},
            }
        }
        match handler_at_spec(i as u32) {
            Some(h0) => {
                assert(handler_bit(h0) == i);
                if bit_set(active, i as u32) {
                    let p = seq![h0] + tail;
                    assert(plan_from(active, i) == p);
                    assert forall|h: HandlerId| p.contains(h) implies (i <= handler_bit(h)
                        && bit_set(active, handler_bit(h))) by {
                        let k: int = choose|k: int| 0 <= k < p.len() && p[k] == h;
                        if k == 0 {
                        } else {
                            assert(tail[k - 1] == h);
                            assert(tail.contains(h));
                        }
                    }
                    assert forall|h: HandlerId|
                        (i <= handler_bit(h) && bit_set(active, handler_bit(h))) implies p.contains(
                        h,
                    ) by {
                        if handler_bit(h) == i {
                            assert(h == h0);
                            assert(p[0] == h);
                        } else {
                            assert(tail.contains(h));
                            let k: int = choose|k: int| 0 <= k < tail.len() && tail[k] == h;
                            assert(p[k + 1] == h);
                        }
                    }
                } else {
                    assert(plan_from(active, i) == tail);
                    assert forall|h: HandlerId|
                        (i <= handler_bit(h) && bit_set(active, handler_bit(h))) implies (i + 1
                        <= handler_bit(h)) by {
                        if handler_bit(h) == i {
                            assert(!bit_set(active, i as u32));
                        }
                    }
                }
            },
            None => {
                assert(plan_from(active, i) == tail);
                assert forall|h: HandlerId| i <= handler_bit(h) implies i + 1 <= handler_bit(
                    h,
                ) by {
                    if handler_bit(h) == i {
                        assert(handler_at_spec(i as u32) == Some(h));
                    }
                }
            },
        }
    }
}

/// The dispatcher's exactness law: for any interrupt-status snapshot and
/// enabled mask, the plan contains a handler if and only if its bit is
/// set in the asserted-and-enabled set, each handler at most once, and
/// the plan is in strictly ascending bit order.
pub proof fn lemma_dispatch_exact(gintsts: u32, gintmsk: u32)
    ensures
        forall|h: HandlerId|
            plan_spec(gintsts, gintmsk).contains(h) <==> bit_set(gintsts & gintmsk, handler_bit(h)),
        forall|k1: int, k2: int|
            0 <= k1 < k2 < plan_spec(gintsts, gintmsk).len() ==> handler_bit(
                #[trigger] plan_spec(gintsts, gintmsk)[k1],
            ) < handler_bit(#[trigger] plan_spec(gintsts, gintmsk)[k2]),
        forall|k1: int, k2: int|
            0 <= k1 < plan_spec(gintsts, gintmsk).len() && 0 <= k2 < plan_spec(
                gintsts,
                gintmsk,
            ).len() && k1 != k2 ==> #[trigger] plan_spec(gintsts, gintmsk)[k1]
                != #[trigger] plan_spec(gintsts, gintmsk)[k2],
{
    lemma_plan_from_exact(gintsts & gintmsk, 0);
    assert forall|h: HandlerId| 0 <= handler_bit(h) by {
        match h {
            HandlerId::ModeMismatch => {},
            HandlerId::OtgEvent => {},
            HandlerId::RxFifoNonEmpty => {},
            HandlerId::UsbReset => {},
            HandlerId::EnumerationDone => {},
            HandlerId::InEndpoint => {},
            HandlerId::OutEndpoint => {},
        }
    }
    let p = plan_spec(gintsts, gintmsk);
    assert forall|k1: int, k2: int|
        0 <= k1 < p.len() && 0 <= k2 < p.len() && k1 != k2 implies #[trigger] p[k1]
        != #[trigger] p[k2] by {
        if k1 < k2 {
            assert(handler_bit(p[k1]) < handler_bit(p[k2]));
        } else {
            assert(handler_bit(p[k2]) < handler_bit(p[k1]));
        }
    }
}

} // verus!
