//! Fatal conditions of the engine.
//!
//! These correspond to unrecoverable hardware-state violations: the
//! configuration or a hardware assumption was broken and no safe
//! continuation is known. The environment that drives the engine halts
//! on any of them (the bare-metal equivalent is a breakpoint trap); the
//! library reports them as values so that every path that raises one is
//! stated in a contract.

use vstd::prelude::*;

verus! {

/// An unrecoverable hardware-state violation.
#[derive(Clone, Copy, Debug, PartialEq, Eq, Structural)]
pub enum Fatal {
    /// The controller raised the mode-mismatch interrupt: a register of
    /// the wrong mode (host vs. device) was accessed.
    ModeMismatch,
    /// A receive-FIFO entry carried a `(status, data-PID, byte-count)`
    /// triple outside the two recognized control-transfer shapes.
    UnrecognizedFragment,
    /// The hardware reported more outstanding SETUP packets than the
    /// endpoint was armed for.
    SetupCountOutOfRange,
    /// Enumeration finished at a speed other than the configured one.
    UnexpectedEnumSpeed,
    /// A transmit payload of one max-packet-size or more was requested;
    /// multi-packet transfers are not implemented.
    OversizePayload,
}

} // verus!
