//! Interrupt-driven control-transfer engine for a USB high-speed
//! device-mode controller.
//!
//! The library holds the protocol and register-sequencing logic of the
//! driver: classification of receive-FIFO entries, reassembly of SETUP
//! transactions from tagged fragments, the control-transfer state machine,
//! the device-descriptor encoder, the endpoint-0 transmit path, interrupt
//! dispatch, and the initialization sequence.
//!
//! The hardware itself is an external collaborator. Firmware-owned
//! configuration registers are modelled as plain values ([`regs`]);
//! hardware-written status registers (interrupt status, FIFO status,
//! FIFO data) enter the library as arguments of the handlers, and the
//! values the firmware must write back come out as results. The thin
//! layer that touches the memory-mapped registers performs those reads
//! and writes and loops on the bounded-wait decisions; every decision it
//! takes is computed and verified here.

use vstd::prelude::*;

pub mod controller;
pub mod descriptor;
pub mod dispatch;
pub mod error;
pub mod fragment;
pub mod init;
pub mod queue;
pub mod regs;
pub mod transmit;

verus! {

} // verus!
