//! The controller initialization sequence.
//!
//! Initialization runs once, before interrupts are enabled, in a fixed
//! order dictated by the peripheral: clear pending interrupt status; wait
//! for AHB-master idle, then soft-reset the core and wait for completion;
//! configure the global AHB and USB options; wait until the core reports
//! device mode; enable VBUS sensing; configure device speed and options;
//! unmask exactly the interrupt sources the engine handles (explicitly
//! not the receive-FIFO one — endpoint state is not ready yet, the
//! enumeration-done handler unmasks it); and finally clear soft
//! disconnect so the host can see the device.
//!
//! Each configuration phase is a verified function on the register
//! model; each hardware wait is run by the environment as a bounded
//! busy-wait over [`crate::transmit::wait_step`], failing explicitly
//! instead of hanging. The phase order itself is a verified successor
//! function on [`InitPhase`].

use vstd::prelude::*;

use crate::dispatch::{
    BIT_ENUMERATION_DONE, BIT_MODE_MISMATCH, BIT_OTG_EVENT, BIT_OUT_ENDPOINT, BIT_USB_RESET,
};
use crate::regs::{DeviceRegs, GlobalRegs};

verus! {

/// The interrupt-mask value initialization leaves behind: exactly the
/// sources the engine handles at start — mode-mismatch (bit 1), OTG
/// event (bit 2), bus reset (bit 12), enumeration-done (bit 13) and the
/// OUT-endpoint event (bit 19) that carries SETUP traffic. Explicitly
/// not receive-FIFO-non-empty (bit 4): endpoint state is not ready at
/// this stage. Not the IN-endpoint event (bit 18) either: the transmit
/// path unmasks it when a transfer is in flight.
pub const INIT_GINTMSK: u32 = 0x0008_3006;

/// The initial interrupt mask names exactly the five handled sources.
pub proof fn lemma_init_gintmsk_bits()
    ensures
        INIT_GINTMSK == (1u32 << BIT_MODE_MISMATCH) | (1u32 << BIT_OTG_EVENT) | (1u32
            << BIT_USB_RESET) | (1u32 << BIT_ENUMERATION_DONE) | (1u32 << BIT_OUT_ENDPOINT),
        INIT_GINTMSK & (1u32 << 4u32) == 0,
{
    assert(0x0008_3006u32 == (1u32 << 1u32) | (1u32 << 2u32) | (1u32 << 12u32) | (1u32 << 13u32)
        | (1u32 << 19u32)) by (bit_vector);
    assert(0x0008_3006u32 & (1u32 << 4u32) == 0) by (bit_vector);
}

/// The steps of the initialization sequence, in the order the peripheral
/// demands them.
#[derive(Clone, Copy, Debug, PartialEq, Eq, Structural)]
pub enum InitPhase {
    /// Clear any pending global interrupt status (write back the value
    /// read, per the write-one-to-clear convention).
    ClearPending,
    /// Power up the transceiver and deselect the alternate PHY options.
    PhySetup,
    /// Wait until the AHB master reports idle.
    AwaitAhbIdle,
    /// Assert the core soft reset.
    SoftReset,
    /// Wait until the core reports the soft reset complete.
    AwaitResetDone,
    /// Configure the global AHB and USB options.
    ConfigureCore,
    /// Wait until the core reports it has entered device mode.
    AwaitDeviceMode,
    /// Enable VBUS sensing and configure device speed and options.
    ConfigureDevice,
    /// Unmask exactly the interrupt sources the engine handles.
    UnmaskInterrupts,
    /// Clear soft disconnect: the host can now see the device.
    Connect,
    /// Initialization finished; interrupts may be enabled.
    Done,
}

/// The successor of each initialization phase: the one order in which
/// the peripheral accepts the sequence.
pub open spec fn next_phase_spec(p: InitPhase) -> InitPhase {
    match p {
        InitPhase::ClearPending => InitPhase::PhySetup,
        InitPhase::PhySetup => InitPhase::AwaitAhbIdle,
        InitPhase::AwaitAhbIdle => InitPhase::SoftReset,
        InitPhase::SoftReset => InitPhase::AwaitResetDone,
        InitPhase::AwaitResetDone => InitPhase::ConfigureCore,
        InitPhase::ConfigureCore => InitPhase::AwaitDeviceMode,
        InitPhase::AwaitDeviceMode => InitPhase::ConfigureDevice,
        InitPhase::ConfigureDevice => InitPhase::UnmaskInterrupts,
        InitPhase::UnmaskInterrupts => InitPhase::Connect,
        InitPhase::Connect => InitPhase::Done,
        InitPhase::Done => InitPhase::Done,
    }
}

/// Advances the initialization sequence by one phase.
pub fn next_phase(p: InitPhase) -> (r: InitPhase)
    ensures
        r == next_phase_spec(p),
{
    match p {
        InitPhase::ClearPending => InitPhase::PhySetup,
        InitPhase::PhySetup => InitPhase::AwaitAhbIdle,
        InitPhase::AwaitAhbIdle => InitPhase::SoftReset,
        InitPhase::SoftReset => InitPhase::AwaitResetDone,
        InitPhase::AwaitResetDone => InitPhase::ConfigureCore,
        InitPhase::ConfigureCore => InitPhase::AwaitDeviceMode,
        InitPhase::AwaitDeviceMode => InitPhase::ConfigureDevice,
        InitPhase::ConfigureDevice => InitPhase::UnmaskInterrupts,
        InitPhase::UnmaskInterrupts => InitPhase::Connect,
        InitPhase::Connect => InitPhase::Done,
        InitPhase::Done => InitPhase::Done,
    }
}

/// Powers up the transceiver and deselects the full-speed PHY, the
/// data-line-pulsing option and the ULPI full-speed/VBUS options: the
/// high-speed ULPI transceiver is left selected.
pub fn phy_setup(g: &mut GlobalRegs)
    ensures
        *final(g) == (GlobalRegs {
            gccfg_pwrdwn: false,
            gusbcfg_physel: false,
            gusbcfg_tsdps: false,
            gusbcfg_ulpifsls: false,
            gusbcfg_ulpievbusd: false,
            gusbcfg_ulpievbusi: false,
            ..*old(g)
        }),
{
    g.gccfg_pwrdwn = false;
    g.gusbcfg_physel = false;
    g.gusbcfg_tsdps = false;
    g.gusbcfg_ulpifsls = false;
    g.gusbcfg_ulpievbusd = false;
    g.gusbcfg_ulpievbusi = false;
}

/// Configures the global options once the core reset is complete:
/// global interrupt signaling on, transmit-FIFO-empty level set to
/// completely empty, OTG capabilities off, and the one turnaround time
/// valid for a high-speed ULPI PHY.
pub fn configure_core(g: &mut GlobalRegs)
    ensures
        *final(g) == (GlobalRegs {
            gahbcfg_gint: true,
            gahbcfg_ptxfelvl: true,
            gusbcfg_hnpcap: false,
            gusbcfg_srpcap: false,
            gusbcfg_trdt: 0x9,
            ..*old(g)
        }),
{
    g.gahbcfg_gint = true;
    g.gahbcfg_ptxfelvl = true;
    g.gusbcfg_hnpcap = false;
    g.gusbcfg_srpcap = false;
    g.gusbcfg_trdt = 0x9;
}

/// Enables VBUS sensing and configures the device for high speed once
/// the core reports device mode.
pub fn configure_device(g: &mut GlobalRegs, d: &mut DeviceRegs)
    ensures
        *final(g) == (GlobalRegs { gccfg_vbden: true, ..*old(g) }),
        *final(d) == (DeviceRegs { dcfg_dspd: 0, dcfg_nzlsohsk: false, ..*old(d) }),
{
    g.gccfg_vbden = true;
    d.dcfg_dspd = 0;
    d.dcfg_nzlsohsk = false;
}

/// Unmasks exactly the interrupt sources the engine handles at start;
/// the receive-FIFO source stays masked until enumeration is done.
pub fn unmask_engine_interrupts(g: &mut GlobalRegs)
    ensures
        *final(g) == (GlobalRegs { gintmsk: INIT_GINTMSK, ..*old(g) }),
{
    g.gintmsk = INIT_GINTMSK;
}

/// Clears the soft-disconnect bit: from here the host can see the
/// device and drive bus reset and enumeration.
pub fn connect(d: &mut DeviceRegs)
    ensures
        *final(d) == (DeviceRegs { dctl_sdis: false, ..*old(d) }),
{
    d.dctl_sdis = false;
}

} // verus!
