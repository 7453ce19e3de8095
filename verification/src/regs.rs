//! Model of the firmware-owned controller registers, and parsing of the
//! hardware-packed receive-FIFO status word.
//!
//! The controller exposes two register blocks, global and device. The
//! fields the firmware configures are modelled here as plain values, one
//! field per named bit field of the hardware interface; the thin layer
//! that owns the memory-mapped blocks mirrors every change of this model
//! into the real registers. Registers the hardware writes (interrupt
//! status, FIFO status, FIFO data, the device status register) are not
//! part of the model: their values enter the library as handler
//! arguments.
//!
//! The one register read by both sides at the bit level is the global
//! interrupt mask, which the dispatcher combines with the status
//! snapshot; it is therefore kept as a 32-bit word, addressed through the
//! bit indices of [`crate::dispatch`].

use vstd::prelude::*;

verus! {

/// Firmware-owned fields of the global-controller register block.
#[derive(Clone, Copy, Debug, PartialEq, Eq, Structural)]
pub struct GlobalRegs {
    /// Global interrupt mask, one enable bit per interrupt source.
    pub gintmsk: u32,
    /// AHB configuration: global interrupt signaling enabled.
    pub gahbcfg_gint: bool,
    /// AHB configuration: transmit-FIFO-empty interrupt fires only when
    /// the FIFO is completely empty.
    pub gahbcfg_ptxfelvl: bool,
    /// USB configuration: full-speed internal transceiver selected.
    pub gusbcfg_physel: bool,
    /// USB configuration: data-line pulsing for session request.
    pub gusbcfg_tsdps: bool,
    /// USB configuration: ULPI full-speed/low-speed select.
    pub gusbcfg_ulpifsls: bool,
    /// USB configuration: ULPI external VBUS drive.
    pub gusbcfg_ulpievbusd: bool,
    /// USB configuration: ULPI external VBUS indicator.
    pub gusbcfg_ulpievbusi: bool,
    /// USB configuration: HNP capability.
    pub gusbcfg_hnpcap: bool,
    /// USB configuration: SRP capability.
    pub gusbcfg_srpcap: bool,
    /// USB configuration: USB turnaround time, in PHY clocks.
    pub gusbcfg_trdt: u8,
    /// Core configuration: transceiver power down.
    pub gccfg_pwrdwn: bool,
    /// Core configuration: VBUS sensing enabled.
    pub gccfg_vbden: bool,
    /// Receive-FIFO depth, in 32-bit words.
    pub grxfsiz_rxfd: u16,
    /// Endpoint-0 transmit-FIFO depth, in 32-bit words.
    pub tx0_fifo_depth: u16,
    /// Endpoint-0 transmit-FIFO start address, in words.
    pub tx0_fifo_start: u16,
}

/// Firmware-owned fields of the device-controller register block.
#[derive(Clone, Copy, Debug, PartialEq, Eq, Structural)]
pub struct DeviceRegs {
    /// Device speed selection: 0 is high speed.
    pub dcfg_dspd: u8,
    /// Non-zero-length status OUT handshake option.
    pub dcfg_nzlsohsk: bool,
    /// Device address, latched on SET_ADDRESS.
    pub dcfg_dad: u8,
    /// Soft disconnect: while set, the host cannot see the device.
    pub dctl_sdis: bool,
    /// NAK set on OUT endpoint 1.
    pub doepctl1_snak: bool,
    /// NAK set on OUT endpoint 2.
    pub doepctl2_snak: bool,
    /// NAK set on OUT endpoint 3.
    pub doepctl3_snak: bool,
    /// NAK set on OUT endpoint 4.
    pub doepctl4_snak: bool,
    /// NAK set on OUT endpoint 5.
    pub doepctl5_snak: bool,
    /// NAK set on OUT endpoint 6.
    pub doepctl6_snak: bool,
    /// NAK set on OUT endpoint 7.
    pub doepctl7_snak: bool,
    /// Per-endpoint IN interrupt mask bits.
    pub daintmsk_iepm: u16,
    /// Per-endpoint OUT interrupt mask bits.
    pub daintmsk_oepm: u16,
    /// OUT endpoint interrupt mask: SETUP phase done.
    pub doepmsk_stupm: bool,
    /// OUT endpoint interrupt mask: transfer completed.
    pub doepmsk_xfrcm: bool,
    /// IN endpoint interrupt mask: transfer completed.
    pub diepmsk_xfrcm: bool,
    /// IN endpoint interrupt mask: timeout condition.
    pub diepmsk_tom: bool,
    /// Endpoint-0 OUT transfer size: SETUP packets the endpoint accepts
    /// back to back before it must be re-armed.
    pub doeptsiz0_stupcnt: u8,
    /// Endpoint-0 IN control: maximum packet size.
    pub diepctl0_mpsiz: u16,
    /// Endpoint-0 IN control: endpoint enabled.
    pub diepctl0_epena: bool,
    /// Endpoint-0 IN control: clear NAK.
    pub diepctl0_cnak: bool,
    /// Endpoint-0 IN transfer size: packet count.
    pub dieptsiz0_pktcnt: u8,
    /// Endpoint-0 IN transfer size: bytes to transmit.
    pub dieptsiz0_xfrsiz: u8,
    /// Per-endpoint IN transmit-FIFO-empty interrupt mask bits.
    pub diepempmsk_ineptxfem: u16,
}

impl GlobalRegs {
    /// The power-on value of the modelled global fields: everything
    /// masked and disabled.
    pub fn new() -> (r: GlobalRegs)
        ensures
            r == GlobalRegs::initial(),
    {
        GlobalRegs {
            gintmsk: 0,
            gahbcfg_gint: false,
            gahbcfg_ptxfelvl: false,
            gusbcfg_physel: false,
            gusbcfg_tsdps: false,
            gusbcfg_ulpifsls: false,
            gusbcfg_ulpievbusd: false,
            gusbcfg_ulpievbusi: false,
            gusbcfg_hnpcap: false,
            gusbcfg_srpcap: false,
            gusbcfg_trdt: 0,
            gccfg_pwrdwn: false,
            gccfg_vbden: false,
            grxfsiz_rxfd: 0,
            tx0_fifo_depth: 0,
            tx0_fifo_start: 0,
        }
    }

    /// The power-on value of the modelled global fields.
    pub open spec fn initial() -> GlobalRegs {
        GlobalRegs {
            gintmsk: 0,
            gahbcfg_gint: false,
            gahbcfg_ptxfelvl: false,
            gusbcfg_physel: false,
            gusbcfg_tsdps: false,
            gusbcfg_ulpifsls: false,
            gusbcfg_ulpievbusd: false,
            gusbcfg_ulpievbusi: false,
            gusbcfg_hnpcap: false,
            gusbcfg_srpcap: false,
            gusbcfg_trdt: 0,
            gccfg_pwrdwn: false,
            gccfg_vbden: false,
            grxfsiz_rxfd: 0,
            tx0_fifo_depth: 0,
            tx0_fifo_start: 0,
        }
    }
}

impl DeviceRegs {
    /// The power-on value of the modelled device fields.
    pub fn new() -> (r: DeviceRegs)
        ensures
            r == DeviceRegs::initial(),
    {
        DeviceRegs {
            dcfg_dspd: 0,
            dcfg_nzlsohsk: false,
            dcfg_dad: 0,
            dctl_sdis: true,
            doepctl1_snak: false,
            doepctl2_snak: false,
            doepctl3_snak: false,
            doepctl4_snak: false,
            doepctl5_snak: false,
            doepctl6_snak: false,
            doepctl7_snak: false,
            daintmsk_iepm: 0,
            daintmsk_oepm: 0,
            doepmsk_stupm: false,
            doepmsk_xfrcm: false,
            diepmsk_xfrcm: false,
            diepmsk_tom: false,
            doeptsiz0_stupcnt: 0,
            diepctl0_mpsiz: 0,
            diepctl0_epena: false,
            diepctl0_cnak: false,
            dieptsiz0_pktcnt: 0,
            dieptsiz0_xfrsiz: 0,
            diepempmsk_ineptxfem: 0,
        }
    }

    /// The power-on value of the modelled device fields: soft disconnect
    /// asserted, everything else clear.
    pub open spec fn initial() -> DeviceRegs {
        DeviceRegs {
            dcfg_dspd: 0,
            dcfg_nzlsohsk: false,
            dcfg_dad: 0,
            dctl_sdis: true,
            doepctl1_snak: false,
            doepctl2_snak: false,
            doepctl3_snak: false,
            doepctl4_snak: false,
            doepctl5_snak: false,
            doepctl6_snak: false,
            doepctl7_snak: false,
            daintmsk_iepm: 0,
            daintmsk_oepm: 0,
            doepmsk_stupm: false,
            doepmsk_xfrcm: false,
            diepmsk_xfrcm: false,
            diepmsk_tom: false,
            doeptsiz0_stupcnt: 0,
            diepctl0_mpsiz: 0,
            diepctl0_epena: false,
            diepctl0_cnak: false,
            dieptsiz0_pktcnt: 0,
            dieptsiz0_xfrsiz: 0,
            diepempmsk_ineptxfem: 0,
        }
    }
}

/// The fields of one receive-FIFO status/pop word: endpoint number in
/// bits 0-3, byte count in bits 4-14, data-PID in bits 15-16, status code
/// in bits 17-20, frame number in bits 21-24.
#[derive(Clone, Copy, Debug, PartialEq, Eq, Structural)]
pub struct RxEntry {
    pub ep: u8,
    pub count: u16,
    pub dpid: u8,
    pub status: u8,
    pub frame: u8,
}

/// Endpoint number of a status/pop word.
pub open spec fn rx_ep(grxstsp: u32) -> u32 {
    grxstsp & 0xf
}

/// Byte count of a status/pop word.
pub open spec fn rx_count(grxstsp: u32) -> u32 {
    (grxstsp >> 4u32) & 0x7ff
}

/// Data-PID of a status/pop word.
pub open spec fn rx_dpid(grxstsp: u32) -> u32 {
    (grxstsp >> 15u32) & 0x3
}

/// Status code of a status/pop word.
pub open spec fn rx_status(grxstsp: u32) -> u32 {
    (grxstsp >> 17u32) & 0xf
}

/// Frame number (low bits) of a status/pop word.
pub open spec fn rx_frame(grxstsp: u32) -> u32 {
    (grxstsp >> 21u32) & 0xf
}

/// How many 32-bit words carry `count` bytes in the data FIFO.
pub open spec fn words_for(count: int) -> int {
    (count + 3) / 4
}

/// Parses one receive-FIFO status/pop word into its named fields.
pub fn parse_rx_status(grxstsp: u32) -> (r: RxEntry)
    ensures
        r.ep == rx_ep(grxstsp),
        r.count == rx_count(grxstsp),
        r.dpid == rx_dpid(grxstsp),
        r.status == rx_status(grxstsp),
        r.frame == rx_frame(grxstsp),
        r.count < 0x800,
{
    proof {
        assert((grxstsp & 0xf) < 0x10 && ((grxstsp >> 4u32) & 0x7ff) < 0x800 && ((grxstsp
            >> 15u32) & 0x3) < 0x4 && ((grxstsp >> 17u32) & 0xf) < 0x10 && ((grxstsp >> 21u32)
            & 0xf) < 0x10) by (bit_vector);
    }
    RxEntry {
        ep: (grxstsp & 0xf) as u8,
        count: ((grxstsp >> 4) & 0x7ff) as u16,
        dpid: ((grxstsp >> 15) & 0x3) as u8,
        status: ((grxstsp >> 17) & 0xf) as u8,
        frame: ((grxstsp >> 21) & 0xf) as u8,
    }
}

/// The value to write back to a write-one-to-clear register so that
/// exactly the conditions just read are acknowledged: the value read.
pub fn ack_value(status: u32) -> (r: u32)
    ensures
        r == status,
{
    status
}

} // verus!
