//! The controller context and the per-event interrupt handlers.
//!
//! A [`UsbController`] owns the modelled register state, the fragment
//! queue and the transmit-pending flag; it is created once, before
//! interrupts are enabled, and then driven exclusively from interrupt
//! context. Each handler takes the hardware-read values it needs as
//! arguments and states exactly how it changes the owned state and what
//! it asks the environment to do.

use vstd::prelude::*;

use crate::descriptor::{device_descriptor_spec, encode_spec, DeviceDescriptor};
use crate::dispatch::{MASK_IN_ENDPOINT, MASK_RX_FIFO_NON_EMPTY};
use crate::error::Fatal;
use crate::fragment::{classify_fragment, classify_spec, extract_bytes, fifo_bytes, ControlRequest, ReceivedFragment};
use crate::queue::{deferred, queue_after_scan, reconstructed, FragmentQueue, ScanResult};
use crate::regs::{parse_rx_status, rx_count, rx_dpid, rx_status, words_for, DeviceRegs, GlobalRegs};
use crate::transmit::{pack_words, packed_words, TxPlan, MAX_PACKET_SIZE};

verus! {

/// The GET_DESCRIPTOR request code.
pub const REQ_GET_DESCRIPTOR: u8 = 6;

/// The SET_ADDRESS request code.
pub const REQ_SET_ADDRESS: u8 = 5;

/// The descriptor-type code of the device descriptor.
pub const DESC_TYPE_DEVICE: u16 = 1;

/// The most back-to-back SETUP packets endpoint 0 is armed to accept
/// before it must be re-armed.
pub const SETUP_PACKET_LIMIT: u8 = 3;

/// What the OUT-endpoint handler decided.
pub enum OutAction {
    /// No endpoint-0 SETUP-phase-done condition was reported; nothing to
    /// do.
    Idle,
    /// The completion marker has not arrived yet: the unmatched SETUP
    /// fragment was restored to the front of the queue and the
    /// transaction deferred to a later event.
    Deferred,
    /// A transaction was consumed (or the queue was empty) but no
    /// response is owed: an unrecognized request or descriptor type is
    /// ignored by design.
    Ignored,
    /// A SET_ADDRESS request: the new device address was latched into
    /// the device-configuration register.
    AddressSet,
    /// A GET_DESCRIPTOR(Device) request: the encoded descriptor is ready
    /// to transmit.
    Transmit(TxPlan),
}

/// The single owner of the modelled register blocks, the fragment queue
/// and the transmit-pending flag.
pub struct UsbController {
    pub global: GlobalRegs,
    pub device: DeviceRegs,
    pub queue: FragmentQueue,
    pub tx_pending: bool,
}

/// The descriptor length actually sent: the full 18 bytes, truncated to
/// the host-requested length when the host asked for less.
pub open spec fn descriptor_send_len(requested: u16) -> int {
    if requested < 18 {
        requested as int
    } else {
        18
    }
}

/// Whether the OUT-endpoint handler has a SETUP event to act on: the
/// endpoint-0 event with the SETUP-phase-done condition latched and an
/// outstanding-SETUP count within the armed limit.
pub open spec fn handled(ep0_event: bool, stup: bool, stupcnt: u8) -> bool {
    ep0_event && stup && stupcnt <= SETUP_PACKET_LIMIT
}

/// Whether a control request asks for the device descriptor:
/// GET_DESCRIPTOR with descriptor type (bits 8..11 of the value) equal
/// to the device-descriptor type code.
pub open spec fn wants_device_descriptor(req: ControlRequest) -> bool {
    req.request == REQ_GET_DESCRIPTOR && (req.value >> 8u16) & 0xf == DESC_TYPE_DEVICE
}

impl UsbController {
    /// Creates the context with power-on register values, an empty
    /// queue, and no transmit pending.
    pub fn new() -> (r: UsbController)
        ensures
            r.global == GlobalRegs::initial(),
            r.device == DeviceRegs::initial(),
            r.queue@ =~= Seq::<ReceivedFragment>::empty(),
            !r.tx_pending,
    {
        UsbController {
            global: GlobalRegs::new(),
            device: DeviceRegs::new(),
            queue: FragmentQueue::new(),
            tx_pending: false,
        }
    }

    /// The mode-mismatch handler: a register of the wrong mode was
    /// accessed; no safe continuation is known.
    pub fn on_mode_mismatch(&self) -> (r: Fatal)
        ensures
            r == Fatal::ModeMismatch,
    {
        Fatal::ModeMismatch
    }

    /// The bus-reset handler. Sets NAK on every non-control OUT
    /// endpoint, unmasks the endpoint-0 IN and OUT interrupts and the
    /// SETUP-done / transfer-complete / timeout conditions, partitions
    /// the receive and endpoint-0 transmit FIFOs, and arms endpoint 0 to
    /// accept up to three back-to-back SETUP packets.
    pub fn on_usb_reset(&mut self)
        ensures
            final(self).device == (DeviceRegs {
                doepctl1_snak: true,
                doepctl2_snak: true,
                doepctl3_snak: true,
                doepctl4_snak: true,
                doepctl5_snak: true,
                doepctl6_snak: true,
                doepctl7_snak: true,
                daintmsk_iepm: (old(self).device.daintmsk_iepm | 1) as u16,
                daintmsk_oepm: (old(self).device.daintmsk_oepm | 1) as u16,
                doepmsk_stupm: true,
                doepmsk_xfrcm: true,
                diepmsk_xfrcm: true,
                diepmsk_tom: true,
                doeptsiz0_stupcnt: SETUP_PACKET_LIMIT,
                ..old(self).device
            }),
            final(self).global == (GlobalRegs {
                grxfsiz_rxfd: 0x200,
                tx0_fifo_depth: 0x200,
                tx0_fifo_start: 0x200,
                ..old(self).global
            }),
            final(self).queue@ == old(self).queue@,
            final(self).tx_pending == old(self).tx_pending,
    {
        self.device.doepctl1_snak = true;
        self.device.doepctl2_snak = true;
        self.device.doepctl3_snak = true;
        self.device.doepctl4_snak = true;
        self.device.doepctl5_snak = true;
        self.device.doepctl6_snak = true;
        self.device.doepctl7_snak = true;
        self.device.daintmsk_iepm = self.device.daintmsk_iepm | 1;
        self.device.daintmsk_oepm = self.device.daintmsk_oepm | 1;
        self.device.doepmsk_stupm = true;
        self.device.doepmsk_xfrcm = true;
        self.device.diepmsk_xfrcm = true;
        self.device.diepmsk_tom = true;
        self.global.grxfsiz_rxfd = 0x200;
        self.global.tx0_fifo_depth = 0x200;
        self.global.tx0_fifo_start = 0x200;
        self.device.doeptsiz0_stupcnt = SETUP_PACKET_LIMIT;
    }

    /// The enumeration-done handler. `enumspd` is the speed the device
    /// status register reports: it must match the configured high-speed
    /// value (zero), anything else is fatal. On success, sets the
    /// endpoint-0 maximum packet size and unmasks the
    /// receive-FIFO-non-empty interrupt — only now is endpoint state
    /// ready for FIFO traffic.
    #[verifier::rlimit(50)]
    pub fn on_enum_done(&mut self, enumspd: u8) -> (r: Result<(), Fatal>)
        ensures
            enumspd != 0 ==> r == Result::<(), Fatal>::Err(Fatal::UnexpectedEnumSpeed) && *final(self) == *old(self),
            enumspd == 0 ==> r is Ok && final(self).device == (DeviceRegs {
                diepctl0_mpsiz: 0x200,
                ..old(self).device
            }) && final(self).global == (GlobalRegs {
                gintmsk: old(self).global.gintmsk | MASK_RX_FIFO_NON_EMPTY,
                ..old(self).global
            }) && final(self).queue@ == old(self).queue@ && final(self).tx_pending == old(self).tx_pending,
    {
        if enumspd != 0 {
            return Err(Fatal::UnexpectedEnumSpeed);
        }
        self.device.diepctl0_mpsiz = 0x200;
        self.global.gintmsk = self.global.gintmsk | MASK_RX_FIFO_NON_EMPTY;
        Ok(())
    }

    /// The receive-FIFO-non-empty handler. Masks its own interrupt for
    /// the duration of the drain, classifies the entry described by the
    /// status/pop word `grxstsp` and the popped data words, appends the
    /// fragment to the queue, and re-enables the interrupt. On an
    /// unrecognized entry the interrupt stays masked and the queue
    /// untouched: the fatal condition is reported, never enqueued.
    ///
    /// The environment pops `words_for(byte count)` words from the data
    /// FIFO after reading `grxstsp`, and hands both in; this must happen
    /// in one invocation — a partially drained entry is not a valid
    /// state to leave behind.
    pub fn on_rx_fifo(&mut self, grxstsp: u32, words: &Vec<u32>) -> (r: Result<(), Fatal>)
        requires
            words@.len() == words_for(rx_count(grxstsp) as int),
        ensures
            ({
                let c = classify_spec(
                    rx_status(grxstsp) as u8,
                    rx_dpid(grxstsp) as u8,
                    rx_count(grxstsp) as int,
                    fifo_bytes(words@, rx_count(grxstsp) as int),
                );
                match c {
                    Ok(f) => r is Ok && final(self).queue@ == old(self).queue@.push(f) && final(self).global == (GlobalRegs {
                        gintmsk: old(self).global.gintmsk | MASK_RX_FIFO_NON_EMPTY,
                        ..old(self).global
                    }),
                    Err(e) => r == Result::<(), Fatal>::Err(e) && final(self).queue@ == old(self).queue@ && final(self).global == (GlobalRegs {
                        gintmsk: old(self).global.gintmsk & !MASK_RX_FIFO_NON_EMPTY,
                        ..old(self).global
                    }),
                }
            }),
            final(self).device == old(self).device,
            final(self).tx_pending == old(self).tx_pending,
    {
        self.global.gintmsk = self.global.gintmsk & !MASK_RX_FIFO_NON_EMPTY;
        let entry = parse_rx_status(grxstsp);
        let count: usize = entry.count as usize;
        let data = extract_bytes(words, count);
        let fragment = match classify_fragment(entry.status, entry.dpid, count, &data) {
            Ok(f) => f,
            Err(e) => {
                return Err(e);
            },
        };
        self.queue.push_back(fragment);
        proof {
            assert(self.global.gintmsk | MASK_RX_FIFO_NON_EMPTY == old(self).global.gintmsk | MASK_RX_FIFO_NON_EMPTY) by {
                let m: u32 = old(self).global.gintmsk;
                assert((m & !0x10u32) | 0x10u32 == m | 0x10u32) by (bit_vector);
            }
        }
        self.global.gintmsk = self.global.gintmsk | MASK_RX_FIFO_NON_EMPTY;
        Ok(())
    }

    /// The OTG-event handler: the latched OTG interrupt conditions are
    /// acknowledged by writing the value just read back to the
    /// write-one-to-clear register. Returns that value; the owned state
    /// does not change.
    pub fn on_otg_event(&self, gotgint: u32) -> (r: u32)
        ensures
            r == gotgint,
    {
        gotgint
    }

    /// The IN-endpoint handler. When endpoint 0 reports an event: a
    /// transmit-FIFO-empty condition retires its (now stale) unmask; a
    /// transfer-complete condition clears the transmit-pending flag. The
    /// latched endpoint conditions themselves are acknowledged by the
    /// environment writing back the value it read.
    pub fn on_in_endpoint(&mut self, daint_iepint: u16, txfe: bool, xfrc: bool)
        ensures
            final(self).device == (DeviceRegs {
                diepempmsk_ineptxfem: if daint_iepint & 1 == 1 && txfe {
                    (old(self).device.diepempmsk_ineptxfem & !1) as u16
                } else {
                    old(self).device.diepempmsk_ineptxfem
                },
                ..old(self).device
            }),
            final(self).tx_pending == (if daint_iepint & 1 == 1 && xfrc {
                false
            } else {
                old(self).tx_pending
            }),
            final(self).global == old(self).global,
            final(self).queue@ == old(self).queue@,
    {
        if daint_iepint & 1 == 1 {
            if txfe {
                self.device.diepempmsk_ineptxfem = self.device.diepempmsk_ineptxfem & !1;
            }
            if xfrc {
                self.tx_pending = false;
            }
        }
    }

    /// Prepares a transmit of `payload` through the endpoint-0 FIFO: one
    /// packet, exact byte count, endpoint enabled, NAK cleared, payload
    /// packed into FIFO words. A payload of one max-packet-size or more
    /// is refused as fatal with nothing changed — the FIFO-write loop is
    /// never reached, since only a returned plan carries words to write.
    pub fn try_send(&mut self, payload: &Vec<u8>) -> (r: Result<TxPlan, Fatal>)
        ensures
            payload@.len() >= MAX_PACKET_SIZE ==> r is Err && (r matches Err(e) ==> e
                == Fatal::OversizePayload) && *final(self) == *old(self),
            payload@.len() < MAX_PACKET_SIZE ==> (r matches Ok(plan) && plan.byte_cnt
                == payload@.len() && plan.words@ == packed_words(payload@)) && final(self).device
                == (DeviceRegs {
                dieptsiz0_pktcnt: 1,
                dieptsiz0_xfrsiz: payload@.len() as u8,
                diepctl0_epena: true,
                diepctl0_cnak: true,
                ..old(self).device
            }) && final(self).tx_pending && final(self).global == old(self).global && final(self).queue@ == old(self).queue@,
    {
        if payload.len() >= MAX_PACKET_SIZE {
            return Err(Fatal::OversizePayload);
        }
        self.tx_pending = true;
        self.device.dieptsiz0_pktcnt = 1;
        self.device.dieptsiz0_xfrsiz = payload.len() as u8;
        self.device.diepctl0_epena = true;
        self.device.diepctl0_cnak = true;
        let words = pack_words(payload);
        Ok(TxPlan { byte_cnt: payload.len() as u8, words })
    }

    /// Finishes a transmit once the transfer-size register has drained:
    /// unmasks the endpoint-0 transmit-FIFO-empty condition and the
    /// IN-endpoint interrupt, so a later IN-endpoint event retires the
    /// stale FIFO-empty notification and observes completion.
    #[verifier::rlimit(50)]
    pub fn send_finish(&mut self)
        ensures
            final(self).device == (DeviceRegs {
                diepempmsk_ineptxfem: (old(self).device.diepempmsk_ineptxfem | 1) as u16,
                ..old(self).device
            }),
            final(self).global == (GlobalRegs {
                gintmsk: old(self).global.gintmsk | MASK_IN_ENDPOINT,
                ..old(self).global
            }),
            final(self).queue@ == old(self).queue@,
            final(self).tx_pending == old(self).tx_pending,
    {
        self.device.diepempmsk_ineptxfem = self.device.diepempmsk_ineptxfem | 1;
        self.global.gintmsk = self.global.gintmsk | MASK_IN_ENDPOINT;
    }

    /// Re-arms endpoint 0 to accept up to three further back-to-back
    /// SETUP packets.
    pub fn rearm_setup(&mut self)
        ensures
            final(self).device == (DeviceRegs {
                doeptsiz0_stupcnt: SETUP_PACKET_LIMIT,
                ..old(self).device
            }),
            final(self).global == old(self).global,
            final(self).queue@ == old(self).queue@,
            final(self).tx_pending == old(self).tx_pending,
    {
        self.device.doeptsiz0_stupcnt = SETUP_PACKET_LIMIT;
    }

    /// Prepares the response to a GET_DESCRIPTOR(Device) request: the
    /// encoded device descriptor — the full 18 bytes, truncated to the
    /// host-requested length when that is shorter — packed for the
    /// endpoint-0 FIFO, with the transmit registers programmed.
    fn respond_device_descriptor(&mut self, requested: u16) -> (r: TxPlan)
        ensures
            r.byte_cnt == descriptor_send_len(requested),
            r.words@ == packed_words(
                encode_spec(device_descriptor_spec()).take(descriptor_send_len(requested)),
            ),
            final(self).device == (DeviceRegs {
                dieptsiz0_pktcnt: 1,
                dieptsiz0_xfrsiz: descriptor_send_len(requested) as u8,
                diepctl0_epena: true,
                diepctl0_cnak: true,
                ..old(self).device
            }),
            final(self).tx_pending,
            final(self).global == old(self).global,
            final(self).queue@ == old(self).queue@,
    {
        let encoded = DeviceDescriptor::device().encode();
        let send_len: usize = if (requested as usize) < encoded.len() {
            requested as usize
        } else {
            encoded.len()
        };
        let mut payload: Vec<u8> = Vec::new();
        let mut i: usize = 0;
        while i < send_len
            invariant
                i <= send_len,
                send_len <= encoded@.len(),
                encoded@ == encode_spec(device_descriptor_spec()),
                payload@ =~= encoded@.take(send_len as int).take(i as int),
            decreases send_len - i,
        {
            payload.push(encoded[i]);
            i = i + 1;
        }
        proof {
            assert(payload@ =~= encode_spec(device_descriptor_spec()).take(send_len as int));
            assert(send_len as int == descriptor_send_len(requested));
        }
        match self.try_send(&payload) {
            Ok(plan) => plan,
            Err(_) => {
                // Unreachable: the payload is at most 18 bytes.
                proof {
                    assert(payload@.len() < MAX_PACKET_SIZE);
                    assert(false);
                }
                TxPlan { byte_cnt: 0, words: Vec::new() }
            },
        }
    }

    /// The OUT-endpoint handler: the control-transfer state machine.
    ///
    /// `ep0_event` says whether endpoint 0 raised the event, `stup`
    /// whether its SETUP-phase-done condition is latched (the
    /// environment acknowledges that latch with a write-one-to-clear of
    /// the value it read), and `stupcnt` is the outstanding-SETUP count
    /// the hardware reports, which may not exceed the armed limit.
    ///
    /// Pops fragments from the queue front until a complete transaction
    /// is reconstructed, then dispatches: GET_DESCRIPTOR for the device
    /// descriptor prepares a transmit of the encoded descriptor (the
    /// full 18 bytes, truncated to the host-requested length when that
    /// is shorter); SET_ADDRESS latches the new address; anything else
    /// is ignored. An incomplete transaction is deferred with the
    /// unmatched fragment restored. Endpoint 0 is re-armed on every
    /// consumed transaction; after a transmit, the environment re-arms
    /// by calling [`UsbController::rearm_setup`] once the transfer has
    /// drained and [`UsbController::send_finish`] has run.
    /// Dispatches one reconstructed control request: GET_DESCRIPTOR for
    /// the device descriptor prepares the transmit, SET_ADDRESS latches
    /// the address, anything else is ignored and endpoint 0 re-armed.
    #[verifier::rlimit(100)]
    fn dispatch_request(&mut self, request: ControlRequest) -> (r: OutAction)
        ensures
            final(self).queue@ == old(self).queue@,
            final(self).global == old(self).global,
            if wants_device_descriptor(request) {
                (r matches OutAction::Transmit(plan) && plan.byte_cnt == descriptor_send_len(
                    request.length,
                ) && plan.words@ == packed_words(
                    encode_spec(device_descriptor_spec()).take(
                        descriptor_send_len(request.length),
                    ),
                )) && final(self).device == (DeviceRegs {
                    dieptsiz0_pktcnt: 1,
                    dieptsiz0_xfrsiz: descriptor_send_len(request.length) as u8,
                    diepctl0_epena: true,
                    diepctl0_cnak: true,
                    ..old(self).device
                }) && final(self).tx_pending
            } else if request.request == REQ_SET_ADDRESS {
                r is AddressSet && final(self).device == (DeviceRegs {
                    dcfg_dad: (request.value & 0x7f) as u8,
                    doeptsiz0_stupcnt: SETUP_PACKET_LIMIT,
                    ..old(self).device
                }) && final(self).tx_pending == old(self).tx_pending
            } else {
                r is Ignored && final(self).device == (DeviceRegs {
                    doeptsiz0_stupcnt: SETUP_PACKET_LIMIT,
                    ..old(self).device
                }) && final(self).tx_pending == old(self).tx_pending
            },
    {
        if request.request == REQ_GET_DESCRIPTOR {
            let desc_type: u16 = (request.value >> 8) & 0xf;
            if desc_type == DESC_TYPE_DEVICE {
                let plan = self.respond_device_descriptor(request.length);
                return OutAction::Transmit(plan);
            }
            // Other descriptor types are unimplemented: no response, no
            // fault.
            self.rearm_setup();
            return OutAction::Ignored;
        }
        if request.request == REQ_SET_ADDRESS {
            self.device.dcfg_dad = (request.value & 0x7f) as u8;
            self.rearm_setup();
            return OutAction::AddressSet;
        }
        // Other requests are ignored by design: a known functional gap,
        // not a protocol violation.
        self.rearm_setup();
        OutAction::Ignored
    }

    /// Consumes one SETUP event from the queue and acts on it: the body
    /// of the control-transfer state machine, once the event and the
    /// outstanding-SETUP count have been checked.
    #[verifier::rlimit(100)]
    fn act_on_setup(&mut self) -> (r: OutAction)
        ensures
            final(self).queue@ == queue_after_scan(old(self).queue@),
            final(self).global == old(self).global,
            deferred(old(self).queue@) ==> r is Deferred && final(self).device == old(self).device
                && final(self).tx_pending == old(self).tx_pending,
            !deferred(old(self).queue@) && reconstructed(old(self).queue@) is None ==> r is Ignored
                && final(self).device == (DeviceRegs {
                doeptsiz0_stupcnt: SETUP_PACKET_LIMIT,
                ..old(self).device
            }) && final(self).tx_pending == old(self).tx_pending,
            reconstructed(old(self).queue@) matches Some(req) ==> (if wants_device_descriptor(
                req,
            ) {
                (r matches OutAction::Transmit(plan) && plan.byte_cnt == descriptor_send_len(
                    req.length,
                ) && plan.words@ == packed_words(
                    encode_spec(device_descriptor_spec()).take(descriptor_send_len(req.length)),
                )) && final(self).device == (DeviceRegs {
                    dieptsiz0_pktcnt: 1,
                    dieptsiz0_xfrsiz: descriptor_send_len(req.length) as u8,
                    diepctl0_epena: true,
                    diepctl0_cnak: true,
                    ..old(self).device
                }) && final(self).tx_pending
            } else if req.request == REQ_SET_ADDRESS {
                r is AddressSet && final(self).device == (DeviceRegs {
                    dcfg_dad: (req.value & 0x7f) as u8,
                    doeptsiz0_stupcnt: SETUP_PACKET_LIMIT,
                    ..old(self).device
                }) && final(self).tx_pending == old(self).tx_pending
            } else {
                r is Ignored && final(self).device == (DeviceRegs {
                    doeptsiz0_stupcnt: SETUP_PACKET_LIMIT,
                    ..old(self).device
                }) && final(self).tx_pending == old(self).tx_pending
            }),
    {
        match self.queue.pop_transaction() {
            ScanResult::Transaction(req) => self.dispatch_request(req),
            ScanResult::Incomplete => {
                // The marker has not arrived: the unmatched fragment was
                // restored to the front; do not re-arm yet.
                OutAction::Deferred
            },
            ScanResult::Nothing => {
                self.rearm_setup();
                OutAction::Ignored
            },
        }
    }

    /// The OUT-endpoint handler: the control-transfer state machine.
    ///
    /// `ep0_event` says whether endpoint 0 raised the event, `stup`
    /// whether its SETUP-phase-done condition is latched (the
    /// environment acknowledges that latch with a write-one-to-clear of
    /// the value it read), and `stupcnt` is the outstanding-SETUP count
    /// the hardware reports, which may not exceed the armed limit.
    ///
    /// Pops fragments from the queue front until a complete transaction
    /// is reconstructed, then dispatches: GET_DESCRIPTOR for the device
    /// descriptor prepares a transmit of the encoded descriptor (the
    /// full 18 bytes, truncated to the host-requested length when that
    /// is shorter); SET_ADDRESS latches the new address; anything else
    /// is ignored. An incomplete transaction is deferred with the
    /// unmatched fragment restored. Endpoint 0 is re-armed on every
    /// consumed transaction; after a transmit, the environment re-arms
    /// by calling [`UsbController::rearm_setup`] once the transfer has
    /// drained and [`UsbController::send_finish`] has run.
    #[verifier::rlimit(100)]
    pub fn on_out_endpoint(&mut self, ep0_event: bool, stup: bool, stupcnt: u8) -> (r: Result<
        OutAction,
        Fatal,
    >)
        ensures
            !(ep0_event && stup) ==> (r matches Ok(a) && a is Idle) && *final(self) == *old(self),
            ep0_event && stup && stupcnt > SETUP_PACKET_LIMIT ==> (r matches Err(e) && e
                == Fatal::SetupCountOutOfRange) && *final(self) == *old(self),
            handled(ep0_event, stup, stupcnt) ==> final(self).queue@ == queue_after_scan(
                old(self).queue@,
            ) && final(self).global == old(self).global,
            handled(ep0_event, stup, stupcnt) && deferred(old(self).queue@) ==> (r matches Ok(a)
                && a is Deferred) && final(self).device == old(self).device && final(self).tx_pending == old(self).tx_pending,
            handled(ep0_event, stup, stupcnt) && !deferred(old(self).queue@) && reconstructed(
                old(self).queue@,
            ) is None ==> (r matches Ok(a) && a is Ignored) && final(self).device == (DeviceRegs {
                doeptsiz0_stupcnt: SETUP_PACKET_LIMIT,
                ..old(self).device
            }) && final(self).tx_pending == old(self).tx_pending,
            handled(ep0_event, stup, stupcnt) ==> (reconstructed(old(self).queue@) matches Some(
                req,
            ) ==> (if wants_device_descriptor(req) {
                (r matches Ok(a) && a matches OutAction::Transmit(plan) && plan.byte_cnt
                    == descriptor_send_len(req.length) && plan.words@ == packed_words(
                    encode_spec(device_descriptor_spec()).take(descriptor_send_len(req.length)),
                )) && final(self).device == (DeviceRegs {
                    dieptsiz0_pktcnt: 1,
                    dieptsiz0_xfrsiz: descriptor_send_len(req.length) as u8,
                    diepctl0_epena: true,
                    diepctl0_cnak: true,
                    ..old(self).device
                }) && final(self).tx_pending
            } else if req.request == REQ_SET_ADDRESS {
                (r matches Ok(a) && a is AddressSet) && final(self).device == (DeviceRegs {
                    dcfg_dad: (req.value & 0x7f) as u8,
                    doeptsiz0_stupcnt: SETUP_PACKET_LIMIT,
                    ..old(self).device
                }) && final(self).tx_pending == old(self).tx_pending
            } else {
                (r matches Ok(a) && a is Ignored) && final(self).device == (DeviceRegs {
                    doeptsiz0_stupcnt: SETUP_PACKET_LIMIT,
                    ..old(self).device
                }) && final(self).tx_pending == old(self).tx_pending
            })),
    {
        if !(ep0_event && stup) {
            return Ok(OutAction::Idle);
        }
        if stupcnt > SETUP_PACKET_LIMIT {
            return Err(Fatal::SetupCountOutOfRange);
        }
        Ok(self.act_on_setup())
    }
}

} // verus!
