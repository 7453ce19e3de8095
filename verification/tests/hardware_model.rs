use usb_hs_device::controller::UsbController;
use usb_hs_device::error::Fatal;
use usb_hs_device::fragment::ReceivedFragment;
use usb_hs_device::init::{
    configure_core, configure_device, connect, next_phase, phy_setup, unmask_engine_interrupts,
    InitPhase, INIT_GINTMSK,
};
use usb_hs_device::regs::{ack_value, parse_rx_status, DeviceRegs, GlobalRegs};
use usb_hs_device::transmit::{fifo_space_available, transfer_drained, wait_step, WaitOutcome};

const MASK_RX: u32 = 1 << 4;

/// A status/pop word with the given fields in the hardware's bit layout.
fn grxstsp(ep: u32, count: u32, dpid: u32, status: u32, frame: u32) -> u32 {
    ep | (count << 4) | (dpid << 15) | (status << 17) | (frame << 21)
}

#[test]
fn rx_status_word_parses_into_its_fields() {
    let entry = parse_rx_status(grxstsp(1, 8, 0, 6, 5));
    assert_eq!(entry.ep, 1);
    assert_eq!(entry.count, 8);
    assert_eq!(entry.dpid, 0);
    assert_eq!(entry.status, 6);
    assert_eq!(entry.frame, 5);
}

#[test]
fn rx_event_enqueues_the_classified_fragment() {
    let mut ctl = UsbController::new();
    ctl.global.gintmsk = INIT_GINTMSK | MASK_RX;
    let words: Vec<u32> = vec![0x0100_0680, 0x0012_0000];
    let r = ctl.on_rx_fifo(grxstsp(0, 8, 0, 6, 0), &words);
    assert_eq!(r, Ok(()));
    assert_eq!(ctl.queue.len(), 1);
    assert_eq!(
        ctl.queue.items[0],
        ReceivedFragment::SetupData {
            request_type: 0x80,
            request: 6,
            value: 0x0100,
            index: 0x0000,
            length: 0x0012,
        }
    );
    // The receive interrupt is enabled again once the drain is done.
    assert_eq!(ctl.global.gintmsk & MASK_RX, MASK_RX);
}

#[test]
fn rx_event_with_zero_bytes_enqueues_the_completion_marker() {
    let mut ctl = UsbController::new();
    let words: Vec<u32> = vec![];
    let r = ctl.on_rx_fifo(grxstsp(0, 0, 0, 4, 0), &words);
    assert_eq!(r, Ok(()));
    assert_eq!(ctl.queue.items[0], ReceivedFragment::SetupComplete);
}

#[test]
fn unrecognized_rx_entry_is_fatal_and_enqueues_nothing() {
    let mut ctl = UsbController::new();
    ctl.global.gintmsk = MASK_RX;
    let words: Vec<u32> = vec![0xdead_beef];
    let r = ctl.on_rx_fifo(grxstsp(0, 4, 2, 2, 0), &words);
    assert_eq!(r, Err(Fatal::UnrecognizedFragment));
    assert_eq!(ctl.queue.len(), 0);
    // The receive interrupt stays masked on the fatal path.
    assert_eq!(ctl.global.gintmsk & MASK_RX, 0);
}

#[test]
fn bus_reset_arms_endpoint_zero_for_setup() {
    let mut ctl = UsbController::new();
    ctl.on_usb_reset();
    assert!(ctl.device.doepctl1_snak && ctl.device.doepctl7_snak);
    assert_eq!(ctl.device.daintmsk_iepm, 1);
    assert_eq!(ctl.device.daintmsk_oepm, 1);
    assert!(ctl.device.doepmsk_stupm && ctl.device.doepmsk_xfrcm);
    assert!(ctl.device.diepmsk_xfrcm && ctl.device.diepmsk_tom);
    assert_eq!(ctl.global.grxfsiz_rxfd, 0x200);
    assert_eq!(ctl.global.tx0_fifo_depth, 0x200);
    assert_eq!(ctl.device.doeptsiz0_stupcnt, 3);
}

#[test]
fn enumeration_done_at_high_speed_opens_the_receive_path() {
    let mut ctl = UsbController::new();
    let r = ctl.on_enum_done(0);
    assert_eq!(r, Ok(()));
    assert_eq!(ctl.device.diepctl0_mpsiz, 0x200);
    assert_eq!(ctl.global.gintmsk & MASK_RX, MASK_RX);
}

#[test]
fn enumeration_at_another_speed_is_fatal() {
    let mut ctl = UsbController::new();
    let before = ctl.global;
    let r = ctl.on_enum_done(0x3);
    assert_eq!(r, Err(Fatal::UnexpectedEnumSpeed));
    assert_eq!(ctl.global, before);
}

#[test]
fn mode_mismatch_is_always_fatal() {
    let ctl = UsbController::new();
    assert_eq!(ctl.on_mode_mismatch(), Fatal::ModeMismatch);
}

#[test]
fn otg_event_acknowledges_what_was_read() {
    let ctl = UsbController::new();
    assert_eq!(ctl.on_otg_event(0x0004_0010), 0x0004_0010);
    assert_eq!(ack_value(0xffff_ffff), 0xffff_ffff);
}

#[test]
fn in_endpoint_event_retires_the_fifo_empty_unmask_and_the_pending_flag() {
    let mut ctl = UsbController::new();
    ctl.device.diepempmsk_ineptxfem = 1;
    ctl.tx_pending = true;
    ctl.on_in_endpoint(1, true, true);
    assert_eq!(ctl.device.diepempmsk_ineptxfem, 0);
    assert!(!ctl.tx_pending);
}

#[test]
fn in_endpoint_event_for_another_endpoint_changes_nothing() {
    let mut ctl = UsbController::new();
    ctl.device.diepempmsk_ineptxfem = 1;
    ctl.tx_pending = true;
    ctl.on_in_endpoint(2, true, true);
    assert_eq!(ctl.device.diepempmsk_ineptxfem, 1);
    assert!(ctl.tx_pending);
}

#[test]
fn send_finish_unmasks_completion_interrupts() {
    let mut ctl = UsbController::new();
    ctl.send_finish();
    assert_eq!(ctl.device.diepempmsk_ineptxfem & 1, 1);
    assert_eq!(ctl.global.gintmsk & (1 << 18), 1 << 18);
}

#[test]
fn initialization_phases_run_in_the_fixed_order() {
    let order = [
        InitPhase::ClearPending,
        InitPhase::PhySetup,
        InitPhase::AwaitAhbIdle,
        InitPhase::SoftReset,
        InitPhase::AwaitResetDone,
        InitPhase::ConfigureCore,
        InitPhase::AwaitDeviceMode,
        InitPhase::ConfigureDevice,
        InitPhase::UnmaskInterrupts,
        InitPhase::Connect,
        InitPhase::Done,
    ];
    let mut phase = InitPhase::ClearPending;
    for expected in order {
        assert_eq!(phase, expected);
        phase = next_phase(phase);
    }
    assert_eq!(phase, InitPhase::Done);
}

#[test]
fn initialization_configures_and_connects_the_device() {
    let mut g = GlobalRegs::new();
    let mut d = DeviceRegs::new();
    assert!(d.dctl_sdis);
    phy_setup(&mut g);
    assert!(!g.gccfg_pwrdwn && !g.gusbcfg_physel);
    configure_core(&mut g);
    assert!(g.gahbcfg_gint && g.gahbcfg_ptxfelvl);
    assert_eq!(g.gusbcfg_trdt, 0x9);
    configure_device(&mut g, &mut d);
    assert!(g.gccfg_vbden);
    assert_eq!(d.dcfg_dspd, 0);
    unmask_engine_interrupts(&mut g);
    assert_eq!(g.gintmsk, INIT_GINTMSK);
    // The handled sources: bits 1, 2, 12, 13, 19 — and no receive-FIFO
    // bit yet.
    assert_eq!(
        INIT_GINTMSK,
        (1 << 1) | (1 << 2) | (1 << 12) | (1 << 13) | (1 << 19)
    );
    assert_eq!(INIT_GINTMSK & MASK_RX, 0);
    connect(&mut d);
    assert!(!d.dctl_sdis);
}

#[test]
fn bounded_wait_proceeds_retries_then_fails() {
    assert_eq!(wait_step(true, 0), WaitOutcome::Proceed);
    assert_eq!(wait_step(false, 2), WaitOutcome::Retry(1));
    assert_eq!(wait_step(false, 1), WaitOutcome::Retry(0));
    assert_eq!(wait_step(false, 0), WaitOutcome::TimedOut);
}

#[test]
fn transmit_wait_decisions_read_the_hardware_counters() {
    assert!(fifo_space_available(5, 5));
    assert!(!fifo_space_available(4, 5));
    assert!(transfer_drained(0));
    assert!(!transfer_drained(18));
}
