use usb_hs_device::controller::{OutAction, UsbController, SETUP_PACKET_LIMIT};
use usb_hs_device::descriptor::DeviceDescriptor;
use usb_hs_device::dispatch::{clear_value, dispatch_plan, HandlerId};
use usb_hs_device::error::Fatal;
use usb_hs_device::fragment::{classify_fragment, extract_bytes, ReceivedFragment};
use usb_hs_device::queue::{FragmentQueue, ScanResult};

const DEVICE_DESCRIPTOR_BYTES: [u8; 18] = [
    0x12, 0x01, 0x00, 0x02, 0x00, 0x00, 0x00, 0x40, 0x12, 0x34, 0x56, 0x78, 0x13, 0x57, 0x00,
    0x00, 0x00, 0x01,
];

fn setup_get_descriptor() -> ReceivedFragment {
    ReceivedFragment::SetupData {
        request_type: 0x80,
        request: 6,
        value: 0x0100,
        index: 0x0000,
        length: 0x0012,
    }
}

fn word_byte(words: &[u32], i: usize) -> u8 {
    ((words[i / 4] >> (8 * (i % 4))) & 0xff) as u8
}

#[test]
fn dispatch_invokes_exactly_the_enabled_asserted_handlers_in_bit_order() {
    // Asserted: mode-mismatch (1), rx-FIFO (4), an unhandled bit (5),
    // enumeration-done (13), OUT endpoint (19). Enabled: 1, 4, 13.
    let gintsts: u32 = (1 << 1) | (1 << 4) | (1 << 5) | (1 << 13) | (1 << 19);
    let gintmsk: u32 = (1 << 1) | (1 << 4) | (1 << 5) | (1 << 13);
    let plan = dispatch_plan(gintsts, gintmsk);
    assert_eq!(
        plan,
        vec![
            HandlerId::ModeMismatch,
            HandlerId::RxFifoNonEmpty,
            HandlerId::EnumerationDone,
        ]
    );
}

#[test]
fn dispatch_plan_is_empty_when_nothing_is_both_asserted_and_enabled() {
    let plan = dispatch_plan(0xffff_ffff, 0);
    assert!(plan.is_empty());
    let plan = dispatch_plan(0, 0xffff_ffff);
    assert!(plan.is_empty());
}

#[test]
fn status_write_back_keeps_only_enabled_rw_clear_bits() {
    // Bit 1 is read/write-clear and enabled; bit 19 is enabled but not
    // in the hardware's rw-clear mask; bit 12 is rw-clear-eligible in
    // the mask word but not enabled here.
    let gintsts: u32 = (1 << 1) | (1 << 12) | (1 << 19);
    let gintmsk: u32 = (1 << 1) | (1 << 19);
    assert_eq!(clear_value(gintsts, gintmsk), 1 << 1);
}

#[test]
fn setup_data_triple_decodes_the_eight_bytes() {
    let data: Vec<u8> = vec![0x80, 0x06, 0x00, 0x01, 0x00, 0x00, 0x12, 0x00];
    let r = classify_fragment(0x6, 0x0, 8, &data);
    assert_eq!(r, Ok(setup_get_descriptor()));
}

#[test]
fn setup_complete_triple_yields_the_marker() {
    let data: Vec<u8> = vec![];
    let r = classify_fragment(0x4, 0x0, 0, &data);
    assert_eq!(r, Ok(ReceivedFragment::SetupComplete));
}

#[test]
fn unrecognized_triples_are_fatal_never_fragments() {
    let empty: Vec<u8> = vec![];
    let eight: Vec<u8> = vec![0; 8];
    let three: Vec<u8> = vec![1, 2, 3];
    assert_eq!(
        classify_fragment(0x2, 0x0, 3, &three),
        Err(Fatal::UnrecognizedFragment)
    );
    assert_eq!(
        classify_fragment(0x6, 0x1, 8, &eight),
        Err(Fatal::UnrecognizedFragment)
    );
    assert_eq!(
        classify_fragment(0x6, 0x0, 0, &empty),
        Err(Fatal::UnrecognizedFragment)
    );
    assert_eq!(
        classify_fragment(0x4, 0x0, 8, &eight),
        Err(Fatal::UnrecognizedFragment)
    );
    assert_eq!(
        classify_fragment(0x3, 0x2, 0, &empty),
        Err(Fatal::UnrecognizedFragment)
    );
}

#[test]
fn complete_transaction_reconstructs_one_request_and_transmits_descriptor() {
    let mut ctl = UsbController::new();
    ctl.queue.push_back(setup_get_descriptor());
    ctl.queue.push_back(ReceivedFragment::SetupComplete);
    let r = ctl.on_out_endpoint(true, true, 1);
    match r {
        Ok(OutAction::Transmit(plan)) => {
            assert_eq!(plan.byte_cnt, 18);
            assert_eq!(plan.words.len(), 5);
            for i in 0..18 {
                assert_eq!(word_byte(&plan.words, i), DEVICE_DESCRIPTOR_BYTES[i]);
            }
            // Padding bytes of the final word are zero.
            assert_eq!(plan.words[4] >> 16, 0);
        }
        other => panic!("expected a transmit, got {:?}", action_name(&other)),
    }
    // The queue was fully consumed and the transmit is pending.
    assert_eq!(ctl.queue.len(), 0);
    assert!(ctl.tx_pending);
    assert!(ctl.device.diepctl0_epena);
    assert!(ctl.device.diepctl0_cnak);
    assert_eq!(ctl.device.dieptsiz0_pktcnt, 1);
    assert_eq!(ctl.device.dieptsiz0_xfrsiz, 18);
}

fn action_name(r: &Result<OutAction, Fatal>) -> &'static str {
    match r {
        Ok(OutAction::Idle) => "Idle",
        Ok(OutAction::Deferred) => "Deferred",
        Ok(OutAction::Ignored) => "Ignored",
        Ok(OutAction::AddressSet) => "AddressSet",
        Ok(OutAction::Transmit(_)) => "Transmit",
        Err(_) => "Err",
    }
}

#[test]
fn emitted_device_descriptor_bytes_are_exact() {
    let encoded = DeviceDescriptor::device().encode();
    assert_eq!(encoded, DEVICE_DESCRIPTOR_BYTES.to_vec());
}

#[test]
fn unmatched_setup_data_is_restored_to_the_front_unchanged() {
    let fragment = setup_get_descriptor();
    let mut q = FragmentQueue::new();
    q.push_back(fragment);
    let r = q.pop_transaction();
    assert_eq!(r, ScanResult::Incomplete);
    assert_eq!(q.len(), 1);
    assert_eq!(q.items[0], fragment);
}

#[test]
fn deferred_event_leaves_device_state_alone() {
    let fragment = setup_get_descriptor();
    let mut ctl = UsbController::new();
    ctl.queue.push_back(fragment);
    let device_before = ctl.device;
    let r = ctl.on_out_endpoint(true, true, 1);
    assert!(matches!(r, Ok(OutAction::Deferred)));
    assert_eq!(ctl.queue.len(), 1);
    assert_eq!(ctl.queue.items[0], fragment);
    assert_eq!(ctl.device, device_before);
    assert!(!ctl.tx_pending);
}

#[test]
fn oversize_payload_is_fatal_and_reaches_no_fifo_write() {
    let mut ctl = UsbController::new();
    let before_device = ctl.device;
    let before_global = ctl.global;
    let payload: Vec<u8> = vec![0xaa; 64];
    let r = ctl.try_send(&payload);
    // No plan comes back, so there are no words to write to the FIFO.
    assert!(matches!(r, Err(Fatal::OversizePayload)));
    assert_eq!(ctl.device, before_device);
    assert_eq!(ctl.global, before_global);
    assert!(!ctl.tx_pending);
}

#[test]
fn payload_just_under_the_packet_size_is_accepted() {
    let mut ctl = UsbController::new();
    let payload: Vec<u8> = (0u8..63).collect();
    let plan = ctl.try_send(&payload).unwrap();
    assert_eq!(plan.byte_cnt, 63);
    assert_eq!(plan.words.len(), 16);
    for i in 0..63 {
        assert_eq!(word_byte(&plan.words, i), i as u8);
    }
    assert_eq!(ctl.device.dieptsiz0_xfrsiz, 63);
    assert!(ctl.tx_pending);
}

#[test]
fn excess_outstanding_setup_count_is_fatal() {
    let mut ctl = UsbController::new();
    ctl.queue.push_back(setup_get_descriptor());
    ctl.queue.push_back(ReceivedFragment::SetupComplete);
    let r = ctl.on_out_endpoint(true, true, SETUP_PACKET_LIMIT + 1);
    assert!(matches!(r, Err(Fatal::SetupCountOutOfRange)));
    // Nothing was consumed.
    assert_eq!(ctl.queue.len(), 2);
}

#[test]
fn no_setup_condition_means_idle() {
    let mut ctl = UsbController::new();
    ctl.queue.push_back(setup_get_descriptor());
    let r = ctl.on_out_endpoint(true, false, 0);
    assert!(matches!(r, Ok(OutAction::Idle)));
    let r = ctl.on_out_endpoint(false, true, 0);
    assert!(matches!(r, Ok(OutAction::Idle)));
    assert_eq!(ctl.queue.len(), 1);
}

#[test]
fn set_address_latches_the_device_address() {
    let mut ctl = UsbController::new();
    ctl.queue.push_back(ReceivedFragment::SetupData {
        request_type: 0x00,
        request: 5,
        value: 0x002a,
        index: 0,
        length: 0,
    });
    ctl.queue.push_back(ReceivedFragment::SetupComplete);
    let r = ctl.on_out_endpoint(true, true, 1);
    assert!(matches!(r, Ok(OutAction::AddressSet)));
    assert_eq!(ctl.device.dcfg_dad, 0x2a);
    assert_eq!(ctl.device.doeptsiz0_stupcnt, SETUP_PACKET_LIMIT);
}

#[test]
fn short_host_request_truncates_the_descriptor() {
    let mut ctl = UsbController::new();
    ctl.queue.push_back(ReceivedFragment::SetupData {
        request_type: 0x80,
        request: 6,
        value: 0x0100,
        index: 0,
        length: 8,
    });
    ctl.queue.push_back(ReceivedFragment::SetupComplete);
    let r = ctl.on_out_endpoint(true, true, 1);
    match r {
        Ok(OutAction::Transmit(plan)) => {
            assert_eq!(plan.byte_cnt, 8);
            assert_eq!(plan.words.len(), 2);
            for i in 0..8 {
                assert_eq!(word_byte(&plan.words, i), DEVICE_DESCRIPTOR_BYTES[i]);
            }
        }
        other => panic!("expected a transmit, got {:?}", action_name(&other)),
    }
    assert_eq!(ctl.device.dieptsiz0_xfrsiz, 8);
}

#[test]
fn other_descriptor_types_are_ignored_and_endpoint_rearmed() {
    let mut ctl = UsbController::new();
    ctl.queue.push_back(ReceivedFragment::SetupData {
        request_type: 0x80,
        request: 6,
        value: 0x0200,
        index: 0,
        length: 9,
    });
    ctl.queue.push_back(ReceivedFragment::SetupComplete);
    let r = ctl.on_out_endpoint(true, true, 1);
    assert!(matches!(r, Ok(OutAction::Ignored)));
    assert!(!ctl.tx_pending);
    assert_eq!(ctl.device.doeptsiz0_stupcnt, SETUP_PACKET_LIMIT);
}

#[test]
fn unknown_requests_are_ignored_and_endpoint_rearmed() {
    let mut ctl = UsbController::new();
    ctl.queue.push_back(ReceivedFragment::SetupData {
        request_type: 0x00,
        request: 9,
        value: 0x0001,
        index: 0,
        length: 0,
    });
    ctl.queue.push_back(ReceivedFragment::SetupComplete);
    let r = ctl.on_out_endpoint(true, true, 1);
    assert!(matches!(r, Ok(OutAction::Ignored)));
    assert_eq!(ctl.device.doeptsiz0_stupcnt, SETUP_PACKET_LIMIT);
}

#[test]
fn later_setup_data_supersedes_an_earlier_one() {
    let mut ctl = UsbController::new();
    ctl.queue.push_back(ReceivedFragment::SetupData {
        request_type: 0x00,
        request: 9,
        value: 0,
        index: 0,
        length: 0,
    });
    ctl.queue.push_back(setup_get_descriptor());
    ctl.queue.push_back(ReceivedFragment::SetupComplete);
    let r = ctl.on_out_endpoint(true, true, 3);
    assert!(matches!(r, Ok(OutAction::Transmit(_))));
    assert_eq!(ctl.queue.len(), 0);
}

#[test]
fn extract_bytes_unpacks_little_endian_and_discards_padding() {
    let words: Vec<u32> = vec![0x0302_0100, 0x0000_0504];
    let bytes = extract_bytes(&words, 6);
    assert_eq!(bytes, vec![0, 1, 2, 3, 4, 5]);
    let none = extract_bytes(&vec![], 0);
    assert!(none.is_empty());
}

#[test]
fn full_status_word_dispatches_every_handler_once_in_order() {
    let plan = dispatch_plan(0xffff_ffff, 0xffff_ffff);
    assert_eq!(
        plan,
        vec![
            HandlerId::ModeMismatch,
            HandlerId::OtgEvent,
            HandlerId::RxFifoNonEmpty,
            HandlerId::UsbReset,
            HandlerId::EnumerationDone,
            HandlerId::InEndpoint,
            HandlerId::OutEndpoint,
        ]
    );
}
