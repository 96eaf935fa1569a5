use joybus::session::{
    identify_request, Controller, CMD_IDENTIFY, CMD_POLL, CMD_POLL_SUB, IDENTIFY_RESPONSE_LEN,
    POLL_RESPONSE_LEN,
};
use joybus::transfer::{
    collect_response, control_word, idle_delay_us, request_word, transfer_words, BusSchedule,
    IDLE_BASE_US, IDLE_PER_BYTE_US, MAX_RESPONSE_LEN, RESPONSE_TIMEOUT_US,
};

#[test]
fn control_word_carries_length_minus_one_in_top_bits() {
    assert_eq!(control_word(1), 0x0000_0000);
    assert_eq!(control_word(3), 0x0200_0000);
    assert_eq!(control_word(8), 0x0700_0000);
    assert_eq!(control_word(32), 0x1F00_0000);
}

#[test]
fn request_word_left_aligns_the_byte() {
    assert_eq!(request_word(0x41), 0x4100_0000);
    assert_eq!(request_word(0x00), 0x0000_0000);
    assert_eq!(request_word(0xFF), 0xFF00_0000);
}

#[test]
fn transfer_pushes_control_word_first() {
    let request = vec![0x40u8, 0x03, 0x01];
    let words = transfer_words(&request, 8);
    assert_eq!(
        words,
        vec![0x0700_0000, 0x4000_0000, 0x0300_0000, 0x0100_0000]
    );
    let words = transfer_words(&vec![0x41u8], 3);
    assert_eq!(words, vec![0x0200_0000, 0x4100_0000]);
}

#[test]
fn full_response_is_kept_intact() {
    let events = vec![Some(1u8), Some(2), Some(3)];
    assert_eq!(collect_response(&events), vec![1, 2, 3]);
}

#[test]
fn timeout_zero_pads_the_tail() {
    // Bytes after the first timeout are dropped even if a later wait
    // would have delivered one.
    let events = vec![Some(0xAAu8), Some(0xBB), None, Some(0xCC), None];
    assert_eq!(collect_response(&events), vec![0xAA, 0xBB, 0, 0, 0]);
}

#[test]
fn immediate_timeout_yields_all_zero() {
    let events = vec![None, Some(9u8), Some(9)];
    assert_eq!(collect_response(&events), vec![0, 0, 0]);
}

#[test]
fn empty_exchange_yields_empty_response() {
    let events: Vec<Option<u8>> = Vec::new();
    assert_eq!(collect_response(&events), Vec::<u8>::new());
}

#[test]
fn idle_delay_follows_the_spacing_formula() {
    // Identification: 1 request byte, 3 response bytes.
    assert_eq!(idle_delay_us(1, 3), 466);
    // Poll: 3 request bytes, 8 response bytes.
    assert_eq!(idle_delay_us(3, 8), 494);
    assert_eq!(idle_delay_us(0, 0), IDLE_BASE_US);
    assert_eq!(
        idle_delay_us(2, 5),
        IDLE_PER_BYTE_US * 7 + IDLE_BASE_US
    );
}

#[test]
fn bus_schedule_enforces_the_idle_gap() {
    let mut bus = BusSchedule::new();
    assert!(bus.may_start(0));
    // A poll ends at t = 10_000 us.
    bus.record_transfer_end(10_000, 3, 8);
    assert_eq!(bus.earliest_next_start_us, 10_494);
    assert!(!bus.may_start(10_000));
    assert!(!bus.may_start(10_493));
    assert!(bus.may_start(10_494));
    assert!(bus.may_start(20_000));
}

#[test]
fn protocol_constants() {
    assert_eq!(CMD_IDENTIFY, 0x41);
    assert_eq!(IDENTIFY_RESPONSE_LEN, 3);
    assert_eq!(CMD_POLL, 0x40);
    assert_eq!(CMD_POLL_SUB, 0x03);
    assert_eq!(POLL_RESPONSE_LEN, 8);
    assert_eq!(MAX_RESPONSE_LEN, 32);
    assert_eq!(RESPONSE_TIMEOUT_US, 600);
}

#[test]
fn identify_request_is_the_single_command_byte() {
    assert_eq!(identify_request(), [0x41]);
}

#[test]
fn poll_request_embeds_the_rumble_flag() {
    let mut link = Controller::new();
    assert_eq!(link.poll_request(), [0x40, 0x03, 0x00]);
    link.set_rumble(true);
    assert_eq!(link.poll_request(), [0x40, 0x03, 0x01]);
    link.set_rumble(false);
    assert_eq!(link.poll_request(), [0x40, 0x03, 0x00]);
}

#[test]
fn fresh_link_is_neutral() {
    let link = Controller::new();
    assert_eq!(*link.get_controller_state(), [0u8; 8]);
    let state = link.current_state();
    assert!(!state.a());
    assert_eq!(state.ax(), 0);
}

#[test]
fn poll_result_replaces_state_wholesale() {
    let mut link = Controller::new();
    link.apply_poll_response([0xFF; 8]);
    assert_eq!(*link.get_controller_state(), [0xFF; 8]);
    // A timed-out poll's zero padding replaces old bytes; nothing is kept.
    link.apply_poll_response([0x12, 0x48, 0, 0, 0, 0, 0, 0]);
    assert_eq!(
        *link.get_controller_state(),
        [0x12, 0x48, 0, 0, 0, 0, 0, 0]
    );
}

#[test]
fn poll_events_land_in_the_stored_state() {
    let mut link = Controller::new();
    link.apply_poll_response([0xEE; 8]);
    let events = vec![
        Some(0x01u8),
        Some(0x48),
        Some(0x80),
        None,
        Some(0x80),
        Some(0x80),
        None,
        Some(0x20),
    ];
    link.apply_poll_events(&events);
    // Prefix intact up to the first timeout, zeros from there on; no old
    // byte survives.
    assert_eq!(
        *link.get_controller_state(),
        [0x01, 0x48, 0x80, 0, 0, 0, 0, 0]
    );
}

#[test]
fn current_state_decodes_the_stored_buffer() {
    let mut link = Controller::new();
    link.apply_poll_response([0x01, 0x48, 0x80, 0x80, 0x80, 0x80, 0x10, 0x20]);
    let state = link.current_state();
    assert!(state.a());
    assert!(state.l());
    assert!(state.dpad_up());
    assert_eq!(state.ax(), 0x80);
    assert_eq!(state.al(), 0x10);
    assert_eq!(state.ar(), 0x20);
}

#[test]
fn set_rumble_leaves_state_untouched() {
    let mut link = Controller::new();
    link.apply_poll_response([7; 8]);
    link.set_rumble(true);
    assert_eq!(*link.get_controller_state(), [7u8; 8]);
}
