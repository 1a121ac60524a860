use st7789_pipeline::bus::BusOp;
use st7789_pipeline::controller::{DisplayState, DriverError, Orientation, PinRole, St7789};

fn is_cmd(op: &BusOp, c: u8) -> bool {
    matches!(op, BusOp::Command(x) if *x == c)
}

fn data_of(op: &BusOp) -> &[u8] {
    match op {
        BusOp::Data(d) => d,
        _ => panic!("expected a data burst"),
    }
}

fn ready_controller() -> St7789 {
    let mut c = St7789::new(320, 240, PinRole::Present, PinRole::Present);
    c.hard_reset();
    c.init().unwrap();
    c.set_address_window(0, 0, 319, 239).unwrap();
    c
}

#[test]
fn address_window_emits_caset_raset_ramwr_in_order() {
    let mut c = St7789::new(320, 240, PinRole::Present, PinRole::Present);
    c.hard_reset();
    c.init().unwrap();
    let ops = c.set_address_window(5, 7, 300, 200).unwrap();
    assert_eq!(ops.len(), 5);
    assert!(is_cmd(&ops[0], 0x2A));
    assert_eq!(data_of(&ops[1]), &[0x00, 0x05, 0x01, 0x2C]);
    assert!(is_cmd(&ops[2], 0x2B));
    assert_eq!(data_of(&ops[3]), &[0x00, 0x07, 0x00, 0xC8]);
    assert!(is_cmd(&ops[4], 0x2C));
    let commands: Vec<usize> = ops
        .iter()
        .enumerate()
        .filter(|(_, op)| matches!(op, BusOp::Command(_)))
        .map(|(i, _)| i)
        .collect();
    assert_eq!(commands, vec![0, 2, 4]);
}

#[test]
fn address_window_full_panel_bounds() {
    let mut c = St7789::new(320, 240, PinRole::Present, PinRole::Present);
    c.hard_reset();
    c.init().unwrap();
    let ops = c.set_address_window(0, 0, 319, 239).unwrap();
    assert_eq!(data_of(&ops[1]), &[0x00, 0x00, 0x01, 0x3F]);
    assert_eq!(data_of(&ops[3]), &[0x00, 0x00, 0x00, 0xEF]);
}

#[test]
fn orientation_bytes_match_bit_table() {
    let cases = [
        (Orientation::Portrait, 0x00u8),
        (Orientation::Landscape, 0x60u8),
        (Orientation::PortraitSwapped, 0xC0u8),
        (Orientation::LandscapeSwapped, 0xA0u8),
    ];
    for (mode, byte) in cases {
        let mut c = St7789::new(320, 240, PinRole::Present, PinRole::Present);
        c.hard_reset();
        c.init().unwrap();
        let ops = c.set_orientation(mode).unwrap();
        assert_eq!(ops.len(), 2);
        assert!(is_cmd(&ops[0], 0x36));
        assert_eq!(data_of(&ops[1]), &[byte]);
    }
}

#[test]
fn hard_reset_pulse_and_settle() {
    let mut c = St7789::new(320, 240, PinRole::Present, PinRole::Absent);
    let ops = c.hard_reset();
    assert_eq!(ops.len(), 6);
    assert!(matches!(ops[0], BusOp::RstHigh));
    assert!(matches!(ops[2], BusOp::RstLow));
    match ops[3] {
        BusOp::DelayUs(us) => assert!(us >= 10),
        _ => panic!("reset line must stay low for the minimum pulse width"),
    }
    assert!(matches!(ops[4], BusOp::RstHigh));
    match ops[5] {
        BusOp::DelayUs(us) => assert!(us >= 120_000),
        _ => panic!("reset must end with the settle delay"),
    }
}

#[test]
fn hard_reset_without_pin_is_a_no_op() {
    let mut c = St7789::new(320, 240, PinRole::Absent, PinRole::Absent);
    let ops = c.hard_reset();
    assert!(ops.is_empty());
    assert_eq!(c.current_state(), DisplayState::Reset);
}

#[test]
fn init_sequence_order_and_delays() {
    let mut c = St7789::new(320, 240, PinRole::Present, PinRole::Present);
    c.hard_reset();
    let ops = c.init().unwrap();
    assert!(matches!(ops[0], BusOp::BacklightOn));
    assert!(is_cmd(&ops[1], 0x11));
    assert!(matches!(ops[2], BusOp::DelayUs(us) if us >= 120_000));
    assert!(is_cmd(&ops[3], 0x3A));
    assert_eq!(data_of(&ops[4]), &[0x55]);
    assert!(is_cmd(&ops[ops.len() - 2], 0x29));
    assert!(matches!(ops[ops.len() - 1], BusOp::DelayUs(_)));
    assert_eq!(c.current_state(), DisplayState::Initialized);
}

#[test]
fn init_without_backlight_pin_skips_backlight() {
    let mut c = St7789::new(320, 240, PinRole::Present, PinRole::Absent);
    c.hard_reset();
    let ops = c.init().unwrap();
    assert!(is_cmd(&ops[0], 0x11));
    assert!(!ops.iter().any(|op| matches!(op, BusOp::BacklightOn)));
}

#[test]
fn eat_framebuffer_transfers_whole_frame_as_one_burst() {
    let mut c = ready_controller();
    let frame = vec![0u8; 320 * 240 * 2];
    let ops = c.eat_framebuffer(frame).unwrap();
    assert_eq!(ops.len(), 1);
    assert_eq!(data_of(&ops[0]).len(), 320 * 240 * 2);
    assert_eq!(c.current_state(), DisplayState::Ready);
}

#[test]
fn end_to_end_320x240() {
    let mut c = St7789::new(320, 240, PinRole::Present, PinRole::Present);
    c.hard_reset();
    assert_eq!(c.current_state(), DisplayState::Reset);
    c.init().unwrap();
    c.set_orientation(Orientation::Landscape).unwrap();
    c.set_address_window(0, 0, 319, 239).unwrap();
    let black = vec![0u8; 320 * 240 * 2];
    c.eat_framebuffer(black).unwrap();
    assert_eq!(c.current_state(), DisplayState::Ready);
}

#[test]
fn eat_framebuffer_before_init_fails() {
    let mut c = St7789::new(320, 240, PinRole::Present, PinRole::Present);
    c.hard_reset();
    let r = c.eat_framebuffer(vec![0u8; 8]);
    assert!(matches!(r, Err(DriverError::WrongState)));
    assert_eq!(c.current_state(), DisplayState::Reset);
}

#[test]
fn init_requires_reset_first() {
    let mut c = St7789::new(320, 240, PinRole::Present, PinRole::Present);
    assert!(matches!(c.init(), Err(DriverError::WrongState)));
    c.hard_reset();
    c.init().unwrap();
    assert!(matches!(c.init(), Err(DriverError::WrongState)));
}

#[test]
fn orientation_needs_initialized_state() {
    let mut c = St7789::new(320, 240, PinRole::Present, PinRole::Present);
    let r = c.set_orientation(Orientation::Portrait);
    assert!(matches!(r, Err(DriverError::WrongState)));
}

#[test]
fn window_out_of_panel_is_rejected() {
    let mut c = St7789::new(320, 240, PinRole::Present, PinRole::Present);
    c.hard_reset();
    c.init().unwrap();
    let r = c.set_address_window(0, 0, 320, 239);
    assert!(matches!(r, Err(DriverError::InvalidWindow)));
    let r = c.set_address_window(0, 0, 319, 240);
    assert!(matches!(r, Err(DriverError::InvalidWindow)));
    assert_eq!(c.current_state(), DisplayState::Initialized);
}

#[test]
fn inverted_window_is_rejected() {
    let mut c = St7789::new(320, 240, PinRole::Present, PinRole::Present);
    c.hard_reset();
    c.init().unwrap();
    let r = c.set_address_window(10, 0, 5, 239);
    assert!(matches!(r, Err(DriverError::InvalidWindow)));
    let r = c.set_address_window(0, 100, 319, 50);
    assert!(matches!(r, Err(DriverError::InvalidWindow)));
}

#[test]
fn window_before_init_reports_wrong_state() {
    let mut c = St7789::new(320, 240, PinRole::Present, PinRole::Present);
    let r = c.set_address_window(0, 0, 319, 239);
    assert!(matches!(r, Err(DriverError::WrongState)));
}

#[test]
fn hard_reset_restarts_from_any_state() {
    let mut c = ready_controller();
    assert_eq!(c.current_state(), DisplayState::Ready);
    c.hard_reset();
    assert_eq!(c.current_state(), DisplayState::Reset);
    let r = c.eat_framebuffer(vec![0u8; 8]);
    assert!(matches!(r, Err(DriverError::WrongState)));
}
