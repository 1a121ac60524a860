use st7789_pipeline::framebuffer::DmaReadyFramebuffer;
use st7789_pipeline::render::{next_phase, steer, Phase};
use st7789_pipeline::swapchain::Swapchain;

#[test]
fn pixel_bytes_swapped_on_the_wire() {
    let mut fb = DmaReadyFramebuffer::new(1, 1, true);
    fb.set_pixel(0, 0, 0xABCD);
    assert_eq!(fb.to_bytes(), vec![0xCD, 0xAB]);
}

#[test]
fn pixel_bytes_unswapped_on_the_wire() {
    let mut fb = DmaReadyFramebuffer::new(1, 1, false);
    fb.set_pixel(0, 0, 0xABCD);
    assert_eq!(fb.to_bytes(), vec![0xAB, 0xCD]);
}

#[test]
fn transfer_view_is_exactly_two_bytes_per_pixel() {
    let fb = DmaReadyFramebuffer::new(320, 240, true);
    assert_eq!(fb.to_bytes().len(), 320 * 240 * 2);
    let fb = DmaReadyFramebuffer::new(13, 7, false);
    assert_eq!(fb.to_bytes().len(), 13 * 7 * 2);
}

#[test]
fn new_frame_is_black() {
    let fb = DmaReadyFramebuffer::new(2, 2, true);
    assert_eq!(fb.to_bytes(), vec![0u8; 8]);
}

#[test]
fn pixels_are_row_major() {
    let mut fb = DmaReadyFramebuffer::new(3, 2, false);
    fb.set_pixel(1, 0, 0x0001);
    fb.set_pixel(0, 1, 0x0002);
    let bytes = fb.to_bytes();
    assert_eq!(bytes[2 * 1 + 1], 0x01);
    assert_eq!(bytes[2 * 3 + 1], 0x02);
}

#[test]
fn out_of_range_writes_are_ignored() {
    let mut fb = DmaReadyFramebuffer::new(2, 2, false);
    fb.set_pixel(2, 0, 0xFFFF);
    fb.set_pixel(0, 2, 0xFFFF);
    fb.set_at_offset(4, 0xFFFF);
    assert_eq!(fb.to_bytes(), vec![0u8; 8]);
}

#[test]
fn write_by_raw_offset() {
    let mut fb = DmaReadyFramebuffer::new(2, 1, false);
    fb.set_at_offset(1, 0x1234);
    assert_eq!(fb.to_bytes(), vec![0x00, 0x00, 0x12, 0x34]);
}

#[test]
fn clear_fills_every_pixel() {
    let mut fb = DmaReadyFramebuffer::new(2, 2, true);
    fb.set_pixel(0, 0, 0xABCD);
    fb.clear(0x1234);
    assert_eq!(fb.to_bytes(), vec![0x34, 0x12, 0x34, 0x12, 0x34, 0x12, 0x34, 0x12]);
}

#[test]
fn swap_hands_composed_frame_to_the_front_role() {
    let mut sc = Swapchain::new(1, 1, false, true);
    sc.set_back_pixel(0, 0, 0xABCD);
    assert_eq!(sc.composed_bytes(), vec![0xAB, 0xCD]);
    assert_eq!(sc.front_bytes(), vec![0x00, 0x00]);
    sc.swap();
    assert_eq!(sc.front_bytes(), vec![0xAB, 0xCD]);
    assert_eq!(sc.composed_bytes(), vec![0x00, 0x00]);
}

#[test]
fn composer_never_writes_into_the_front_frame() {
    let mut sc = Swapchain::new(1, 1, false, true);
    sc.set_back_pixel(0, 0, 0xABCD);
    sc.swap();
    sc.set_back_pixel(0, 0, 0x1234);
    sc.clear_back(0x5678);
    assert_eq!(sc.front_bytes(), vec![0xAB, 0xCD]);
    sc.swap();
    assert_eq!(sc.front_bytes(), vec![0x56, 0x78]);
}

#[test]
fn single_buffer_mode_shares_the_one_frame() {
    let mut sc = Swapchain::new(1, 1, false, false);
    sc.set_back_pixel(0, 0, 0xABCD);
    assert_eq!(sc.composed_bytes(), vec![0xAB, 0xCD]);
    assert_eq!(sc.front_bytes(), vec![0xAB, 0xCD]);
    sc.swap();
    assert_eq!(sc.front_bytes(), vec![0xAB, 0xCD]);
}

#[test]
fn swapchain_clear_back_then_swap_round_trip() {
    let mut sc = Swapchain::new(2, 1, true, true);
    sc.clear_back(0xABCD);
    sc.swap();
    assert_eq!(sc.front_bytes(), vec![0xCD, 0xAB, 0xCD, 0xAB]);
    assert_eq!(sc.composed_bytes(), vec![0x00, 0x00, 0x00, 0x00]);
    sc.swap();
    assert_eq!(sc.composed_bytes(), vec![0xCD, 0xAB, 0xCD, 0xAB]);
}

#[test]
fn loop_phases_with_overlay() {
    let mut p = Phase::Clear;
    let order = [
        Phase::Compose,
        Phase::Overlay,
        Phase::Transfer,
        Phase::Swap,
        Phase::Advance,
        Phase::Clear,
    ];
    for expected in order {
        p = next_phase(p, true);
        assert_eq!(p, expected);
    }
}

#[test]
fn loop_phases_without_overlay() {
    let mut p = Phase::Clear;
    let order = [Phase::Compose, Phase::Transfer, Phase::Swap, Phase::Advance, Phase::Clear];
    for expected in order {
        p = next_phase(p, false);
        assert_eq!(p, expected);
    }
}

#[test]
fn steering_from_button_levels() {
    assert_eq!(steer(true, false), 1);
    assert_eq!(steer(false, true), -1);
    assert_eq!(steer(false, false), 0);
    assert_eq!(steer(true, true), 0);
}
