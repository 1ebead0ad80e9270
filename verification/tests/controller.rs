use raio_lcd::display::RaioDisplay;
use raio_lcd::frame::Frame;

fn w8(out: &mut Vec<Frame>, addr: u8, v: u8) {
    out.push(Frame::CmdWrite(addr));
    out.push(Frame::DataWrite(v));
}

fn rd(out: &mut Vec<Frame>, addr: u8) {
    out.push(Frame::CmdWrite(addr));
    out.push(Frame::DataRead);
}

#[test]
fn display_size_uses_the_divide_and_minus_one_encodings() {
    // 1024/8 - 1 = 127 into the width register; 600 - 1 = 599 split low/high.
    let mut d = RaioDisplay::new(vec![]);
    d.set_display_size(1024, 600);
    let mut expected = Vec::new();
    w8(&mut expected, 0x14, 127);
    w8(&mut expected, 0x15, 0);
    w8(&mut expected, 0x1A, 0x57);
    w8(&mut expected, 0x1B, 0x02);
    assert_eq!(d.take_frames(), expected);
}

#[test]
fn back_porch_uses_the_same_encodings() {
    let mut d = RaioDisplay::new(vec![]);
    d.set_back_porch(160, 23);
    let mut expected = Vec::new();
    w8(&mut expected, 0x16, 19);
    w8(&mut expected, 0x17, 0);
    w8(&mut expected, 0x1C, 22);
    w8(&mut expected, 0x1D, 0);
    assert_eq!(d.take_frames(), expected);
}

#[test]
fn front_porch_writes_value_minus_one() {
    let mut d = RaioDisplay::new(vec![]);
    d.set_front_porch(160, 12);
    let mut expected = Vec::new();
    w8(&mut expected, 0x18, 159);
    w8(&mut expected, 0x1E, 11);
    assert_eq!(d.take_frames(), expected);
}

#[test]
fn enable_display_toggle_restores_unrelated_bits() {
    // A register store with arbitrary non-zero bits: 0xB5. The on-toggle
    // writes 0xF5; reading that back, the off-toggle writes 0xB5 again.
    let mut d = RaioDisplay::new(vec![0xB5, 0xF5]);
    d.enable_display(true);
    d.enable_display(false);
    let mut expected = Vec::new();
    rd(&mut expected, 0x12);
    w8(&mut expected, 0x12, 0xF5);
    rd(&mut expected, 0x12);
    w8(&mut expected, 0x12, 0xB5);
    assert_eq!(d.take_frames(), expected);
}

#[test]
fn enable_test_pattern_drives_only_its_bit() {
    let mut d = RaioDisplay::new(vec![0x81, 0xA1]);
    d.enable_test_pattern(true);
    d.enable_test_pattern(false);
    let mut expected = Vec::new();
    rd(&mut expected, 0x12);
    w8(&mut expected, 0x12, 0xA1);
    rd(&mut expected, 0x12);
    w8(&mut expected, 0x12, 0x81);
    assert_eq!(d.take_frames(), expected);
}

#[test]
fn enable_text_mode_sets_its_bit_and_the_red_channel() {
    let mut d = RaioDisplay::new(vec![0x00]);
    d.enable_text_mode(true);
    let mut expected = Vec::new();
    rd(&mut expected, 0x03);
    w8(&mut expected, 0x03, 0x04);
    w8(&mut expected, 0xD2, 0xFF);
    assert_eq!(d.take_frames(), expected);
}

#[test]
fn init_memory_programs_attributes_then_starts_and_polls() {
    // Control register reads back 0x00; the poll sees one busy byte before
    // the done bit.
    let mut d = RaioDisplay::new(vec![0x00, 0x00, 0x01]);
    d.init_memory();
    let mut expected = Vec::new();
    w8(&mut expected, 0xE0, 0x29);
    w8(&mut expected, 0xE2, 0x0D);
    w8(&mut expected, 0xE3, 0x02);
    rd(&mut expected, 0xE4);
    w8(&mut expected, 0xE4, 0x01);
    rd(&mut expected, 0xE4);
    rd(&mut expected, 0xE4);
    assert_eq!(d.take_frames(), expected);
}

#[test]
fn init_display_runs_the_whole_bring_up_in_order() {
    // One ready status byte, the control register readback, one immediate
    // init-done byte.
    let mut d = RaioDisplay::new(vec![0x00, 0x00, 0x01]);
    d.init_display();
    let mut expected = Vec::new();
    expected.push(Frame::StatusRead);
    // SDRAM bring-up
    w8(&mut expected, 0xE0, 0x29);
    w8(&mut expected, 0xE2, 0x0D);
    w8(&mut expected, 0xE3, 0x02);
    rd(&mut expected, 0xE4);
    w8(&mut expected, 0xE4, 0x01);
    rd(&mut expected, 0xE4);
    // geometry
    w8(&mut expected, 0x14, 127);
    w8(&mut expected, 0x15, 0);
    w8(&mut expected, 0x1A, 0x57);
    w8(&mut expected, 0x1B, 0x02);
    w8(&mut expected, 0x16, 19);
    w8(&mut expected, 0x17, 0);
    w8(&mut expected, 0x1C, 22);
    w8(&mut expected, 0x1D, 0);
    w8(&mut expected, 0x18, 159);
    w8(&mut expected, 0x1E, 11);
    // image and active-window widths
    w8(&mut expected, 0x24, 0x00);
    w8(&mut expected, 0x25, 0x04);
    w8(&mut expected, 0x5A, 0x00);
    w8(&mut expected, 0x5B, 0x04);
    w8(&mut expected, 0x5C, 0x58);
    w8(&mut expected, 0x5D, 0x02);
    w8(&mut expected, 0x54, 0x00);
    w8(&mut expected, 0x55, 0x04);
    // pixel format, system configuration, sync polarity, display control
    w8(&mut expected, 0x10, 0x08);
    w8(&mut expected, 0x5E, 0x02);
    w8(&mut expected, 0x01, 0x00);
    w8(&mut expected, 0x13, 0xC0);
    w8(&mut expected, 0x12, 0xC0);
    assert_eq!(d.take_frames(), expected);
}

#[test]
fn set_cursor_programs_only_the_horizontal_pair() {
    let mut d = RaioDisplay::new(vec![]);
    d.set_cursor(0x0305, 7);
    let mut expected = Vec::new();
    w8(&mut expected, 0x5F, 0x05);
    w8(&mut expected, 0x60, 0x03);
    assert_eq!(d.take_frames(), expected);
}

#[test]
fn set_text_cursor_programs_both_pairs() {
    let mut d = RaioDisplay::new(vec![]);
    d.set_text_cursor(0x0102, 0x0304);
    let mut expected = Vec::new();
    w8(&mut expected, 0x63, 0x02);
    w8(&mut expected, 0x64, 0x01);
    w8(&mut expected, 0x65, 0x04);
    w8(&mut expected, 0x66, 0x03);
    assert_eq!(d.take_frames(), expected);
}

#[test]
fn get_text_cursor_y_reassembles_low_then_high() {
    let mut d = RaioDisplay::new(vec![0x34, 0x12]);
    let y = d.get_text_cursor_y();
    assert_eq!(y, 0x1234);
    let mut expected = Vec::new();
    rd(&mut expected, 0x65);
    rd(&mut expected, 0x66);
    assert_eq!(d.take_frames(), expected);
}
