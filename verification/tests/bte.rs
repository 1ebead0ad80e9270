use raio_lcd::bte::{BteOpCode, BteRasterOpCode, DestColorDepth, S0ColorDepth, S1ColorDepth};
use raio_lcd::display::RaioDisplay;
use raio_lcd::frame::Frame;

fn w8(out: &mut Vec<Frame>, addr: u8, v: u8) {
    out.push(Frame::CmdWrite(addr));
    out.push(Frame::DataWrite(v));
}

fn w16(out: &mut Vec<Frame>, addr: u8, v: u16) {
    w8(out, addr, (v & 0xff) as u8);
    w8(out, addr + 1, (v >> 8) as u8);
}

fn rd(out: &mut Vec<Frame>, addr: u8) {
    out.push(Frame::CmdWrite(addr));
    out.push(Frame::DataRead);
}

#[test]
fn color_depth_byte_packs_the_three_fields() {
    let mut d = RaioDisplay::new(vec![]);
    d.bte_set_color_depth(
        S0ColorDepth::TwentyFourBpp,
        S1ColorDepth::TwentyFourBpp,
        DestColorDepth::TwentyFourBpp,
    );
    let mut expected = Vec::new();
    w8(&mut expected, 0x92, 0x4A);
    assert_eq!(d.take_frames(), expected);
}

#[test]
fn setup_byte_packs_raster_op_and_opcode() {
    let mut d = RaioDisplay::new(vec![]);
    d.bte_setup(BteRasterOpCode::White, BteOpCode::SolidFill);
    let mut expected = Vec::new();
    w8(&mut expected, 0x91, 0xFC);
    assert_eq!(d.take_frames(), expected);
}

#[test]
fn dest_addr_is_one_big_endian_burst() {
    let mut d = RaioDisplay::new(vec![]);
    d.bte_set_dest_addr(0x00AB_CDEF);
    assert_eq!(
        d.take_frames(),
        vec![Frame::BurstWrite(0xA7, vec![0x00, 0xAB, 0xCD, 0xEF])]
    );
}

#[test]
fn dest_position_writes_both_paired_groups() {
    let mut d = RaioDisplay::new(vec![]);
    d.bte_set_dest_position(3, 4);
    let mut expected = Vec::new();
    w16(&mut expected, 0xAD, 3);
    w16(&mut expected, 0xAF, 4);
    assert_eq!(d.take_frames(), expected);
}

#[test]
fn bte_wait_polls_until_the_busy_bit_clears() {
    let mut d = RaioDisplay::new(vec![0x10, 0x10, 0x00]);
    d.bte_wait();
    let mut expected = Vec::new();
    rd(&mut expected, 0x90);
    rd(&mut expected, 0x90);
    rd(&mut expected, 0x90);
    assert_eq!(d.take_frames(), expected);
}

#[test]
fn bte_start_sets_the_enable_bit_reads_back_once_and_waits() {
    let mut d = RaioDisplay::new(vec![0x10, 0x00]);
    d.bte_start();
    let mut expected = Vec::new();
    w8(&mut expected, 0x90, 0x10);
    rd(&mut expected, 0x90);
    rd(&mut expected, 0x90);
    assert_eq!(d.take_frames(), expected);
}

#[test]
fn fill_issues_the_descriptor_writes_in_the_required_order() {
    // Readback 0x10, one busy poll byte, then the busy bit clears.
    let mut d = RaioDisplay::new(vec![0x10, 0x10, 0x00]);
    d.fill();
    let mut expected = Vec::new();
    // dest address
    expected.push(Frame::BurstWrite(0xA7, vec![0, 0, 0, 0]));
    // dest position
    w16(&mut expected, 0xAD, 0);
    w16(&mut expected, 0xAF, 0);
    // color depth
    w8(&mut expected, 0x92, 0x4A);
    // alpha
    w8(&mut expected, 0xB5, 0x20);
    // dest width
    w16(&mut expected, 0xAB, 1024);
    // BTE width and height
    w16(&mut expected, 0xB1, 1024);
    w16(&mut expected, 0xB3, 600);
    // foreground color
    w8(&mut expected, 0xD2, 0);
    w8(&mut expected, 0xD3, 0);
    w8(&mut expected, 0xD4, 0);
    // BTE setup: raster op and opcode
    w8(&mut expected, 0x91, 0xFC);
    // BTE start, readback, busy poll
    w8(&mut expected, 0x90, 0x10);
    rd(&mut expected, 0x90);
    rd(&mut expected, 0x90);
    rd(&mut expected, 0x90);
    assert_eq!(d.take_frames(), expected);
}

#[test]
fn foreground_color_writes_one_register_per_channel() {
    let mut d = RaioDisplay::new(vec![]);
    d.bte_set_foreground_color(0x11, 0x22, 0x33);
    let mut expected = Vec::new();
    w8(&mut expected, 0xD2, 0x11);
    w8(&mut expected, 0xD3, 0x22);
    w8(&mut expected, 0xD4, 0x33);
    assert_eq!(d.take_frames(), expected);
}

#[test]
fn alpha_and_sizes_use_their_registers() {
    let mut d = RaioDisplay::new(vec![]);
    d.bte_alpha(0x20);
    d.bte_set_dest_width(1024);
    d.bte_set_width(1024);
    d.bte_set_height(600);
    let mut expected = Vec::new();
    w8(&mut expected, 0xB5, 0x20);
    w16(&mut expected, 0xAB, 1024);
    w16(&mut expected, 0xB1, 1024);
    w16(&mut expected, 0xB3, 600);
    assert_eq!(d.take_frames(), expected);
}
