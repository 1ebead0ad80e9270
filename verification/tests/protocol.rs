use raio_lcd::display::RaioDisplay;
use raio_lcd::frame::Frame;
use raio_lcd::regs::RaioRegister;

#[test]
fn cmd_write_frame_encodes_mode_then_address() {
    assert_eq!(Frame::CmdWrite(0x14).encode(), vec![0x00, 0x14]);
}

#[test]
fn data_write_frame_encodes_mode_then_payload() {
    assert_eq!(Frame::DataWrite(0xAB).encode(), vec![0x80, 0xAB]);
}

#[test]
fn read_frames_encode_mode_then_dummy() {
    assert_eq!(Frame::DataRead.encode(), vec![0xC0, 0x00]);
    assert_eq!(Frame::StatusRead.encode(), vec![0x40, 0x00]);
}

#[test]
fn burst_frame_is_one_window_with_command_and_data_mode() {
    let f = Frame::BurstWrite(0xA7, vec![1, 2, 3, 4]);
    assert_eq!(f.encode(), vec![0x00, 0xA7, 0x80, 1, 2, 3, 4]);
}

#[test]
fn be32_bytes_are_big_endian() {
    assert_eq!(Frame::be32_bytes(0xDEAD_BEEF), vec![0xDE, 0xAD, 0xBE, 0xEF]);
    assert_eq!(Frame::be32_bytes(0), vec![0, 0, 0, 0]);
}

#[test]
fn write_register_issues_command_then_data() {
    let mut d = RaioDisplay::new(vec![]);
    d.write_register(RaioRegister::Ccr, 0xAB);
    assert_eq!(
        d.take_frames(),
        vec![Frame::CmdWrite(0x01), Frame::DataWrite(0xAB)]
    );
}

#[test]
fn write_register16_puts_low_at_base_and_high_above() {
    let mut d = RaioDisplay::new(vec![]);
    d.write_register16(RaioRegister::F_CURX0, 0x1234);
    assert_eq!(
        d.take_frames(),
        vec![
            Frame::CmdWrite(0x63),
            Frame::DataWrite(0x34),
            Frame::CmdWrite(0x64),
            Frame::DataWrite(0x12),
        ]
    );
}

#[test]
fn write_register32_is_a_single_big_endian_burst() {
    let mut d = RaioDisplay::new(vec![]);
    d.write_register32(RaioRegister::DtStr0, 0x0102_0304);
    assert_eq!(
        d.take_frames(),
        vec![Frame::BurstWrite(0xA7, vec![1, 2, 3, 4])]
    );
}

#[test]
fn read_register_selects_then_reads_and_returns_the_response() {
    let mut d = RaioDisplay::new(vec![0x5A]);
    let r = d.read_register(RaioRegister::DPCR);
    assert_eq!(r, 0x5A);
    assert_eq!(d.take_frames(), vec![Frame::CmdWrite(0x12), Frame::DataRead]);
}

#[test]
fn read_status_returns_the_next_response() {
    let mut d = RaioDisplay::new(vec![0x40, 0x08]);
    assert_eq!(d.read_status(), 0x40);
    assert_eq!(d.read_status(), 0x08);
    assert_eq!(d.take_frames(), vec![Frame::StatusRead, Frame::StatusRead]);
}

#[test]
fn poll_status_reads_until_the_bit_clears() {
    let mut d = RaioDisplay::new(vec![0x08, 0x08, 0x00, 0x77]);
    let r = d.poll_status(0x08, false);
    assert_eq!(r, 0x00);
    assert_eq!(
        d.issued_frames().clone(),
        vec![Frame::StatusRead, Frame::StatusRead, Frame::StatusRead]
    );
}

#[test]
fn poll_status_can_wait_for_a_set_bit() {
    let mut d = RaioDisplay::new(vec![0x00, 0x40]);
    let r = d.poll_status(0x40, true);
    assert_eq!(r, 0x40);
    assert_eq!(d.take_frames(), vec![Frame::StatusRead, Frame::StatusRead]);
}

#[test]
fn poll_register_selects_and_reads_each_iteration() {
    let mut d = RaioDisplay::new(vec![0x10, 0x00]);
    let r = d.poll_register(RaioRegister::BTE_CTRL0, 0x10, false);
    assert_eq!(r, 0x00);
    assert_eq!(
        d.take_frames(),
        vec![
            Frame::CmdWrite(0x90),
            Frame::DataRead,
            Frame::CmdWrite(0x90),
            Frame::DataRead,
        ]
    );
}

#[test]
fn wait_polls_the_core_busy_bit_until_clear() {
    let mut d = RaioDisplay::new(vec![0x08, 0x00]);
    d.wait();
    assert_eq!(d.take_frames(), vec![Frame::StatusRead, Frame::StatusRead]);
}
