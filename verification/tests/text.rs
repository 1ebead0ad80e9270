use raio_lcd::display::RaioDisplay;
use raio_lcd::frame::Frame;

#[test]
fn write_streams_one_burst_to_the_memory_port() {
    let mut d = RaioDisplay::new(vec![]);
    let data = [0u8; 32];
    d.write(&data);
    assert_eq!(d.take_frames(), vec![Frame::BurstWrite(0x04, vec![0u8; 32])]);
}

#[test]
fn write_text_splits_seventeen_bytes_into_sixteen_and_one() {
    // Every poll is answered at once: FIFO empty (bit 6 set), then core idle
    // (bit 3 clear), for each of the two chunks.
    let mut d = RaioDisplay::new(vec![0x40, 0x00, 0x40, 0x00]);
    d.write_text("0123456789ABCDEFG");
    assert_eq!(
        d.take_frames(),
        vec![
            Frame::StatusRead,
            Frame::BurstWrite(0x04, b"0123456789ABCDEF".to_vec()),
            Frame::StatusRead,
            Frame::StatusRead,
            Frame::BurstWrite(0x04, b"G".to_vec()),
            Frame::StatusRead,
        ]
    );
}

#[test]
fn write_text_polls_before_and_after_each_chunk() {
    // The FIFO takes two reads to drain, the busy bit two reads to clear.
    let mut d = RaioDisplay::new(vec![0x00, 0x40, 0x08, 0x00]);
    d.write_text("hi");
    assert_eq!(
        d.take_frames(),
        vec![
            Frame::StatusRead,
            Frame::StatusRead,
            Frame::BurstWrite(0x04, b"hi".to_vec()),
            Frame::StatusRead,
            Frame::StatusRead,
        ]
    );
}

#[test]
fn write_text_of_exactly_sixteen_bytes_is_one_chunk() {
    let mut d = RaioDisplay::new(vec![0x40, 0x00]);
    d.write_text("0123456789ABCDEF");
    assert_eq!(
        d.take_frames(),
        vec![
            Frame::StatusRead,
            Frame::BurstWrite(0x04, b"0123456789ABCDEF".to_vec()),
            Frame::StatusRead,
        ]
    );
}

#[test]
fn empty_text_issues_nothing_and_consumes_nothing() {
    let mut d = RaioDisplay::new(vec![0x40]);
    d.write_text("");
    assert_eq!(d.take_frames(), Vec::<Frame>::new());
}

#[test]
fn thirty_three_bytes_make_three_chunks() {
    let text = "0123456789ABCDEF0123456789ABCDEFX";
    let mut d = RaioDisplay::new(vec![0x40, 0x00, 0x40, 0x00, 0x40, 0x00]);
    d.write_text(text);
    let frames = d.take_frames();
    let bursts: Vec<&Frame> = frames
        .iter()
        .filter(|f| matches!(f, Frame::BurstWrite(_, _)))
        .collect();
    assert_eq!(bursts.len(), 3);
    assert_eq!(
        bursts[0],
        &Frame::BurstWrite(0x04, b"0123456789ABCDEF".to_vec())
    );
    assert_eq!(
        bursts[1],
        &Frame::BurstWrite(0x04, b"0123456789ABCDEF".to_vec())
    );
    assert_eq!(bursts[2], &Frame::BurstWrite(0x04, b"X".to_vec()));
}
