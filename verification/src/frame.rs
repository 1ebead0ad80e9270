use vstd::prelude::*;

verus! {

/// Mode selector for a command-write frame: byte 1 addresses a register.
pub const MODE_CMD_WRITE: u8 = 0x00;

/// Mode selector for a data-write frame: byte 1 carries a data byte.
pub const MODE_DATA_WRITE: u8 = 0x80;

/// Mode selector for a status-read frame: byte 1 of the response carries the
/// status byte.
pub const MODE_STATUS_READ: u8 = 0x40;

/// Mode selector for a data-read frame: byte 1 of the response carries the
/// data byte.
pub const MODE_DATA_READ: u8 = 0xC0;

/// Placeholder clocked out while the controller drives the response byte of a
/// read frame.
pub const DUMMY_BYTE: u8 = 0x00;

/// One bus transaction: everything transferred inside a single chip-select
/// assertion window.
#[derive(Clone, Debug, PartialEq, Eq)]
pub enum Frame {
    /// `[0x00, addr]`: select the register at `addr`.
    CmdWrite(u8),
    /// `[0x80, data]`: write one byte to the selected register.
    DataWrite(u8),
    /// `[0xC0, dummy]`: read one byte from the selected register.
    DataRead,
    /// `[0x40, dummy]`: read the status byte.
    StatusRead,
    /// `[0x00, addr, 0x80, data...]`: select `addr` and stream a data burst
    /// without releasing chip-select in between.
    BurstWrite(u8, Vec<u8>),
}

/// The specification-level value of a [`Frame`].
pub enum FrameV {
    CmdWrite(u8),
    DataWrite(u8),
    DataRead,
    StatusRead,
    BurstWrite(u8, Seq<u8>),
}

impl View for Frame {
    type V = FrameV;

    open spec fn view(&self) -> FrameV {
        match self {
            Frame::CmdWrite(a) => FrameV::CmdWrite(*a),
            Frame::DataWrite(d) => FrameV::DataWrite(*d),
            Frame::DataRead => FrameV::DataRead,
            Frame::StatusRead => FrameV::StatusRead,
            Frame::BurstWrite(a, d) => FrameV::BurstWrite(*a, d@),
        }
    }
}

/// The bytes a frame puts on the transmit line, chip-select asserted around
/// the whole sequence. Reads clock out one placeholder byte while the
/// controller answers.
pub open spec fn wire_bytes(f: FrameV) -> Seq<u8> {
    match f {
        FrameV::CmdWrite(a) => seq![MODE_CMD_WRITE, a],
        FrameV::DataWrite(d) => seq![MODE_DATA_WRITE, d],
        FrameV::DataRead => seq![MODE_DATA_READ, DUMMY_BYTE],
        FrameV::StatusRead => seq![MODE_STATUS_READ, DUMMY_BYTE],
        FrameV::BurstWrite(a, d) => seq![MODE_CMD_WRITE, a, MODE_DATA_WRITE] + d,
    }
}

/// A 32-bit value as the four bytes of its big-endian burst, most significant
/// first.
pub open spec fn be32(v: u32) -> Seq<u8> {
    seq![(v >> 24) as u8, ((v >> 16) & 0xff) as u8, ((v >> 8) & 0xff) as u8, (v & 0xff) as u8]
}

/// The 32-bit value a big-endian four-byte burst denotes.
pub open spec fn be32_value(b: Seq<u8>) -> u32
    recommends
        b.len() == 4,
{
    (((b[0] as u32) << 24) | ((b[1] as u32) << 16) | ((b[2] as u32) << 8) | (b[3] as u32)) as u32
}

/// The big-endian burst is faithful: reassembling its four bytes, most
/// significant first, yields the value that was split.
pub proof fn lemma_be32_round_trip(v: u32)
    ensures
        be32(v).len() == 4,
        be32_value(be32(v)) == v,
{
    assert((((v >> 24) as u8 as u32) << 24) | ((((v >> 16) & 0xff) as u8 as u32) << 16) | ((((v
        >> 8) & 0xff) as u8 as u32) << 8) | ((v & 0xff) as u8 as u32) == v) by (bit_vector);
}

/// A 32-bit register write is one chip-select window: a single command byte
/// addressing the base register, the data-write mode byte, then exactly the
/// four value bytes, big-endian, with nothing interleaved.
pub proof fn lemma_burst_wire_shape(a: u8, v: u32)
    ensures
        wire_bytes(FrameV::BurstWrite(a, be32(v))) == seq![MODE_CMD_WRITE, a, MODE_DATA_WRITE]
            + be32(v),
        wire_bytes(FrameV::BurstWrite(a, be32(v))).len() == 7,
        wire_bytes(FrameV::BurstWrite(a, be32(v))).skip(3) == be32(v),
{
    let w = wire_bytes(FrameV::BurstWrite(a, be32(v)));
    assert(w.skip(3) =~= be32(v));
}

impl Frame {
    /// Encode the frame as the exact transmit bytes of its chip-select window.
    pub fn encode(&self) -> (out: Vec<u8>)
        ensures
            out@ == wire_bytes(self@),
    {
        match self {
            Frame::CmdWrite(a) => {
                let mut v: Vec<u8> = Vec::new();
                v.push(MODE_CMD_WRITE);
                v.push(*a);
                assert(v@ =~= wire_bytes(self@));
                v
            },
            Frame::DataWrite(d) => {
                let mut v: Vec<u8> = Vec::new();
                v.push(MODE_DATA_WRITE);
                v.push(*d);
                assert(v@ =~= wire_bytes(self@));
                v
            },
            Frame::DataRead => {
                let mut v: Vec<u8> = Vec::new();
                v.push(MODE_DATA_READ);
                v.push(DUMMY_BYTE);
                assert(v@ =~= wire_bytes(self@));
                v
            },
            Frame::StatusRead => {
                let mut v: Vec<u8> = Vec::new();
                v.push(MODE_STATUS_READ);
                v.push(DUMMY_BYTE);
                assert(v@ =~= wire_bytes(self@));
                v
            },
            Frame::BurstWrite(a, d) => {
                let mut v: Vec<u8> = Vec::new();
                v.push(MODE_CMD_WRITE);
                v.push(*a);
                v.push(MODE_DATA_WRITE);
                let mut i: usize = 0;
                while i < d.len()
                    invariant
                        i <= d.len(),
                        v@ == seq![MODE_CMD_WRITE, *a, MODE_DATA_WRITE] + d@.take(i as int),
                    decreases d.len() - i,
                {
                    v.push(d[i]);
                    assert(v@ =~= seq![MODE_CMD_WRITE, *a, MODE_DATA_WRITE] + d@.take(
                        i as int + 1,
                    ));
                    i = i + 1;
                }
                assert(d@.take(d@.len() as int) =~= d@);
                assert(v@ =~= wire_bytes(self@));
                v
            },
        }
    }

    /// Split a 32-bit value into its big-endian burst bytes.
    pub fn be32_bytes(v: u32) -> (out: Vec<u8>)
        ensures
            out@ == be32(v),
    {
        let mut out: Vec<u8> = Vec::new();
        out.push((v >> 24) as u8);
        out.push(((v >> 16) & 0xff) as u8);
        out.push(((v >> 8) & 0xff) as u8);
        out.push((v & 0xff) as u8);
        assert(out@ =~= be32(v));
        out
    }
}

} // verus!
