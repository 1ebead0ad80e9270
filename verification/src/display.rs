use vstd::prelude::*;
use vstd::string::StringSliceAdditionalSpecFns;

use crate::frame::{be32, Frame, FrameV};
use crate::regs::RaioRegister;

verus! {

/// Status-byte bit that reads 1 while a register access is still in flight
/// ("core busy").
pub const STATUS_BUSY: u8 = 0x08;

/// Status-byte bit that reads 1 once the data-write FIFO has drained.
pub const STATUS_FIFO_EMPTY: u8 = 0x40;

/// Whether a polled byte satisfies the condition a wait is looking for: the
/// masked bits all clear, or at least one of them set.
pub open spec fn bit_ok(b: u8, mask: u8, want_set: bool) -> bool {
    if want_set {
        b & mask != 0
    } else {
        b & mask == 0
    }
}

/// The script eventually supplies a byte that satisfies the condition: the
/// hardware-side guarantee every unbounded poll rests on.
pub open spec fn has_ready(s: Seq<u8>, mask: u8, want_set: bool) -> bool {
    exists|i: int| 0 <= i < s.len() && bit_ok(s[i], mask, want_set)
}

/// How many bytes a poll consumes from the script: everything up to and
/// including the first byte that satisfies the condition.
pub open spec fn poll_len(s: Seq<u8>, mask: u8, want_set: bool) -> nat
    decreases s.len(),
{
    if s.len() == 0 {
        0
    } else if bit_ok(s[0], mask, want_set) {
        1
    } else {
        1 + poll_len(s.skip(1), mask, want_set)
    }
}

/// The frames a status poll of `n` iterations issues: `n` status reads.
pub open spec fn status_poll_frames(n: nat) -> Seq<FrameV> {
    Seq::new(n, |i: int| FrameV::StatusRead)
}

/// The frames one 8-bit register write issues: select the register, then
/// write the byte.
pub open spec fn reg_write_frames(addr: u8, v: u8) -> Seq<FrameV> {
    seq![FrameV::CmdWrite(addr), FrameV::DataWrite(v)]
}

/// The frames one 8-bit register read issues: select the register, then read
/// one byte.
pub open spec fn reg_read_frames(addr: u8) -> Seq<FrameV> {
    seq![FrameV::CmdWrite(addr), FrameV::DataRead]
}

/// The frames a register poll of `n` iterations issues: `n` single-register
/// reads.
pub open spec fn reg_poll_frames(addr: u8, n: nat) -> Seq<FrameV>
    decreases n,
{
    if n == 0 {
        Seq::empty()
    } else {
        reg_read_frames(addr) + reg_poll_frames(addr, (n - 1) as nat)
    }
}

/// The low byte of a 16-bit register value: what goes to the group's base
/// address.
pub open spec fn lo(v: u16) -> u8 {
    (v & 0xff) as u8
}

/// The high byte of a 16-bit register value: what goes to the address above
/// the base.
pub open spec fn hi(v: u16) -> u8 {
    (v >> 8) as u8
}

/// The frames a paired-byte 16-bit register write issues: two independent
/// command+data transactions, the low byte at the base address, the high
/// byte at the address above it. This protocol is distinct from the one-burst
/// 32-bit write and the two are not interchangeable.
pub open spec fn reg16_frames(addr: u8, v: u16) -> Seq<FrameV>
    recommends
        addr < 0xff,
{
    reg_write_frames(addr, lo(v)) + reg_write_frames((addr + 1) as u8, hi(v))
}

/// The paired-byte protocol puts the low byte at the group's base address and
/// the high byte at the address right above it, each in its own command+data
/// transaction pair, and the two bytes reassemble to the written value.
pub proof fn lemma_paired_write_layout(addr: u8, v: u16)
    requires
        addr < 0xff,
    ensures
        reg16_frames(addr, v).len() == 4,
        reg16_frames(addr, v)[0] == FrameV::CmdWrite(addr),
        reg16_frames(addr, v)[1] == FrameV::DataWrite(lo(v)),
        reg16_frames(addr, v)[2] == FrameV::CmdWrite((addr + 1) as u8),
        reg16_frames(addr, v)[3] == FrameV::DataWrite(hi(v)),
        (lo(v) as u16) | ((hi(v) as u16) << 8) == v,
{
    assert((((v & 0xff) as u8) as u16) | ((((v >> 8) as u8) as u16) << 8) == v) by (bit_vector);
}

/// A poll that steps past a non-satisfying byte still has a satisfying byte
/// ahead of it, one step closer.
pub proof fn lemma_poll_step(s: Seq<u8>, mask: u8, want_set: bool)
    requires
        s.len() > 0,
        !bit_ok(s[0], mask, want_set),
        has_ready(s, mask, want_set),
    ensures
        has_ready(s.skip(1), mask, want_set),
        poll_len(s, mask, want_set) == 1 + poll_len(s.skip(1), mask, want_set),
{
    let i = choose|i: int| 0 <= i < s.len() && bit_ok(s[i], mask, want_set);
    assert(i != 0);
    assert(s.skip(1)[i - 1] == s[i]);
}

/// A poll consumes at least one and at most all of the scripted bytes; the
/// last byte it consumes satisfies the condition and none before it does.
pub proof fn lemma_poll_props(s: Seq<u8>, mask: u8, want_set: bool)
    requires
        has_ready(s, mask, want_set),
    ensures
        1 <= poll_len(s, mask, want_set) <= s.len(),
        bit_ok(s[poll_len(s, mask, want_set) - 1], mask, want_set),
        forall|i: int|
            0 <= i < poll_len(s, mask, want_set) - 1 ==> !bit_ok(s[i], mask, want_set),
    decreases s.len(),
{
    let n = poll_len(s, mask, want_set);
    if bit_ok(s[0], mask, want_set) {
    } else {
        lemma_poll_step(s, mask, want_set);
        lemma_poll_props(s.skip(1), mask, want_set);
        assert(s.skip(1)[n - 2] == s[n - 1]);
        assert forall|i: int| 0 <= i < n - 1 implies !bit_ok(s[i], mask, want_set) by {
            if i > 0 {
                assert(s.skip(1)[i - 1] == s[i]);
            }
        }
    }
}

/// SDRAM attribute register value: 128 Mbit, 4 banks, row size 4096, column
/// size 512.
pub const SDRAM_CONFIG: u8 = 0x29;

/// SDRAM refresh interval, split low/high across the paired interval
/// registers.
pub const SDRAM_REFRESH_INTERVAL: u16 = 0x20D;

/// SDRAM control register bit: written 1 to start initialization; reads 1
/// once initialization is done.
pub const SDRAM_INIT_DONE: u8 = 0x01;

/// Display-power bit of the display configuration register.
pub const DPCR_DISPLAY_ON: u8 = 0x40;

/// Color-bar test-pattern bit of the display configuration register.
pub const DPCR_TEST_PATTERN: u8 = 0x20;

/// Text-mode bit of the input control register.
pub const ICR_TEXT_MODE: u8 = 0x04;

/// Largest data burst streamed to the memory read/write port per FIFO poll.
pub const TEXT_CHUNK: usize = 16;

/// A register value with one group of bits driven to a state and every other
/// bit left alone: the read-modify-write step of the toggle operations.
pub open spec fn bit_set(v: u8, mask: u8, on: bool) -> u8 {
    if on {
        v | mask
    } else {
        v & !mask
    }
}

/// Toggling a control bit on and then off by read-modify-write restores every
/// bit outside the mask to its pre-toggle state and leaves the target bits
/// cleared; a value whose target bits were clear comes back exactly.
pub proof fn lemma_toggle_round_trip(v: u8, mask: u8)
    ensures
        bit_set(bit_set(v, mask, true), mask, false) == v & !mask,
        bit_set(bit_set(v, mask, true), mask, false) & !mask == v & !mask,
        v & mask == 0 ==> bit_set(bit_set(v, mask, true), mask, false) == v,
{
    assert((v | mask) & !mask == v & !mask) by (bit_vector);
    assert((v & !mask) & !mask == v & !mask) by (bit_vector);
    assert(v & mask == 0 ==> v & !mask == v) by (bit_vector);
}

/// The frames `set_display_size` issues: horizontal width as `(width/8)-1`
/// plus the fine-tune remainder, vertical height as `height-1` split into its
/// paired low/high byte registers.
pub open spec fn display_size_frames(width: u16, height: u16) -> Seq<FrameV> {
    reg_write_frames(RaioRegister::HDWR.addr_spec(), ((width / 8 - 1) as u8))
        + reg_write_frames(RaioRegister::HDWFTR.addr_spec(), ((width % 8) as u8))
        + reg_write_frames(RaioRegister::VDHR0.addr_spec(), lo((height - 1) as u16))
        + reg_write_frames(RaioRegister::VDHR1.addr_spec(), hi((height - 1) as u16))
}

/// The frames `set_back_porch` issues: horizontal porch as `(horiz/8)-1` plus
/// remainder, vertical porch as `vert-1` split low/high.
pub open spec fn back_porch_frames(horiz: u16, vert: u16) -> Seq<FrameV> {
    reg_write_frames(RaioRegister::HNDR.addr_spec(), ((horiz / 8 - 1) as u8))
        + reg_write_frames(RaioRegister::HNDFTR.addr_spec(), ((horiz % 8) as u8))
        + reg_write_frames(RaioRegister::VNDR0.addr_spec(), lo((vert - 1) as u16))
        + reg_write_frames(RaioRegister::VNDR1.addr_spec(), hi((vert - 1) as u16))
}

/// The frames `set_front_porch` issues: each porch as its value minus one, a
/// single byte per axis.
pub open spec fn front_porch_frames(horiz: u16, vert: u16) -> Seq<FrameV> {
    reg_write_frames(RaioRegister::HSTR.addr_spec(), ((horiz - 1) as u8))
        + reg_write_frames(RaioRegister::VSTR.addr_spec(), ((vert - 1) as u8))
}

/// Whether the script carries `init_memory` through: one byte for the control
/// register readback, then eventually a byte with the init-done bit set.
pub open spec fn init_memory_ok(p: Seq<u8>) -> bool {
    p.len() >= 1 && has_ready(p.skip(1), SDRAM_INIT_DONE, true)
}

/// How many responses `init_memory` consumes.
pub open spec fn init_memory_used(p: Seq<u8>) -> nat {
    1 + poll_len(p.skip(1), SDRAM_INIT_DONE, true)
}

/// The frames `init_memory` issues: SDRAM attributes, refresh interval split
/// low/high, a read-modify-write setting the init-start bit of the control
/// register it read back, then a poll of the same register until the
/// init-done bit is set.
pub open spec fn init_memory_frames(p: Seq<u8>) -> Seq<FrameV> {
    reg_write_frames(RaioRegister::SDRAR.addr_spec(), SDRAM_CONFIG) + reg_write_frames(
        RaioRegister::SDR_REF_ITVL0.addr_spec(),
        lo(SDRAM_REFRESH_INTERVAL),
    ) + reg_write_frames(RaioRegister::SDR_REF_ITVL1.addr_spec(), hi(SDRAM_REFRESH_INTERVAL))
        + reg_read_frames(RaioRegister::SDRCR.addr_spec()) + reg_write_frames(
        RaioRegister::SDRCR.addr_spec(),
        (p[0] | SDRAM_INIT_DONE),
    ) + reg_poll_frames(
        RaioRegister::SDRCR.addr_spec(),
        poll_len(p.skip(1), SDRAM_INIT_DONE, true),
    )
}

/// The fixed register writes of `init_display` after the memory is up:
/// geometry, image and active-window widths, pixel format, system
/// configuration, sync polarity, and finally the display configuration
/// register. The order is part of the contract: later writes depend on the
/// geometry already being committed.
pub open spec fn init_display_config_frames() -> Seq<FrameV> {
    display_size_frames(1024, 600) + back_porch_frames(160, 23) + front_porch_frames(160, 12)
        + reg_write_frames(RaioRegister::MIW0.addr_spec(), lo(1024)) + reg_write_frames(
        RaioRegister::MIW1.addr_spec(),
        hi(1024),
    ) + reg_write_frames(RaioRegister::AW_WTH0.addr_spec(), lo(1024)) + reg_write_frames(
        RaioRegister::AW_WTH1.addr_spec(),
        hi(1024),
    ) + reg_write_frames(RaioRegister::AW_HT0.addr_spec(), lo(600)) + reg_write_frames(
        RaioRegister::AW_HT1.addr_spec(),
        hi(600),
    ) + reg_write_frames(RaioRegister::CVS_IMWTH0.addr_spec(), lo(1024)) + reg_write_frames(
        RaioRegister::CVS_IMWTH1.addr_spec(),
        hi(1024),
    )
    // main window control: 24 bits per pixel
     + reg_write_frames(RaioRegister::MPWCTR.addr_spec(), 0x08)
    // active window color: 24 bits per pixel
     + reg_write_frames(RaioRegister::AW_COLOR.addr_spec(), 0x02) + reg_write_frames(
        RaioRegister::Ccr.addr_spec(),
        0x00,
    )
    // HSYNC active high, VSYNC active high, XDE polarity high
     + reg_write_frames(RaioRegister::PCSR.addr_spec(), 0xC0)
    // PCLK inverted, display on
     + reg_write_frames(RaioRegister::DPCR.addr_spec(), 0xC0)
}

/// Whether the script carries `init_display` through: a ready byte for the
/// opening status poll, then what `init_memory` needs.
pub open spec fn init_display_ok(p: Seq<u8>) -> bool {
    has_ready(p, STATUS_BUSY, false) && init_memory_ok(
        p.skip(poll_len(p, STATUS_BUSY, false) as int),
    )
}

/// How many responses `init_display` consumes.
pub open spec fn init_display_used(p: Seq<u8>) -> nat {
    poll_len(p, STATUS_BUSY, false) + init_memory_used(
        p.skip(poll_len(p, STATUS_BUSY, false) as int),
    )
}

/// The frames `init_display` issues: wait for the controller, bring up the
/// SDRAM, then the fixed configuration writes, in that order.
pub open spec fn init_display_frames(p: Seq<u8>) -> Seq<FrameV> {
    status_poll_frames(poll_len(p, STATUS_BUSY, false)) + init_memory_frames(
        p.skip(poll_len(p, STATUS_BUSY, false) as int),
    ) + init_display_config_frames()
}

/// How many bytes of a remaining text go into the next burst: a full chunk,
/// or whatever is left.
pub open spec fn chunk_size(len: nat) -> nat {
    if len >= TEXT_CHUNK {
        TEXT_CHUNK as nat
    } else {
        len
    }
}

/// A text split into its bursts: chunks of up to [`TEXT_CHUNK`] bytes, full
/// chunks first, in text order.
pub open spec fn chunks16(d: Seq<u8>) -> Seq<Seq<u8>>
    decreases d.len(),
{
    if d.len() == 0 {
        seq![]
    } else {
        seq![d.take(chunk_size(d.len()) as int)] + chunks16(d.skip(chunk_size(d.len()) as int))
    }
}

/// Whether the script carries `write_text` through: before each chunk a byte
/// with the FIFO-empty bit eventually set, after it a byte with the busy bit
/// eventually clear.
pub open spec fn write_text_ok(p: Seq<u8>, d: Seq<u8>) -> bool
    decreases d.len(),
{
    if d.len() == 0 {
        true
    } else {
        has_ready(p, STATUS_FIFO_EMPTY, true) && {
            let p1 = p.skip(poll_len(p, STATUS_FIFO_EMPTY, true) as int);
            has_ready(p1, STATUS_BUSY, false) && write_text_ok(
                p1.skip(poll_len(p1, STATUS_BUSY, false) as int),
                d.skip(chunk_size(d.len()) as int),
            )
        }
    }
}

/// The frames `write_text` issues: for each chunk in order, a poll of the
/// FIFO-empty status bit, one burst to the memory read/write port carrying
/// the chunk, then a poll of the busy status bit.
pub open spec fn write_text_frames(p: Seq<u8>, d: Seq<u8>) -> Seq<FrameV>
    decreases d.len(),
{
    if d.len() == 0 {
        Seq::empty()
    } else {
        let k1 = poll_len(p, STATUS_FIFO_EMPTY, true);
        let p1 = p.skip(k1 as int);
        let k2 = poll_len(p1, STATUS_BUSY, false);
        let c = chunk_size(d.len());
        status_poll_frames(k1) + seq![
            FrameV::BurstWrite(RaioRegister::Mrwdp.addr_spec(), d.take(c as int)),
        ] + status_poll_frames(k2) + write_text_frames(p1.skip(k2 as int), d.skip(c as int))
    }
}

/// How many responses `write_text` consumes.
pub open spec fn write_text_used(p: Seq<u8>, d: Seq<u8>) -> nat
    decreases d.len(),
{
    if d.len() == 0 {
        0
    } else {
        let k1 = poll_len(p, STATUS_FIFO_EMPTY, true);
        let p1 = p.skip(k1 as int);
        let k2 = poll_len(p1, STATUS_BUSY, false);
        k1 + k2 + write_text_used(p1.skip(k2 as int), d.skip(chunk_size(d.len()) as int))
    }
}

/// The burst payloads of a frame sequence, in order: what the controller's
/// memory port receives.
pub open spec fn burst_payloads(fs: Seq<FrameV>) -> Seq<Seq<u8>>
    decreases fs.len(),
{
    if fs.len() == 0 {
        seq![]
    } else {
        let rest = burst_payloads(fs.skip(1));
        match fs[0] {
            FrameV::BurstWrite(_, p) => seq![p] + rest,
            _ => rest,
        }
    }
}

/// Burst payloads distribute over concatenation of frame sequences.
pub proof fn lemma_burst_payloads_add(a: Seq<FrameV>, b: Seq<FrameV>)
    ensures
        burst_payloads(a + b) == burst_payloads(a) + burst_payloads(b),
    decreases a.len(),
{
    if a.len() == 0 {
        assert(a + b =~= b);
        assert(burst_payloads(a) + burst_payloads(b) =~= burst_payloads(b));
    } else {
        lemma_burst_payloads_add(a.skip(1), b);
        assert((a + b).skip(1) =~= a.skip(1) + b);
        assert((a + b)[0] == a[0]);
        match a[0] {
            FrameV::BurstWrite(_, p) => {
                assert(burst_payloads(a + b) =~= burst_payloads(a) + burst_payloads(b));
            },
            _ => {},
        }
    }
}

/// A status poll carries no burst: its frames contribute no payloads.
pub proof fn lemma_burst_payloads_polls(n: nat)
    ensures
        burst_payloads(status_poll_frames(n)) == Seq::<Seq<u8>>::empty(),
    decreases n,
{
    if n == 0 {
        assert(status_poll_frames(0).len() == 0);
    } else {
        lemma_burst_payloads_polls((n - 1) as nat);
        assert(status_poll_frames(n).skip(1) =~= status_poll_frames((n - 1) as nat));
    }
}

/// `write_text` sends exactly the text's chunks, in order: the burst payloads
/// of its frames are the chunks of the text, whatever the status script did.
pub proof fn lemma_write_text_bursts(p: Seq<u8>, d: Seq<u8>)
    ensures
        burst_payloads(write_text_frames(p, d)) == chunks16(d),
    decreases d.len(),
{
    if d.len() == 0 {
    } else {
        let k1 = poll_len(p, STATUS_FIFO_EMPTY, true);
        let p1 = p.skip(k1 as int);
        let k2 = poll_len(p1, STATUS_BUSY, false);
        let c = chunk_size(d.len());
        let burst = seq![FrameV::BurstWrite(RaioRegister::Mrwdp.addr_spec(), d.take(c as int))];
        let s1 = status_poll_frames(k1);
        let s2 = status_poll_frames(k2);
        let tail = write_text_frames(p1.skip(k2 as int), d.skip(c as int));
        lemma_write_text_bursts(p1.skip(k2 as int), d.skip(c as int));
        lemma_burst_payloads_polls(k1);
        lemma_burst_payloads_polls(k2);
        lemma_burst_payloads_add(s1 + burst + s2, tail);
        lemma_burst_payloads_add(s1 + burst, s2);
        lemma_burst_payloads_add(s1, burst);
        assert(burst.skip(1) =~= Seq::<FrameV>::empty());
        assert(burst_payloads(burst) =~= seq![d.take(c as int)]);
        assert(write_text_frames(p, d) == s1 + burst + s2 + tail);
        assert(burst_payloads(write_text_frames(p, d)) =~= chunks16(d));
    }
}

/// A text streaming never consumes more responses than the script holds.
pub proof fn lemma_write_text_used_bound(p: Seq<u8>, d: Seq<u8>)
    requires
        write_text_ok(p, d),
    ensures
        write_text_used(p, d) <= p.len(),
    decreases d.len(),
{
    if d.len() == 0 {
    } else {
        let k1 = poll_len(p, STATUS_FIFO_EMPTY, true);
        let p1 = p.skip(k1 as int);
        let k2 = poll_len(p1, STATUS_BUSY, false);
        lemma_poll_props(p, STATUS_FIFO_EMPTY, true);
        lemma_poll_props(p1, STATUS_BUSY, false);
        lemma_write_text_used_bound(p1.skip(k2 as int), d.skip(chunk_size(d.len()) as int));
    }
}

/// The chunks of a text cover it without loss or padding: flattened back
/// together they are the text, every chunk is at most [`TEXT_CHUNK`] bytes,
/// and every chunk before the last is full.
pub proof fn lemma_chunks16_cover(d: Seq<u8>)
    ensures
        chunks16(d).flatten() == d,
        forall|i: int|
            0 <= i < chunks16(d).len() ==> 1 <= (#[trigger] chunks16(d)[i]).len()
                <= TEXT_CHUNK as nat,
        forall|i: int|
            0 <= i < chunks16(d).len() - 1 ==> (#[trigger] chunks16(d)[i]).len()
                == TEXT_CHUNK as nat,
    decreases d.len(),
{
    if d.len() == 0 {
        assert(chunks16(d).flatten() =~= d);
    } else {
        let c = chunk_size(d.len());
        let head = d.take(c as int);
        let rest = chunks16(d.skip(c as int));
        lemma_chunks16_cover(d.skip(c as int));
        assert((seq![head] + rest).drop_first() =~= rest);
        assert(chunks16(d).flatten() == head + rest.flatten());
        assert(head + d.skip(c as int) =~= d);
        assert forall|i: int| 0 <= i < chunks16(d).len() implies 1 <= (
        #[trigger] chunks16(d)[i]).len() <= TEXT_CHUNK as nat by {
            if i > 0 {
                assert(chunks16(d)[i] == rest[i - 1]);
            }
        }
        assert forall|i: int| 0 <= i < chunks16(d).len() - 1 implies (
        #[trigger] chunks16(d)[i]).len() == TEXT_CHUNK as nat by {
            if i > 0 {
                assert(chunks16(d)[i] == rest[i - 1]);
            } else {
                assert(rest.len() > 0);
                assert(d.skip(c as int).len() > 0);
            }
        }
    }
}

/// One display session: the exclusive owner of the controller's bus for its
/// lifetime.
///
/// The session records, in order, every chip-select-delimited frame the
/// protocol puts on the wire, and consumes read responses from a script given
/// at construction: the byte a read frame would clock back from the
/// controller. Polling operations require the script to eventually supply a
/// byte that satisfies the condition they wait for, mirroring the hardware's
/// guarantee that its busy bits settle.
pub struct RaioDisplay {
    frames: Vec<Frame>,
    responses: Vec<u8>,
}

/// The specification-level view of a recorded frame sequence.
pub open spec fn frames_view(s: Seq<Frame>) -> Seq<FrameV> {
    Seq::new(s.len(), |i: int| s[i]@)
}

proof fn lemma_frames_view_push(s: Seq<Frame>, f: Frame)
    ensures
        frames_view(s.push(f)) == frames_view(s).push(f@),
{
    assert(frames_view(s.push(f)) =~= frames_view(s).push(f@));
}

impl RaioDisplay {
    /// The frames issued so far, oldest first.
    pub closed spec fn issued(&self) -> Seq<FrameV> {
        frames_view(self.frames@)
    }

    /// The read responses not yet consumed, next first.
    pub closed spec fn pending(&self) -> Seq<u8> {
        self.responses@
    }

    /// Open a session over a script of read responses.
    pub fn new(responses: Vec<u8>) -> (d: RaioDisplay)
        ensures
            d.issued() == Seq::<FrameV>::empty(),
            d.pending() == responses@,
    {
        let d = RaioDisplay { frames: Vec::new(), responses };
        proof {
            assert(d.issued() =~= Seq::<FrameV>::empty());
        }
        d
    }

    /// Hand over the recorded frames, oldest first.
    pub fn take_frames(self) -> (out: Vec<Frame>)
        ensures
            frames_view(out@) == self.issued(),
    {
        self.frames
    }

    /// Borrow the recorded frames, oldest first.
    pub fn issued_frames(&self) -> (out: &Vec<Frame>)
        ensures
            frames_view(out@) == self.issued(),
    {
        &self.frames
    }

    /// Borrow the read responses not yet consumed, next first.
    pub fn remaining(&self) -> (out: &Vec<u8>)
        ensures
            out@ == self.pending(),
    {
        &self.responses
    }

    /// Issue a command-write frame: select the register at `reg`.
    pub fn cmd_write(&mut self, reg: u8)
        ensures
            final (self).issued() == old(self).issued().push(FrameV::CmdWrite(reg)),
            final (self).pending() == old(self).pending(),
    {
        proof {
            lemma_frames_view_push(self.frames@, Frame::CmdWrite(reg));
        }
        self.frames.push(Frame::CmdWrite(reg));
    }

    /// Issue a data-write frame: one byte to the selected register.
    pub fn data_write(&mut self, data: u8)
        ensures
            final (self).issued() == old(self).issued().push(FrameV::DataWrite(data)),
            final (self).pending() == old(self).pending(),
    {
        proof {
            lemma_frames_view_push(self.frames@, Frame::DataWrite(data));
        }
        self.frames.push(Frame::DataWrite(data));
    }

    /// Issue a data-read frame and take the byte the controller answers with:
    /// the next scripted response.
    pub fn data_read(&mut self) -> (r: u8)
        requires
            old(self).pending().len() > 0,
        ensures
            r == old(self).pending()[0],
            final (self).issued() == old(self).issued().push(FrameV::DataRead),
            final (self).pending() == old(self).pending().skip(1),
    {
        proof {
            lemma_frames_view_push(self.frames@, Frame::DataRead);
        }
        self.frames.push(Frame::DataRead);
        let r = self.responses.remove(0);
        proof {
            assert(self.responses@ =~= old(self).pending().skip(1));
        }
        r
    }

    /// Issue a status-read frame and take the status byte the controller
    /// answers with: the next scripted response.
    pub fn read_status(&mut self) -> (r: u8)
        requires
            old(self).pending().len() > 0,
        ensures
            r == old(self).pending()[0],
            final (self).issued() == old(self).issued().push(FrameV::StatusRead),
            final (self).pending() == old(self).pending().skip(1),
    {
        proof {
            lemma_frames_view_push(self.frames@, Frame::StatusRead);
        }
        self.frames.push(Frame::StatusRead);
        let r = self.responses.remove(0);
        proof {
            assert(self.responses@ =~= old(self).pending().skip(1));
        }
        r
    }

    /// Write an 8-bit register: one command transaction selecting it, one
    /// data transaction carrying the byte.
    pub fn write_register(&mut self, reg: RaioRegister, data: u8)
        ensures
            final (self).issued() == old(self).issued() + reg_write_frames(
                reg.addr_spec(),
                data,
            ),
            final (self).pending() == old(self).pending(),
    {
        self.cmd_write(reg.addr());
        self.data_write(data);
        proof {
            assert(self.issued() =~= old(self).issued() + reg_write_frames(
                reg.addr_spec(),
                data,
            ));
        }
    }

    /// Write a paired-byte 16-bit register group: the low byte to the base
    /// address, the high byte to the address above it, as two independent
    /// command+data transaction pairs — never as one burst.
    pub fn write_register16(&mut self, reg: RaioRegister, data: u16)
        requires
            reg.addr_spec() < 0xff,
        ensures
            final (self).issued() == old(self).issued() + reg16_frames(reg.addr_spec(), data),
            final (self).pending() == old(self).pending(),
    {
        let reg_num = reg.addr();
        self.cmd_write(reg_num);
        self.data_write((data & 0xff) as u8);
        self.cmd_write(reg_num + 1);
        self.data_write((data >> 8) as u8);
        proof {
            assert(self.issued() =~= old(self).issued() + reg16_frames(reg.addr_spec(), data));
        }
    }

    /// Write a 32-bit register group as one burst: a single chip-select
    /// window holding one command byte for the base register and the four
    /// value bytes, most significant first.
    pub fn write_register32(&mut self, reg: RaioRegister, data: u32)
        ensures
            final (self).issued() == old(self).issued().push(
                FrameV::BurstWrite(reg.addr_spec(), be32(data)),
            ),
            final (self).pending() == old(self).pending(),
    {
        let payload = Frame::be32_bytes(data);
        let f = Frame::BurstWrite(reg.addr(), payload);
        proof {
            lemma_frames_view_push(self.frames@, f);
        }
        self.frames.push(f);
    }

    /// Read an 8-bit register: one command transaction selecting it, one
    /// data-read transaction; the result is the next scripted response.
    pub fn read_register(&mut self, reg: RaioRegister) -> (r: u8)
        requires
            old(self).pending().len() > 0,
        ensures
            r == old(self).pending()[0],
            final (self).issued() == old(self).issued() + reg_read_frames(reg.addr_spec()),
            final (self).pending() == old(self).pending().skip(1),
    {
        self.cmd_write(reg.addr());
        let r = self.data_read();
        proof {
            assert(self.issued() =~= old(self).issued() + reg_read_frames(reg.addr_spec()));
        }
        r
    }

    /// Poll the status byte until the masked bits reach the wanted state,
    /// reading it fresh each iteration; returns the byte that satisfied the
    /// condition. Consumes the script up to and including that byte.
    pub fn poll_status(&mut self, mask: u8, want_set: bool) -> (r: u8)
        requires
            has_ready(old(self).pending(), mask, want_set),
        ensures
            final (self).issued() == old(self).issued() + status_poll_frames(
                poll_len(old(self).pending(), mask, want_set),
            ),
            final (self).pending() == old(self).pending().skip(
                poll_len(old(self).pending(), mask, want_set) as int,
            ),
            r == old(self).pending()[poll_len(old(self).pending(), mask, want_set) - 1],
            bit_ok(r, mask, want_set),
        decreases old(self).pending().len(),
    {
        let ghost p0 = self.pending();
        proof {
            lemma_poll_props(p0, mask, want_set);
        }
        let b = self.read_status();
        let ok = if want_set {
            b & mask != 0
        } else {
            b & mask == 0
        };
        if ok {
            proof {
                assert(poll_len(p0, mask, want_set) == 1);
                assert(self.issued() =~= old(self).issued() + status_poll_frames(1));
            }
            b
        } else {
            proof {
                lemma_poll_step(p0, mask, want_set);
            }
            let r = self.poll_status(mask, want_set);
            proof {
                let n = poll_len(p0, mask, want_set);
                assert(self.issued() =~= old(self).issued() + status_poll_frames(n));
                assert(self.pending() =~= p0.skip(n as int));
                assert(p0.skip(1)[n - 2] == p0[n - 1]);
            }
            r
        }
    }

    /// Poll an 8-bit register until the masked bits reach the wanted state,
    /// issuing a fresh select-and-read pair each iteration; returns the byte
    /// that satisfied the condition.
    pub fn poll_register(&mut self, reg: RaioRegister, mask: u8, want_set: bool) -> (r: u8)
        requires
            has_ready(old(self).pending(), mask, want_set),
        ensures
            final (self).issued() == old(self).issued() + reg_poll_frames(
                reg.addr_spec(),
                poll_len(old(self).pending(), mask, want_set),
            ),
            final (self).pending() == old(self).pending().skip(
                poll_len(old(self).pending(), mask, want_set) as int,
            ),
            r == old(self).pending()[poll_len(old(self).pending(), mask, want_set) - 1],
            bit_ok(r, mask, want_set),
        decreases old(self).pending().len(),
    {
        let ghost p0 = self.pending();
        proof {
            lemma_poll_props(p0, mask, want_set);
        }
        let b = self.read_register(reg);
        let ok = if want_set {
            b & mask != 0
        } else {
            b & mask == 0
        };
        if ok {
            proof {
                assert(poll_len(p0, mask, want_set) == 1);
                assert(reg_poll_frames(reg.addr_spec(), 0) =~= Seq::<FrameV>::empty());
                assert(reg_poll_frames(reg.addr_spec(), 1) =~= reg_read_frames(reg.addr_spec()));
            }
            b
        } else {
            proof {
                lemma_poll_step(p0, mask, want_set);
            }
            let r = self.poll_register(reg, mask, want_set);
            proof {
                let n = poll_len(p0, mask, want_set);
                assert(self.issued() =~= old(self).issued() + reg_poll_frames(
                    reg.addr_spec(),
                    n,
                ));
                assert(self.pending() =~= p0.skip(n as int));
                assert(p0.skip(1)[n - 2] == p0[n - 1]);
            }
            r
        }
    }

    /// Block until the controller is ready for register access: poll the
    /// status byte until the core-busy bit clears.
    pub fn wait(&mut self)
        requires
            has_ready(old(self).pending(), STATUS_BUSY, false),
        ensures
            final (self).issued() == old(self).issued() + status_poll_frames(
                poll_len(old(self).pending(), STATUS_BUSY, false),
            ),
            final (self).pending() == old(self).pending().skip(
                poll_len(old(self).pending(), STATUS_BUSY, false) as int,
            ),
    {
        self.poll_status(STATUS_BUSY, false);
    }

    /// Program the display size. The width register group holds
    /// `(width/8)-1` and the remainder; the height group holds `height-1`
    /// split across its paired byte registers.
    pub fn set_display_size(&mut self, width: u16, height: u16)
        requires
            8 <= width <= 2047,
            1 <= height,
        ensures
            final (self).issued() == old(self).issued() + display_size_frames(width, height),
            final (self).pending() == old(self).pending(),
    {
        self.write_register(RaioRegister::HDWR, (width / 8) as u8 - 1);
        self.write_register(RaioRegister::HDWFTR, (width % 8) as u8);
        self.write_register(RaioRegister::VDHR0, ((height - 1) & 0xFF) as u8);
        self.write_register(RaioRegister::VDHR1, ((height - 1) >> 8) as u8);
        proof {
            assert(self.issued() =~= old(self).issued() + display_size_frames(width, height));
        }
    }

    /// Program the back porches: horizontal as `(horiz/8)-1` and remainder,
    /// vertical as `vert-1` split across its paired byte registers.
    pub fn set_back_porch(&mut self, horiz: u16, vert: u16)
        requires
            8 <= horiz <= 2047,
            1 <= vert,
        ensures
            final (self).issued() == old(self).issued() + back_porch_frames(horiz, vert),
            final (self).pending() == old(self).pending(),
    {
        self.write_register(RaioRegister::HNDR, (horiz / 8) as u8 - 1);
        self.write_register(RaioRegister::HNDFTR, (horiz % 8) as u8);
        self.write_register(RaioRegister::VNDR0, ((vert - 1) & 0xFF) as u8);
        self.write_register(RaioRegister::VNDR1, ((vert - 1) >> 8) as u8);
        proof {
            assert(self.issued() =~= old(self).issued() + back_porch_frames(horiz, vert));
        }
    }

    /// Program the front porches, one single-byte register per axis, each
    /// holding its porch minus one. Values past what a byte register can hold
    /// are left out rather than silently truncated.
    pub fn set_front_porch(&mut self, horiz: u16, vert: u16)
        requires
            1 <= horiz <= 255,
            1 <= vert <= 256,
        ensures
            final (self).issued() == old(self).issued() + front_porch_frames(horiz, vert),
            final (self).pending() == old(self).pending(),
    {
        self.write_register(RaioRegister::HSTR, (horiz - 1) as u8);
        self.write_register(RaioRegister::VSTR, (vert - 1) as u8);
        proof {
            assert(self.issued() =~= old(self).issued() + front_porch_frames(horiz, vert));
        }
    }

    /// Bring up the SDRAM: program its attributes and refresh interval, set
    /// the init-start bit on top of the control register's current value,
    /// then poll the same register until the init-done bit reads 1. How often
    /// the runner paces those polls (the hardware takes up to a few hundred
    /// milliseconds) is the runner's affair; the protocol just reads fresh
    /// until done.
    pub fn init_memory(&mut self)
        requires
            init_memory_ok(old(self).pending()),
        ensures
            final (self).issued() == old(self).issued() + init_memory_frames(old(self).pending()),
            final (self).pending() == old(self).pending().skip(
                init_memory_used(old(self).pending()) as int,
            ),
    {
        let ghost p0 = self.pending();
        self.write_register(RaioRegister::SDRAR, SDRAM_CONFIG);
        self.write_register(RaioRegister::SDR_REF_ITVL0, (SDRAM_REFRESH_INTERVAL & 0xff) as u8);
        self.write_register(RaioRegister::SDR_REF_ITVL1, (SDRAM_REFRESH_INTERVAL >> 8) as u8);
        let mut sdrcr = self.read_register(RaioRegister::SDRCR);
        sdrcr = sdrcr | SDRAM_INIT_DONE;
        self.write_register(RaioRegister::SDRCR, sdrcr);
        self.poll_register(RaioRegister::SDRCR, SDRAM_INIT_DONE, true);
        proof {
            lemma_poll_props(p0.skip(1), SDRAM_INIT_DONE, true);
            assert(self.issued() =~= old(self).issued() + init_memory_frames(p0));
            assert(self.pending() =~= p0.skip(init_memory_used(p0) as int));
        }
    }

    /// Run the full bring-up in its required order: wait for the controller,
    /// initialize the SDRAM, then commit geometry, image widths, pixel
    /// format, system configuration, sync polarity, and the display
    /// configuration register. Reordering corrupts the picture; the contract
    /// pins the exact sequence.
    #[verifier::rlimit(100)]
    pub fn init_display(&mut self)
        requires
            init_display_ok(old(self).pending()),
        ensures
            final (self).issued() == old(self).issued() + init_display_frames(old(self).pending()),
            final (self).pending() == old(self).pending().skip(
                init_display_used(old(self).pending()) as int,
            ),
    {
        let ghost p0 = self.pending();
        self.wait();
        self.init_memory();
        let ghost mid = self.issued();
        self.set_display_size(1024, 600);
        self.set_back_porch(160, 23);
        self.set_front_porch(160, 12);
        self.write_register(RaioRegister::MIW0, (1024u16 & 0xff) as u8);
        self.write_register(RaioRegister::MIW1, (1024u16 >> 8) as u8);
        self.write_register(RaioRegister::AW_WTH0, (1024u16 & 0xff) as u8);
        self.write_register(RaioRegister::AW_WTH1, (1024u16 >> 8) as u8);
        self.write_register(RaioRegister::AW_HT0, (600u16 & 0xff) as u8);
        self.write_register(RaioRegister::AW_HT1, (600u16 >> 8) as u8);
        self.write_register(RaioRegister::CVS_IMWTH0, (1024u16 & 0xff) as u8);
        self.write_register(RaioRegister::CVS_IMWTH1, (1024u16 >> 8) as u8);
        // main window control: 24 bits per pixel
        self.write_register(RaioRegister::MPWCTR, 0x08);
        // active window color: 24 bits per pixel
        self.write_register(RaioRegister::AW_COLOR, 0x02);
        self.write_register(RaioRegister::Ccr, 0x00);
        // HSYNC active high, VSYNC active high, XDE polarity high
        self.write_register(RaioRegister::PCSR, 0xC0);
        // PCLK inverted, display on
        self.write_register(RaioRegister::DPCR, 0xC0);
        proof {
            let k1 = poll_len(p0, STATUS_BUSY, false);
            lemma_poll_props(p0, STATUS_BUSY, false);
            lemma_poll_props(p0.skip(k1 as int).skip(1), SDRAM_INIT_DONE, true);
            assert(self.issued() =~= mid + init_display_config_frames());
            assert(self.issued() =~= old(self).issued() + init_display_frames(p0));
            assert(self.pending() =~= p0.skip(init_display_used(p0) as int));
        }
    }

    /// Switch the display on or off: read the display configuration
    /// register, drive only the display-power bit, and write the result back,
    /// preserving every other bit.
    pub fn enable_display(&mut self, enabled: bool)
        requires
            old(self).pending().len() >= 1,
        ensures
            final (self).issued() == old(self).issued() + reg_read_frames(
                RaioRegister::DPCR.addr_spec(),
            ) + reg_write_frames(
                RaioRegister::DPCR.addr_spec(),
                bit_set(old(self).pending()[0], DPCR_DISPLAY_ON, enabled),
            ),
            final (self).pending() == old(self).pending().skip(1),
    {
        let mut dpcr = self.read_register(RaioRegister::DPCR);
        match enabled {
            true => dpcr = dpcr | DPCR_DISPLAY_ON,
            false => dpcr = dpcr & !DPCR_DISPLAY_ON,
        }
        self.write_register(RaioRegister::DPCR, dpcr);
        proof {
            assert(self.issued() =~= old(self).issued() + reg_read_frames(
                RaioRegister::DPCR.addr_spec(),
            ) + reg_write_frames(
                RaioRegister::DPCR.addr_spec(),
                bit_set(old(self).pending()[0], DPCR_DISPLAY_ON, enabled),
            ));
        }
    }

    /// Switch the built-in color-bar test pattern on or off by
    /// read-modify-write of its bit in the display configuration register,
    /// preserving every other bit.
    pub fn enable_test_pattern(&mut self, enabled: bool)
        requires
            old(self).pending().len() >= 1,
        ensures
            final (self).issued() == old(self).issued() + reg_read_frames(
                RaioRegister::DPCR.addr_spec(),
            ) + reg_write_frames(
                RaioRegister::DPCR.addr_spec(),
                bit_set(old(self).pending()[0], DPCR_TEST_PATTERN, enabled),
            ),
            final (self).pending() == old(self).pending().skip(1),
    {
        let mut dpcr = self.read_register(RaioRegister::DPCR);
        match enabled {
            true => dpcr = dpcr | DPCR_TEST_PATTERN,
            false => dpcr = dpcr & !DPCR_TEST_PATTERN,
        }
        self.write_register(RaioRegister::DPCR, dpcr);
        proof {
            assert(self.issued() =~= old(self).issued() + reg_read_frames(
                RaioRegister::DPCR.addr_spec(),
            ) + reg_write_frames(
                RaioRegister::DPCR.addr_spec(),
                bit_set(old(self).pending()[0], DPCR_TEST_PATTERN, enabled),
            ));
        }
    }

    /// Switch text mode on or off by read-modify-write of its bit in the
    /// input control register, preserving every other bit, then set the red
    /// foreground channel to full for the glyphs.
    pub fn enable_text_mode(&mut self, enabled: bool)
        requires
            old(self).pending().len() >= 1,
        ensures
            final (self).issued() == old(self).issued() + reg_read_frames(
                RaioRegister::Icr.addr_spec(),
            ) + reg_write_frames(
                RaioRegister::Icr.addr_spec(),
                bit_set(old(self).pending()[0], ICR_TEXT_MODE, enabled),
            ) + reg_write_frames(RaioRegister::FGCR.addr_spec(), 0xff),
            final (self).pending() == old(self).pending().skip(1),
    {
        let mut icr = self.read_register(RaioRegister::Icr);
        match enabled {
            true => icr = icr | ICR_TEXT_MODE,
            false => icr = icr & !ICR_TEXT_MODE,
        }
        self.write_register(RaioRegister::Icr, icr);
        self.write_register(RaioRegister::FGCR, 0xff);
        proof {
            assert(self.issued() =~= old(self).issued() + reg_read_frames(
                RaioRegister::Icr.addr_spec(),
            ) + reg_write_frames(
                RaioRegister::Icr.addr_spec(),
                bit_set(old(self).pending()[0], ICR_TEXT_MODE, enabled),
            ) + reg_write_frames(RaioRegister::FGCR.addr_spec(), 0xff));
        }
    }

    /// Position the graphics cursor: a paired-byte write of the horizontal
    /// position. The vertical registers are left untouched; the caller's
    /// vertical coordinate is accepted for symmetry but not programmed.
    pub fn set_cursor(&mut self, x: u16, _y: u16)
        ensures
            final (self).issued() == old(self).issued() + reg16_frames(
                RaioRegister::CURH0.addr_spec(),
                x,
            ),
            final (self).pending() == old(self).pending(),
    {
        self.write_register16(RaioRegister::CURH0, x);
    }

    /// Position the text cursor: paired-byte writes of the horizontal and
    /// vertical positions.
    pub fn set_text_cursor(&mut self, x: u16, y: u16)
        ensures
            final (self).issued() == old(self).issued() + reg16_frames(
                RaioRegister::F_CURX0.addr_spec(),
                x,
            ) + reg16_frames(RaioRegister::F_CURY0.addr_spec(), y),
            final (self).pending() == old(self).pending(),
    {
        self.write_register16(RaioRegister::F_CURX0, x);
        self.write_register16(RaioRegister::F_CURY0, y);
        proof {
            assert(self.issued() =~= old(self).issued() + reg16_frames(
                RaioRegister::F_CURX0.addr_spec(),
                x,
            ) + reg16_frames(RaioRegister::F_CURY0.addr_spec(), y));
        }
    }

    /// Read back the text cursor's vertical position from its paired byte
    /// registers, low byte first.
    pub fn get_text_cursor_y(&mut self) -> (y: u16)
        requires
            old(self).pending().len() >= 2,
        ensures
            y == (old(self).pending()[0] as u16) | ((old(self).pending()[1] as u16) << 8),
            final (self).issued() == old(self).issued() + reg_read_frames(
                RaioRegister::F_CURY0.addr_spec(),
            ) + reg_read_frames(RaioRegister::F_CURY1.addr_spec()),
            final (self).pending() == old(self).pending().skip(2),
    {
        let mut y = self.read_register(RaioRegister::F_CURY0) as u16;
        y = y | ((self.read_register(RaioRegister::F_CURY1) as u16) << 8);
        proof {
            assert(self.issued() =~= old(self).issued() + reg_read_frames(
                RaioRegister::F_CURY0.addr_spec(),
            ) + reg_read_frames(RaioRegister::F_CURY1.addr_spec()));
            assert(self.pending() =~= old(self).pending().skip(2));
        }
        y
    }

    /// Stream a data burst to the memory read/write port: one chip-select
    /// window holding the port's command byte and the whole payload.
    pub fn write(&mut self, data: &[u8])
        ensures
            final (self).issued() == old(self).issued().push(
                FrameV::BurstWrite(RaioRegister::Mrwdp.addr_spec(), data@),
            ),
            final (self).pending() == old(self).pending(),
    {
        let payload = vstd::slice::slice_to_vec(data);
        let f = Frame::BurstWrite(RaioRegister::Mrwdp.addr(), payload);
        proof {
            lemma_frames_view_push(self.frames@, f);
        }
        self.frames.push(f);
    }

    /// Stream raw text bytes to the memory read/write port in chunks of up to
    /// [`TEXT_CHUNK`] bytes, throttled to the hardware's FIFO drain rate:
    /// before each chunk, poll the status byte until the FIFO-empty bit is
    /// set; after it, poll until the busy bit clears.
    pub fn write_text_bytes(&mut self, data: &[u8])
        requires
            write_text_ok(old(self).pending(), data@),
        ensures
            final (self).issued() == old(self).issued() + write_text_frames(
                old(self).pending(),
                data@,
            ),
            final (self).pending() == old(self).pending().skip(
                write_text_used(old(self).pending(), data@) as int,
            ),
        decreases data@.len(),
    {
        if data.len() == 0 {
            proof {
                assert(self.issued() =~= old(self).issued() + write_text_frames(
                    old(self).pending(),
                    data@,
                ));
                assert(self.pending() =~= old(self).pending().skip(0));
            }
            return ;
        }
        let ghost p0 = self.pending();
        proof {
            lemma_poll_props(p0, STATUS_FIFO_EMPTY, true);
        }
        self.poll_status(STATUS_FIFO_EMPTY, true);
        let ghost p1 = self.pending();
        proof {
            lemma_poll_props(p1, STATUS_BUSY, false);
        }
        let c = if data.len() >= TEXT_CHUNK {
            TEXT_CHUNK
        } else {
            data.len()
        };
        let chunk = vstd::slice::slice_subrange(data, 0, c);
        self.write(chunk);
        self.poll_status(STATUS_BUSY, false);
        let rest = vstd::slice::slice_subrange(data, c, data.len());
        let ghost p2 = self.pending();
        self.write_text_bytes(rest);
        proof {
            lemma_write_text_used_bound(p2, rest@);
            assert(chunk@ =~= data@.take(c as int));
            assert(rest@ =~= data@.skip(c as int));
            assert(self.issued() =~= old(self).issued() + write_text_frames(p0, data@));
            assert(self.pending() =~= p0.skip(write_text_used(p0, data@) as int));
        }
    }

    /// Stream a text to the memory read/write port, chunked and throttled as
    /// [`Self::write_text_bytes`] does with the text's UTF-8 bytes.
    pub fn write_text(&mut self, data: &str)
        requires
            write_text_ok(old(self).pending(), data.spec_bytes()),
        ensures
            final (self).issued() == old(self).issued() + write_text_frames(
                old(self).pending(),
                data.spec_bytes(),
            ),
            final (self).pending() == old(self).pending().skip(
                write_text_used(old(self).pending(), data.spec_bytes()) as int,
            ),
    {
        self.write_text_bytes(data.as_bytes());
    }
}

} // verus!
