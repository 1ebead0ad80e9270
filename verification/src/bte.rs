use vstd::prelude::*;

use crate::display::{
    has_ready, poll_len, reg16_frames, reg_poll_frames, reg_read_frames, reg_write_frames,
    RaioDisplay,
};
use crate::frame::{be32, FrameV};
use crate::regs::RaioRegister;

verus! {

/// BTE control register bit: written 1 to start the configured operation;
/// reads 1 while the engine is busy and self-clears when it finishes.
pub const BTE_ENABLE: u8 = 0x10;

/// Color depth of BTE source 0.
#[derive(Clone, Copy, Debug, PartialEq, Eq)]
pub enum S0ColorDepth {
    EightBpp,
    SixteenBpp,
    TwentyFourBpp,
}

impl S0ColorDepth {
    /// The field value, as the controller encodes it.
    pub open spec fn code_spec(self) -> u8 {
        match self {
            S0ColorDepth::EightBpp => 0b00,
            S0ColorDepth::SixteenBpp => 0b01,
            S0ColorDepth::TwentyFourBpp => 0b10,
        }
    }

    /// The field value, as the controller encodes it.
    pub fn code(self) -> (c: u8)
        ensures
            c == self.code_spec(),
    {
        match self {
            S0ColorDepth::EightBpp => 0b00,
            S0ColorDepth::SixteenBpp => 0b01,
            S0ColorDepth::TwentyFourBpp => 0b10,
        }
    }
}

/// Color depth of BTE source 1, including the constant-color and
/// alpha-blend variants.
#[derive(Clone, Copy, Debug, PartialEq, Eq)]
pub enum S1ColorDepth {
    EightBpp,
    SixteenBpp,
    TwentyFourBpp,
    ConstantColor,
    EightBppAlphaBlend,
    SixteenBppAlphaBlend,
}

impl S1ColorDepth {
    /// The field value, as the controller encodes it.
    pub open spec fn code_spec(self) -> u8 {
        match self {
            S1ColorDepth::EightBpp => 0b000,
            S1ColorDepth::SixteenBpp => 0b001,
            S1ColorDepth::TwentyFourBpp => 0b010,
            S1ColorDepth::ConstantColor => 0b011,
            S1ColorDepth::EightBppAlphaBlend => 0b100,
            S1ColorDepth::SixteenBppAlphaBlend => 0b101,
        }
    }

    /// The field value, as the controller encodes it.
    pub fn code(self) -> (c: u8)
        ensures
            c == self.code_spec(),
    {
        match self {
            S1ColorDepth::EightBpp => 0b000,
            S1ColorDepth::SixteenBpp => 0b001,
            S1ColorDepth::TwentyFourBpp => 0b010,
            S1ColorDepth::ConstantColor => 0b011,
            S1ColorDepth::EightBppAlphaBlend => 0b100,
            S1ColorDepth::SixteenBppAlphaBlend => 0b101,
        }
    }
}

/// Color depth of the BTE destination.
#[derive(Clone, Copy, Debug, PartialEq, Eq)]
pub enum DestColorDepth {
    EightBpp,
    SixteenBpp,
    TwentyFourBpp,
}

impl DestColorDepth {
    /// The field value, as the controller encodes it.
    pub open spec fn code_spec(self) -> u8 {
        match self {
            DestColorDepth::EightBpp => 0b00,
            DestColorDepth::SixteenBpp => 0b01,
            DestColorDepth::TwentyFourBpp => 0b10,
        }
    }

    /// The field value, as the controller encodes it.
    pub fn code(self) -> (c: u8)
        ensures
            c == self.code_spec(),
    {
        match self {
            DestColorDepth::EightBpp => 0b00,
            DestColorDepth::SixteenBpp => 0b01,
            DestColorDepth::TwentyFourBpp => 0b10,
        }
    }
}

/// Raster operation: how the BTE combines its two notional sources. `White`
/// is the constant-output rule the solid-fill path uses; the rendered color
/// comes from the foreground-color registers, not from this code.
#[derive(Clone, Copy, Debug, PartialEq, Eq)]
pub enum BteRasterOpCode {
    Black,
    S0MulS1,
    S1,
    S0,
    S0PlusS1,
    White,
}

impl BteRasterOpCode {
    /// The field value, as the controller encodes it.
    pub open spec fn code_spec(self) -> u8 {
        match self {
            BteRasterOpCode::Black => 0b0000,
            BteRasterOpCode::S0MulS1 => 0b1000,
            BteRasterOpCode::S1 => 0b1010,
            BteRasterOpCode::S0 => 0b1100,
            BteRasterOpCode::S0PlusS1 => 0b1110,
            BteRasterOpCode::White => 0b1111,
        }
    }

    /// The field value, as the controller encodes it.
    pub fn code(self) -> (c: u8)
        ensures
            c == self.code_spec(),
    {
        match self {
            BteRasterOpCode::Black => 0b0000,
            BteRasterOpCode::S0MulS1 => 0b1000,
            BteRasterOpCode::S1 => 0b1010,
            BteRasterOpCode::S0 => 0b1100,
            BteRasterOpCode::S0PlusS1 => 0b1110,
            BteRasterOpCode::White => 0b1111,
        }
    }
}

/// BTE operation selector.
#[derive(Clone, Copy, Debug, PartialEq, Eq)]
pub enum BteOpCode {
    PatternFill,
    SolidFill,
}

impl BteOpCode {
    /// The field value, as the controller encodes it.
    pub open spec fn code_spec(self) -> u8 {
        match self {
            BteOpCode::PatternFill => 0b0110,
            BteOpCode::SolidFill => 0b1100,
        }
    }

    /// The field value, as the controller encodes it.
    pub fn code(self) -> (c: u8)
        ensures
            c == self.code_spec(),
    {
        match self {
            BteOpCode::PatternFill => 0b0110,
            BteOpCode::SolidFill => 0b1100,
        }
    }
}

/// The BTE color register byte: source 0 depth in the top bits, source 1
/// depth in the middle, destination depth at the bottom.
pub open spec fn bte_color_byte(s0: S0ColorDepth, s1: S1ColorDepth, dest: DestColorDepth) -> u8 {
    (s0.code_spec() << 5) | (s1.code_spec() << 2) | dest.code_spec()
}

/// The BTE operation register byte: raster operation in the high nibble,
/// opcode in the low nibble.
pub open spec fn bte_ctrl1_byte(rop: BteRasterOpCode, op: BteOpCode) -> u8 {
    (rop.code_spec() << 4) | op.code_spec()
}

/// Whether the script carries `bte_start` through: one byte for the discarded
/// control-register readback, then eventually a byte with the busy bit clear.
pub open spec fn bte_start_ok(p: Seq<u8>) -> bool {
    p.len() >= 1 && has_ready(p.skip(1), BTE_ENABLE, false)
}

/// How many responses `bte_start` consumes.
pub open spec fn bte_start_used(p: Seq<u8>) -> nat {
    1 + poll_len(p.skip(1), BTE_ENABLE, false)
}

/// The frames `bte_start` issues: set the enable bit in the control register,
/// read it back once, then poll the same register until the busy bit clears.
pub open spec fn bte_start_frames(p: Seq<u8>) -> Seq<FrameV> {
    reg_write_frames(RaioRegister::BTE_CTRL0.addr_spec(), BTE_ENABLE) + reg_read_frames(
        RaioRegister::BTE_CTRL0.addr_spec(),
    ) + reg_poll_frames(
        RaioRegister::BTE_CTRL0.addr_spec(),
        poll_len(p.skip(1), BTE_ENABLE, false),
    )
}

/// The configuration writes of the canned full-screen solid fill, in the
/// order the engine wants them: destination address, destination position,
/// color depth, alpha, destination width, operation width, operation height,
/// foreground color, then the raster-op/opcode setup register. The fill uses
/// the constant-output raster rule; the rendered color is the foreground
/// color, here black.
pub open spec fn fill_config_frames() -> Seq<FrameV> {
    seq![FrameV::BurstWrite(RaioRegister::DtStr0.addr_spec(), be32(0))] + reg16_frames(
        RaioRegister::DtX0.addr_spec(),
        0,
    ) + reg16_frames(RaioRegister::DtY0.addr_spec(), 0) + reg_write_frames(
        RaioRegister::BTE_COLR.addr_spec(),
        bte_color_byte(
            S0ColorDepth::TwentyFourBpp,
            S1ColorDepth::TwentyFourBpp,
            DestColorDepth::TwentyFourBpp,
        ),
    ) + reg_write_frames(RaioRegister::APB_CTRL.addr_spec(), 0x20) + reg16_frames(
        RaioRegister::DtWth0.addr_spec(),
        1024,
    ) + reg16_frames(RaioRegister::BTE_WTH0.addr_spec(), 1024) + reg16_frames(
        RaioRegister::BTE_HIG0.addr_spec(),
        600,
    ) + reg_write_frames(RaioRegister::FGCR.addr_spec(), 0) + reg_write_frames(
        RaioRegister::FGCG.addr_spec(),
        0,
    ) + reg_write_frames(RaioRegister::FGCB.addr_spec(), 0) + reg_write_frames(
        RaioRegister::BTE_CTRL1.addr_spec(),
        bte_ctrl1_byte(BteRasterOpCode::White, BteOpCode::SolidFill),
    )
}

/// The frames the canned full-screen fill issues: the configuration writes in
/// their required order, then the start-and-wait sequence.
pub open spec fn fill_frames(p: Seq<u8>) -> Seq<FrameV> {
    fill_config_frames() + bte_start_frames(p)
}

impl RaioDisplay {
    /// Program the BTE destination address as one big-endian burst write.
    pub fn bte_set_dest_addr(&mut self, start_address: u32)
        ensures
            final (self).issued() == old(self).issued().push(
                FrameV::BurstWrite(RaioRegister::DtStr0.addr_spec(), be32(start_address)),
            ),
            final (self).pending() == old(self).pending(),
    {
        self.write_register32(RaioRegister::DtStr0, start_address);
    }

    /// Program the BTE destination position, each coordinate as a paired-byte
    /// register write.
    pub fn bte_set_dest_position(&mut self, x: u16, y: u16)
        ensures
            final (self).issued() == old(self).issued() + reg16_frames(
                RaioRegister::DtX0.addr_spec(),
                x,
            ) + reg16_frames(RaioRegister::DtY0.addr_spec(), y),
            final (self).pending() == old(self).pending(),
    {
        self.write_register16(RaioRegister::DtX0, x);
        self.write_register16(RaioRegister::DtY0, y);
        proof {
            assert(self.issued() =~= old(self).issued() + reg16_frames(
                RaioRegister::DtX0.addr_spec(),
                x,
            ) + reg16_frames(RaioRegister::DtY0.addr_spec(), y));
        }
    }

    /// Program the color depths of both notional sources and the destination
    /// into the BTE color register.
    pub fn bte_set_color_depth(&mut self, s0: S0ColorDepth, s1: S1ColorDepth, dest: DestColorDepth)
        ensures
            final (self).issued() == old(self).issued() + reg_write_frames(
                RaioRegister::BTE_COLR.addr_spec(),
                bte_color_byte(s0, s1, dest),
            ),
            final (self).pending() == old(self).pending(),
    {
        let bte_color = (s0.code() << 5) | (s1.code() << 2) | dest.code();
        self.write_register(RaioRegister::BTE_COLR, bte_color);
    }

    /// Program the destination pitch as a paired-byte register write.
    pub fn bte_set_dest_width(&mut self, width: u16)
        ensures
            final (self).issued() == old(self).issued() + reg16_frames(
                RaioRegister::DtWth0.addr_spec(),
                width,
            ),
            final (self).pending() == old(self).pending(),
    {
        self.write_register16(RaioRegister::DtWth0, width);
    }

    /// Program the operation width as a paired-byte register write.
    pub fn bte_set_width(&mut self, width: u16)
        ensures
            final (self).issued() == old(self).issued() + reg16_frames(
                RaioRegister::BTE_WTH0.addr_spec(),
                width,
            ),
            final (self).pending() == old(self).pending(),
    {
        self.write_register16(RaioRegister::BTE_WTH0, width);
    }

    /// Program the operation height as a paired-byte register write.
    pub fn bte_set_height(&mut self, height: u16)
        ensures
            final (self).issued() == old(self).issued() + reg16_frames(
                RaioRegister::BTE_HIG0.addr_spec(),
                height,
            ),
            final (self).pending() == old(self).pending(),
    {
        self.write_register16(RaioRegister::BTE_HIG0, height);
    }

    /// Program the foreground color, one register per channel.
    pub fn bte_set_foreground_color(&mut self, red: u8, green: u8, blue: u8)
        ensures
            final (self).issued() == old(self).issued() + reg_write_frames(
                RaioRegister::FGCR.addr_spec(),
                red,
            ) + reg_write_frames(RaioRegister::FGCG.addr_spec(), green) + reg_write_frames(
                RaioRegister::FGCB.addr_spec(),
                blue,
            ),
            final (self).pending() == old(self).pending(),
    {
        self.write_register(RaioRegister::FGCR, red);
        self.write_register(RaioRegister::FGCG, green);
        self.write_register(RaioRegister::FGCB, blue);
        proof {
            assert(self.issued() =~= old(self).issued() + reg_write_frames(
                RaioRegister::FGCR.addr_spec(),
                red,
            ) + reg_write_frames(RaioRegister::FGCG.addr_spec(), green) + reg_write_frames(
                RaioRegister::FGCB.addr_spec(),
                blue,
            ));
        }
    }

    /// Program the raster operation and opcode. Must run after the geometry
    /// and color setup and before [`Self::bte_start`]; the start register
    /// write relies on this setup staying put.
    pub fn bte_setup(&mut self, rop: BteRasterOpCode, op: BteOpCode)
        ensures
            final (self).issued() == old(self).issued() + reg_write_frames(
                RaioRegister::BTE_CTRL1.addr_spec(),
                bte_ctrl1_byte(rop, op),
            ),
            final (self).pending() == old(self).pending(),
    {
        let ctrl1 = (rop.code() << 4) | op.code();
        self.write_register(RaioRegister::BTE_CTRL1, ctrl1);
    }

    /// Program the alpha value.
    pub fn bte_alpha(&mut self, alpha: u8)
        ensures
            final (self).issued() == old(self).issued() + reg_write_frames(
                RaioRegister::APB_CTRL.addr_spec(),
                alpha,
            ),
            final (self).pending() == old(self).pending(),
    {
        self.write_register(RaioRegister::APB_CTRL, alpha);
    }

    /// Wait for the engine: poll the control register until the busy bit
    /// clears. The bit self-clears when the hardware finishes.
    pub fn bte_wait(&mut self)
        requires
            has_ready(old(self).pending(), BTE_ENABLE, false),
        ensures
            final (self).issued() == old(self).issued() + reg_poll_frames(
                RaioRegister::BTE_CTRL0.addr_spec(),
                poll_len(old(self).pending(), BTE_ENABLE, false),
            ),
            final (self).pending() == old(self).pending().skip(
                poll_len(old(self).pending(), BTE_ENABLE, false) as int,
            ),
    {
        self.poll_register(RaioRegister::BTE_CTRL0, BTE_ENABLE, false);
    }

    /// Trigger the configured operation: set the enable bit (preserving the
    /// setup just written), read the control register back once, and wait for
    /// the busy bit to clear. Runs strictly after [`Self::bte_setup`]; the
    /// order is not reversible.
    pub fn bte_start(&mut self)
        requires
            bte_start_ok(old(self).pending()),
        ensures
            final (self).issued() == old(self).issued() + bte_start_frames(old(self).pending()),
            final (self).pending() == old(self).pending().skip(
                bte_start_used(old(self).pending()) as int,
            ),
    {
        let ghost p0 = self.pending();
        self.write_register(RaioRegister::BTE_CTRL0, BTE_ENABLE);
        let _readback = self.read_register(RaioRegister::BTE_CTRL0);
        self.bte_wait();
        proof {
            crate::display::lemma_poll_props(p0.skip(1), BTE_ENABLE, false);
            assert(self.issued() =~= old(self).issued() + bte_start_frames(p0));
            assert(self.pending() =~= p0.skip(bte_start_used(p0) as int));
        }
    }

    /// Fill the whole display with the foreground color (black here): program
    /// the canned full-screen solid-fill descriptor field by field in the
    /// engine's required order — destination address, position, color depth,
    /// alpha, destination width, operation width and height, foreground
    /// color, raster-op and opcode — then trigger it and wait for completion.
    #[verifier::rlimit(100)]
    pub fn fill(&mut self)
        requires
            bte_start_ok(old(self).pending()),
        ensures
            final (self).issued() == old(self).issued() + fill_frames(old(self).pending()),
            final (self).pending() == old(self).pending().skip(
                bte_start_used(old(self).pending()) as int,
            ),
    {
        let ghost p0 = self.pending();
        self.bte_set_dest_addr(0x0);
        self.bte_set_dest_position(0, 0);
        self.bte_set_color_depth(
            S0ColorDepth::TwentyFourBpp,
            S1ColorDepth::TwentyFourBpp,
            DestColorDepth::TwentyFourBpp,
        );
        self.bte_alpha(0x20);
        self.bte_set_dest_width(1024);
        self.bte_set_width(1024);
        self.bte_set_height(600);
        self.bte_set_foreground_color(0, 0, 0);
        self.bte_setup(BteRasterOpCode::White, BteOpCode::SolidFill);
        let ghost configured = self.issued();
        self.bte_start();
        proof {
            assert(configured =~= old(self).issued() + fill_config_frames());
            assert(self.issued() =~= old(self).issued() + fill_frames(p0));
        }
    }
}

} // verus!
