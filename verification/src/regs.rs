use vstd::prelude::*;
verus! {
/// The controller's register map: every addressable register, by name,
/// with its single-byte address. Multi-byte quantities live in groups of
/// consecutive addresses (a 16-bit value as a low/high pair, a 32-bit
/// value as four consecutive byte registers written in one burst).
#[allow(non_camel_case_types)]
#[derive(Clone, Copy, Debug, PartialEq, Eq)]
pub enum RaioRegister {
    Srr,
    Ccr,
    Macr,
    Icr,
    Mrwdp,
    Ppllc1,
    Ppllc2,
    Mpllc1,
    Mpllc2,
    Spllc1,
    Spllc2,
    Inten,
    Intf,
    Mintfr,
    Puenr,
    Psfsr,
    MPWCTR,
    Pipcdep,
    DPCR,
    PCSR,
    HDWR,
    HDWFTR,
    HNDR,
    HNDFTR,
    HSTR,
    HPWR,
    VDHR0,
    VDHR1,
    VNDR0,
    VNDR1,
    VSTR,
    VPWR,
    MISA0,
    MISA1,
    MISA2,
    MISA3,
    MIW0,
    MIW1,
    MWULX0,
    MWULX1,
    MWULY0,
    MWULY1,
    CvsSa,
    CVS_IMWTH0,
    CVS_IMWTH1,
    AW_WTH0,
    AW_WTH1,
    AW_HT0,
    AW_HT1,
    AW_COLOR,
    CURH0,
    CURH1,
    CURV0,
    CURV1,
    F_CURX0,
    F_CURX1,
    F_CURY0,
    F_CURY1,
    BTE_CTRL0,
    BTE_CTRL1,
    BTE_COLR,
    S0_STR0,
    S0_STR1,
    S0_STR2,
    S0_STR3,
    S0_WTH0,
    S0_WTH1,
    S0_X0,
    S0_X1,
    S0_Y0,
    S0_Y1,
    S1_STR0,
    S1_STR1,
    S1_STR2,
    S1_STR3,
    S1_WTH0,
    S1_WTH1,
    S1_X0,
    S1_X1,
    S1_Y0,
    S1_Y1,
    DtStr0,
    DtStr1,
    DtStr2,
    DtStr3,
    DtWth0,
    DtWth1,
    DtX0,
    DtX1,
    DtY0,
    DtY1,
    BTE_WTH0,
    BTE_WTH1,
    BTE_HIG0,
    BTE_HIG1,
    APB_CTRL,
    FGCR,
    FGCG,
    FGCB,
    BGCR,
    BGCG,
    BGCB,
    SDRAR,
    SDR_REF_ITVL0,
    SDR_REF_ITVL1,
    SDRCR,
}

impl RaioRegister {
    /// The register's bus address, as a specification-level value.
    pub open spec fn addr_spec(self) -> u8 {
        match self {
            RaioRegister::Srr => 0x00,
            RaioRegister::Ccr => 0x01,
            RaioRegister::Macr => 0x02,
            RaioRegister::Icr => 0x03,
            RaioRegister::Mrwdp => 0x04,
            RaioRegister::Ppllc1 => 0x05,
            RaioRegister::Ppllc2 => 0x06,
            RaioRegister::Mpllc1 => 0x07,
            RaioRegister::Mpllc2 => 0x08,
            RaioRegister::Spllc1 => 0x09,
            RaioRegister::Spllc2 => 0x0A,
            RaioRegister::Inten => 0x0B,
            RaioRegister::Intf => 0x0C,
            RaioRegister::Mintfr => 0x0D,
            RaioRegister::Puenr => 0x0E,
            RaioRegister::Psfsr => 0x0F,
            RaioRegister::MPWCTR => 0x10,
            RaioRegister::Pipcdep => 0x11,
            RaioRegister::DPCR => 0x12,
            RaioRegister::PCSR => 0x13,
            RaioRegister::HDWR => 0x14,
            RaioRegister::HDWFTR => 0x15,
            RaioRegister::HNDR => 0x16,
            RaioRegister::HNDFTR => 0x17,
            RaioRegister::HSTR => 0x18,
            RaioRegister::HPWR => 0x19,
            RaioRegister::VDHR0 => 0x1A,
            RaioRegister::VDHR1 => 0x1B,
            RaioRegister::VNDR0 => 0x1C,
            RaioRegister::VNDR1 => 0x1D,
            RaioRegister::VSTR => 0x1E,
            RaioRegister::VPWR => 0x1F,
            RaioRegister::MISA0 => 0x20,
            RaioRegister::MISA1 => 0x21,
            RaioRegister::MISA2 => 0x22,
            RaioRegister::MISA3 => 0x23,
            RaioRegister::MIW0 => 0x24,
            RaioRegister::MIW1 => 0x25,
            RaioRegister::MWULX0 => 0x26,
            RaioRegister::MWULX1 => 0x27,
            RaioRegister::MWULY0 => 0x28,
            RaioRegister::MWULY1 => 0x29,
            RaioRegister::CvsSa => 0x50,
            RaioRegister::CVS_IMWTH0 => 0x54,
            RaioRegister::CVS_IMWTH1 => 0x55,
            RaioRegister::AW_WTH0 => 0x5A,
            RaioRegister::AW_WTH1 => 0x5B,
            RaioRegister::AW_HT0 => 0x5C,
            RaioRegister::AW_HT1 => 0x5D,
            RaioRegister::AW_COLOR => 0x5E,
            RaioRegister::CURH0 => 0x5F,
            RaioRegister::CURH1 => 0x60,
            RaioRegister::CURV0 => 0x61,
            RaioRegister::CURV1 => 0x62,
            RaioRegister::F_CURX0 => 0x63,
            RaioRegister::F_CURX1 => 0x64,
            RaioRegister::F_CURY0 => 0x65,
            RaioRegister::F_CURY1 => 0x66,
            RaioRegister::BTE_CTRL0 => 0x90,
            RaioRegister::BTE_CTRL1 => 0x91,
            RaioRegister::BTE_COLR => 0x92,
            RaioRegister::S0_STR0 => 0x93,
            RaioRegister::S0_STR1 => 0x94,
            RaioRegister::S0_STR2 => 0x95,
            RaioRegister::S0_STR3 => 0x96,
            RaioRegister::S0_WTH0 => 0x97,
            RaioRegister::S0_WTH1 => 0x98,
            RaioRegister::S0_X0 => 0x99,
            RaioRegister::S0_X1 => 0x9A,
            RaioRegister::S0_Y0 => 0x9B,
            RaioRegister::S0_Y1 => 0x9C,
            RaioRegister::S1_STR0 => 0x9D,
            RaioRegister::S1_STR1 => 0x9E,
            RaioRegister::S1_STR2 => 0x9F,
            RaioRegister::S1_STR3 => 0xA0,
            RaioRegister::S1_WTH0 => 0xA1,
            RaioRegister::S1_WTH1 => 0xA2,
            RaioRegister::S1_X0 => 0xA3,
            RaioRegister::S1_X1 => 0xA4,
            RaioRegister::S1_Y0 => 0xA5,
            RaioRegister::S1_Y1 => 0xA6,
            RaioRegister::DtStr0 => 0xA7,
            RaioRegister::DtStr1 => 0xA8,
            RaioRegister::DtStr2 => 0xA9,
            RaioRegister::DtStr3 => 0xAA,
            RaioRegister::DtWth0 => 0xAB,
            RaioRegister::DtWth1 => 0xAC,
            RaioRegister::DtX0 => 0xAD,
            RaioRegister::DtX1 => 0xAE,
            RaioRegister::DtY0 => 0xAF,
            RaioRegister::DtY1 => 0xB0,
            RaioRegister::BTE_WTH0 => 0xB1,
            RaioRegister::BTE_WTH1 => 0xB2,
            RaioRegister::BTE_HIG0 => 0xB3,
            RaioRegister::BTE_HIG1 => 0xB4,
            RaioRegister::APB_CTRL => 0xB5,
            RaioRegister::FGCR => 0xD2,
            RaioRegister::FGCG => 0xD3,
            RaioRegister::FGCB => 0xD4,
            RaioRegister::BGCR => 0xD5,
            RaioRegister::BGCG => 0xD6,
            RaioRegister::BGCB => 0xD7,
            RaioRegister::SDRAR => 0xE0,
            RaioRegister::SDR_REF_ITVL0 => 0xE2,
            RaioRegister::SDR_REF_ITVL1 => 0xE3,
            RaioRegister::SDRCR => 0xE4,
        }
    }

    /// The register's bus address.
    pub fn addr(self) -> (a: u8)
        ensures
            a == self.addr_spec(),
    {
        match self {
            RaioRegister::Srr => 0x00,
            RaioRegister::Ccr => 0x01,
            RaioRegister::Macr => 0x02,
            RaioRegister::Icr => 0x03,
            RaioRegister::Mrwdp => 0x04,
            RaioRegister::Ppllc1 => 0x05,
            RaioRegister::Ppllc2 => 0x06,
            RaioRegister::Mpllc1 => 0x07,
            RaioRegister::Mpllc2 => 0x08,
            RaioRegister::Spllc1 => 0x09,
            RaioRegister::Spllc2 => 0x0A,
            RaioRegister::Inten => 0x0B,
            RaioRegister::Intf => 0x0C,
            RaioRegister::Mintfr => 0x0D,
            RaioRegister::Puenr => 0x0E,
            RaioRegister::Psfsr => 0x0F,
            RaioRegister::MPWCTR => 0x10,
            RaioRegister::Pipcdep => 0x11,
            RaioRegister::DPCR => 0x12,
            RaioRegister::PCSR => 0x13,
            RaioRegister::HDWR => 0x14,
            RaioRegister::HDWFTR => 0x15,
            RaioRegister::HNDR => 0x16,
            RaioRegister::HNDFTR => 0x17,
            RaioRegister::HSTR => 0x18,
            RaioRegister::HPWR => 0x19,
            RaioRegister::VDHR0 => 0x1A,
            RaioRegister::VDHR1 => 0x1B,
            RaioRegister::VNDR0 => 0x1C,
            RaioRegister::VNDR1 => 0x1D,
            RaioRegister::VSTR => 0x1E,
            RaioRegister::VPWR => 0x1F,
            RaioRegister::MISA0 => 0x20,
            RaioRegister::MISA1 => 0x21,
            RaioRegister::MISA2 => 0x22,
            RaioRegister::MISA3 => 0x23,
            RaioRegister::MIW0 => 0x24,
            RaioRegister::MIW1 => 0x25,
            RaioRegister::MWULX0 => 0x26,
            RaioRegister::MWULX1 => 0x27,
            RaioRegister::MWULY0 => 0x28,
            RaioRegister::MWULY1 => 0x29,
            RaioRegister::CvsSa => 0x50,
            RaioRegister::CVS_IMWTH0 => 0x54,
            RaioRegister::CVS_IMWTH1 => 0x55,
            RaioRegister::AW_WTH0 => 0x5A,
            RaioRegister::AW_WTH1 => 0x5B,
            RaioRegister::AW_HT0 => 0x5C,
            RaioRegister::AW_HT1 => 0x5D,
            RaioRegister::AW_COLOR => 0x5E,
            RaioRegister::CURH0 => 0x5F,
            RaioRegister::CURH1 => 0x60,
            RaioRegister::CURV0 => 0x61,
            RaioRegister::CURV1 => 0x62,
            RaioRegister::F_CURX0 => 0x63,
            RaioRegister::F_CURX1 => 0x64,
            RaioRegister::F_CURY0 => 0x65,
            RaioRegister::F_CURY1 => 0x66,
            RaioRegister::BTE_CTRL0 => 0x90,
            RaioRegister::BTE_CTRL1 => 0x91,
            RaioRegister::BTE_COLR => 0x92,
            RaioRegister::S0_STR0 => 0x93,
            RaioRegister::S0_STR1 => 0x94,
            RaioRegister::S0_STR2 => 0x95,
            RaioRegister::S0_STR3 => 0x96,
            RaioRegister::S0_WTH0 => 0x97,
            RaioRegister::S0_WTH1 => 0x98,
            RaioRegister::S0_X0 => 0x99,
            RaioRegister::S0_X1 => 0x9A,
            RaioRegister::S0_Y0 => 0x9B,
            RaioRegister::S0_Y1 => 0x9C,
            RaioRegister::S1_STR0 => 0x9D,
            RaioRegister::S1_STR1 => 0x9E,
            RaioRegister::S1_STR2 => 0x9F,
            RaioRegister::S1_STR3 => 0xA0,
            RaioRegister::S1_WTH0 => 0xA1,
            RaioRegister::S1_WTH1 => 0xA2,
            RaioRegister::S1_X0 => 0xA3,
            RaioRegister::S1_X1 => 0xA4,
            RaioRegister::S1_Y0 => 0xA5,
            RaioRegister::S1_Y1 => 0xA6,
            RaioRegister::DtStr0 => 0xA7,
            RaioRegister::DtStr1 => 0xA8,
            RaioRegister::DtStr2 => 0xA9,
            RaioRegister::DtStr3 => 0xAA,
            RaioRegister::DtWth0 => 0xAB,
            RaioRegister::DtWth1 => 0xAC,
            RaioRegister::DtX0 => 0xAD,
            RaioRegister::DtX1 => 0xAE,
            RaioRegister::DtY0 => 0xAF,
            RaioRegister::DtY1 => 0xB0,
            RaioRegister::BTE_WTH0 => 0xB1,
            RaioRegister::BTE_WTH1 => 0xB2,
            RaioRegister::BTE_HIG0 => 0xB3,
            RaioRegister::BTE_HIG1 => 0xB4,
            RaioRegister::APB_CTRL => 0xB5,
            RaioRegister::FGCR => 0xD2,
            RaioRegister::FGCG => 0xD3,
            RaioRegister::FGCB => 0xD4,
            RaioRegister::BGCR => 0xD5,
            RaioRegister::BGCG => 0xD6,
            RaioRegister::BGCB => 0xD7,
            RaioRegister::SDRAR => 0xE0,
            RaioRegister::SDR_REF_ITVL0 => 0xE2,
            RaioRegister::SDR_REF_ITVL1 => 0xE3,
            RaioRegister::SDRCR => 0xE4,
        }
    }
}

} // verus!
