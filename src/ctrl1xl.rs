//! Linear acceleration sensor control register 1 (CTRL1_XL).

use vstd::prelude::*;

use crate::register::{
    lemma_bits_0_1_fit, lemma_bits_2_3_fit, lemma_high_nibble_fits, Register, RegisterSetting,
};

verus! {

/// Linear acceleration sensor control register 1 (r/w).
pub struct Ctrl1Xl(pub OdrXl, pub FsXl, pub BwXl);

impl Register for Ctrl1Xl {
    open spec fn spec_address(&self) -> u8 {
        0x10
    }

    open spec fn spec_value(&self) -> u8 {
        self.0.spec_value() | self.1.spec_value() | self.2.spec_value()
    }

    fn address(&self) -> (r: u8) {
        0x10
    }

    fn value(&self) -> (r: u8) {
        let Ctrl1Xl(odrxl, fsxl, bwxl) = self;
        odrxl.value() | fsxl.value() | bwxl.value()
    }
}

/// The settings of CTRL1_XL own pairwise disjoint bits, and the bits of the
/// register byte under each setting's mask are exactly that setting's pattern.
pub proof fn lemma_ctrl1xl_fields(reg: Ctrl1Xl)
    ensures
        OdrXl::spec_mask() & FsXl::spec_mask() == 0,
        OdrXl::spec_mask() & BwXl::spec_mask() == 0,
        FsXl::spec_mask() & BwXl::spec_mask() == 0,
        reg.spec_value() & OdrXl::spec_mask() == reg.0.spec_value(),
        reg.spec_value() & FsXl::spec_mask() == reg.1.spec_value(),
        reg.spec_value() & BwXl::spec_mask() == reg.2.spec_value(),
{
    reg.0.lemma_value_fits();
    reg.1.lemma_value_fits();
    reg.2.lemma_value_fits();
    let a = reg.0.spec_value();
    let b = reg.1.spec_value();
    let c = reg.2.spec_value();
    assert(0xF0u8 & 0x0Cu8 == 0 && 0xF0u8 & 0x03u8 == 0 && 0x0Cu8 & 0x03u8 == 0) by (bit_vector);
    assert((a | b | c) & 0xF0 == a && (a | b | c) & 0x0C == b && (a | b | c) & 0x03 == c)
        by (bit_vector)
        requires
            a & !0xF0u8 == 0,
            b & !0x0Cu8 == 0,
            c & !0x03u8 == 0,
    ;
}

/// Decoding the byte written for a CTRL1_XL value recovers every setting it
/// was built from.
pub proof fn lemma_ctrl1xl_round_trip(reg: Ctrl1Xl)
    ensures
        OdrXl::spec_decode(reg.spec_value() & OdrXl::spec_mask()) == Some(reg.0),
        FsXl::spec_decode(reg.spec_value() & FsXl::spec_mask()) == Some(reg.1),
        BwXl::spec_decode(reg.spec_value() & BwXl::spec_mask()) == Some(reg.2),
{
    lemma_ctrl1xl_fields(reg);
    OdrXl::lemma_decode_value(reg.0);
    FsXl::lemma_decode_value(reg.1);
    BwXl::lemma_decode_value(reg.2);
}

/// Output data rate and power mode selection.
#[derive(Clone, Copy, Debug, PartialEq, Eq, Structural)]
pub enum OdrXl {
    /// Power-down
    PowerDown,
    /// 12.5 Hz
    DataRate12_5Hz,
    /// 26 Hz
    DataRate26Hz,
    /// 52 Hz
    DataRate52Hz,
    /// 104 Hz
    DataRate104Hz,
    /// 208 Hz
    DataRate208Hz,
    /// 416 Hz
    DataRate416Hz,
    /// 833 Hz
    DataRate833Hz,
    /// 1.66 kHz
    DataRate1_66Khz,
    /// 3.33 kHz
    DataRate3_33Khz,
    /// 6.66 kHz
    DataRate6_66Khz,
}

impl RegisterSetting for OdrXl {
    open spec fn spec_value(&self) -> u8 {
        match self {
            OdrXl::PowerDown => 0x00,
            OdrXl::DataRate12_5Hz => 0x10,
            OdrXl::DataRate26Hz => 0x20,
            OdrXl::DataRate52Hz => 0x30,
            OdrXl::DataRate104Hz => 0x40,
            OdrXl::DataRate208Hz => 0x50,
            OdrXl::DataRate416Hz => 0x60,
            OdrXl::DataRate833Hz => 0x70,
            OdrXl::DataRate1_66Khz => 0x80,
            OdrXl::DataRate3_33Khz => 0x90,
            OdrXl::DataRate6_66Khz => 0xA0,
        }
    }

    open spec fn spec_mask() -> u8 {
        0xF0
    }

    open spec fn spec_decode(bits: u8) -> Option<OdrXl> {
        if bits == 0x00 {
            Some(OdrXl::PowerDown)
        } else if bits == 0x10 {
            Some(OdrXl::DataRate12_5Hz)
        } else if bits == 0x20 {
            Some(OdrXl::DataRate26Hz)
        } else if bits == 0x30 {
            Some(OdrXl::DataRate52Hz)
        } else if bits == 0x40 {
            Some(OdrXl::DataRate104Hz)
        } else if bits == 0x50 {
            Some(OdrXl::DataRate208Hz)
        } else if bits == 0x60 {
            Some(OdrXl::DataRate416Hz)
        } else if bits == 0x70 {
            Some(OdrXl::DataRate833Hz)
        } else if bits == 0x80 {
            Some(OdrXl::DataRate1_66Khz)
        } else if bits == 0x90 {
            Some(OdrXl::DataRate3_33Khz)
        } else if bits == 0xA0 {
            Some(OdrXl::DataRate6_66Khz)
        } else {
            None
        }
    }

    proof fn lemma_value_fits(&self) {
        lemma_high_nibble_fits(self.spec_value());
    }

    fn value(&self) -> (r: u8) {
        proof {
            self.lemma_value_fits();
        }
        match self {
            OdrXl::PowerDown => 0b_0000_0000,
            OdrXl::DataRate12_5Hz => 0b_0001_0000,
            OdrXl::DataRate26Hz => 0b_0010_0000,
            OdrXl::DataRate52Hz => 0b_0011_0000,
            OdrXl::DataRate104Hz => 0b_0100_0000,
            OdrXl::DataRate208Hz => 0b_0101_0000,
            OdrXl::DataRate416Hz => 0b_0110_0000,
            OdrXl::DataRate833Hz => 0b_0111_0000,
            OdrXl::DataRate1_66Khz => 0b_1000_0000,
            OdrXl::DataRate3_33Khz => 0b_1001_0000,
            OdrXl::DataRate6_66Khz => 0b_1010_0000,
        }
    }

    fn mask(&self) -> (r: u8) {
        0b_1111_0000
    }

    fn decode(byte: u8) -> (r: Option<OdrXl>) {
        let bits = byte & 0b_1111_0000;
        if bits == 0x00 {
            Some(OdrXl::PowerDown)
        } else if bits == 0x10 {
            Some(OdrXl::DataRate12_5Hz)
        } else if bits == 0x20 {
            Some(OdrXl::DataRate26Hz)
        } else if bits == 0x30 {
            Some(OdrXl::DataRate52Hz)
        } else if bits == 0x40 {
            Some(OdrXl::DataRate104Hz)
        } else if bits == 0x50 {
            Some(OdrXl::DataRate208Hz)
        } else if bits == 0x60 {
            Some(OdrXl::DataRate416Hz)
        } else if bits == 0x70 {
            Some(OdrXl::DataRate833Hz)
        } else if bits == 0x80 {
            Some(OdrXl::DataRate1_66Khz)
        } else if bits == 0x90 {
            Some(OdrXl::DataRate3_33Khz)
        } else if bits == 0xA0 {
            Some(OdrXl::DataRate6_66Khz)
        } else {
            None
        }
    }

    proof fn lemma_decode_value(s: OdrXl) {
    }
}

/// Accelerometer full-scale selection.
#[derive(Clone, Copy, Debug, PartialEq, Eq, Structural)]
pub enum FsXl {
    /// ±2g
    TwoG,
    /// ±4g
    FourG,
    /// ±8g
    EightG,
    /// ±16g
    SixteenG,
}

impl RegisterSetting for FsXl {
    open spec fn spec_value(&self) -> u8 {
        match self {
            FsXl::TwoG => 0x00,
            FsXl::FourG => 0x08,
            FsXl::EightG => 0x0C,
            FsXl::SixteenG => 0x04,
        }
    }

    open spec fn spec_mask() -> u8 {
        0x0C
    }

    open spec fn spec_decode(bits: u8) -> Option<FsXl> {
        if bits == 0x00 {
            Some(FsXl::TwoG)
        } else if bits == 0x08 {
            Some(FsXl::FourG)
        } else if bits == 0x0C {
            Some(FsXl::EightG)
        } else if bits == 0x04 {
            Some(FsXl::SixteenG)
        } else {
            None
        }
    }

    proof fn lemma_value_fits(&self) {
        lemma_bits_2_3_fit(self.spec_value());
    }

    fn value(&self) -> (r: u8) {
        proof {
            self.lemma_value_fits();
        }
        match self {
            FsXl::TwoG => 0b_0000_0000,
            FsXl::FourG => 0b_0000_1000,
            FsXl::EightG => 0b_0000_1100,
            FsXl::SixteenG => 0b_0000_0100,
        }
    }

    fn mask(&self) -> (r: u8) {
        0b_0000_1100
    }

    fn decode(byte: u8) -> (r: Option<FsXl>) {
        let bits = byte & 0b_0000_1100;
        if bits == 0x00 {
            Some(FsXl::TwoG)
        } else if bits == 0x08 {
            Some(FsXl::FourG)
        } else if bits == 0x0C {
            Some(FsXl::EightG)
        } else if bits == 0x04 {
            Some(FsXl::SixteenG)
        } else {
            None
        }
    }

    proof fn lemma_decode_value(s: FsXl) {
    }
}

/// Anti-aliasing filter bandwidth selection.
#[derive(Clone, Copy, Debug, PartialEq, Eq, Structural)]
pub enum BwXl {
    /// 50 Hz
    Bw50Hz,
    /// 100 Hz
    Bw100Hz,
    /// 200 Hz
    Bw200Hz,
    /// 400 Hz
    Bw400Hz,
}

impl RegisterSetting for BwXl {
    open spec fn spec_value(&self) -> u8 {
        match self {
            BwXl::Bw50Hz => 0x03,
            BwXl::Bw100Hz => 0x02,
            BwXl::Bw200Hz => 0x01,
            BwXl::Bw400Hz => 0x00,
        }
    }

    open spec fn spec_mask() -> u8 {
        0x03
    }

    open spec fn spec_decode(bits: u8) -> Option<BwXl> {
        if bits == 0x03 {
            Some(BwXl::Bw50Hz)
        } else if bits == 0x02 {
            Some(BwXl::Bw100Hz)
        } else if bits == 0x01 {
            Some(BwXl::Bw200Hz)
        } else if bits == 0x00 {
            Some(BwXl::Bw400Hz)
        } else {
            None
        }
    }

    proof fn lemma_value_fits(&self) {
        lemma_bits_0_1_fit(self.spec_value());
    }

    fn value(&self) -> (r: u8) {
        proof {
            self.lemma_value_fits();
        }
        match self {
            BwXl::Bw50Hz => 0b_0000_0011,
            BwXl::Bw100Hz => 0b_0000_0010,
            BwXl::Bw200Hz => 0b_0000_0001,
            BwXl::Bw400Hz => 0b_0000_0000,
        }
    }

    fn mask(&self) -> (r: u8) {
        0b_0000_0011
    }

    fn decode(byte: u8) -> (r: Option<BwXl>) {
        let bits = byte & 0b_0000_0011;
        if bits == 0x03 {
            Some(BwXl::Bw50Hz)
        } else if bits == 0x02 {
            Some(BwXl::Bw100Hz)
        } else if bits == 0x01 {
            Some(BwXl::Bw200Hz)
        } else if bits == 0x00 {
            Some(BwXl::Bw400Hz)
        } else {
            None
        }
    }

    proof fn lemma_decode_value(s: BwXl) {
    }
}

} // verus!
