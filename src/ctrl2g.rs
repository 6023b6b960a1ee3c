//! Angular rate sensor control register 2 (CTRL2_G).

use vstd::prelude::*;

use crate::register::{
    lemma_bits_2_3_fit, lemma_high_nibble_fits, lemma_single_bit_fits, Register, RegisterSetting,
};

verus! {

/// Angular rate sensor control register 2 (r/w).
pub struct Ctrl2G(pub OdrG, pub FsG, pub Fs125);

impl Register for Ctrl2G {
    open spec fn spec_address(&self) -> u8 {
        0x11
    }

    open spec fn spec_value(&self) -> u8 {
        self.0.spec_value() | self.1.spec_value() | self.2.spec_value()
    }

    fn address(&self) -> (r: u8) {
        0x11
    }

    fn value(&self) -> (r: u8) {
        let Ctrl2G(odrg, fsg, fs125) = self;
        odrg.value() | fsg.value() | fs125.value()
    }
}

/// The settings of CTRL2_G own pairwise disjoint bits, and the bits of the
/// register byte under each setting's mask are exactly that setting's pattern.
pub proof fn lemma_ctrl2g_fields(reg: Ctrl2G)
    ensures
        OdrG::spec_mask() & FsG::spec_mask() == 0,
        OdrG::spec_mask() & Fs125::spec_mask() == 0,
        FsG::spec_mask() & Fs125::spec_mask() == 0,
        reg.spec_value() & OdrG::spec_mask() == reg.0.spec_value(),
        reg.spec_value() & FsG::spec_mask() == reg.1.spec_value(),
        reg.spec_value() & Fs125::spec_mask() == reg.2.spec_value(),
{
    reg.0.lemma_value_fits();
    reg.1.lemma_value_fits();
    reg.2.lemma_value_fits();
    let a = reg.0.spec_value();
    let b = reg.1.spec_value();
    let c = reg.2.spec_value();
    assert(0xF0u8 & 0x0Cu8 == 0 && 0xF0u8 & 0x02u8 == 0 && 0x0Cu8 & 0x02u8 == 0) by (bit_vector);
    assert((a | b | c) & 0xF0 == a && (a | b | c) & 0x0C == b && (a | b | c) & 0x02 == c)
        by (bit_vector)
        requires
            a & !0xF0u8 == 0,
            b & !0x0Cu8 == 0,
            c & !0x02u8 == 0,
    ;
}

/// Decoding the byte written for a CTRL2_G value recovers every setting it
/// was built from.
pub proof fn lemma_ctrl2g_round_trip(reg: Ctrl2G)
    ensures
        OdrG::spec_decode(reg.spec_value() & OdrG::spec_mask()) == Some(reg.0),
        FsG::spec_decode(reg.spec_value() & FsG::spec_mask()) == Some(reg.1),
        Fs125::spec_decode(reg.spec_value() & Fs125::spec_mask()) == Some(reg.2),
{
    lemma_ctrl2g_fields(reg);
    OdrG::lemma_decode_value(reg.0);
    FsG::lemma_decode_value(reg.1);
    Fs125::lemma_decode_value(reg.2);
}

/// Gyroscope output data rate selection.
#[derive(Clone, Copy, Debug, PartialEq, Eq, Structural)]
pub enum OdrG {
    /// Power-down
    PowerDown,
    /// 12.5 Hz
    DataRate12_5Hz,
    /// 26 Hz
    DataRate26Hz,
    /// 52 Hz
    DataRate52Hz,
    /// 104 Hz
    DataRate104Hz,
    /// 208 Hz
    DataRate208Hz,
    /// 416 Hz
    DataRate416Hz,
    /// 833 Hz
    DataRate833Hz,
    /// 1.66 kHz
    DataRate1_66Khz,
}

impl RegisterSetting for OdrG {
    open spec fn spec_value(&self) -> u8 {
        match self {
            OdrG::PowerDown => 0x00,
            OdrG::DataRate12_5Hz => 0x10,
            OdrG::DataRate26Hz => 0x20,
            OdrG::DataRate52Hz => 0x30,
            OdrG::DataRate104Hz => 0x40,
            OdrG::DataRate208Hz => 0x50,
            OdrG::DataRate416Hz => 0x60,
            OdrG::DataRate833Hz => 0x70,
            OdrG::DataRate1_66Khz => 0x80,
        }
    }

    open spec fn spec_mask() -> u8 {
        0xF0
    }

    open spec fn spec_decode(bits: u8) -> Option<OdrG> {
        if bits == 0x00 {
            Some(OdrG::PowerDown)
        } else if bits == 0x10 {
            Some(OdrG::DataRate12_5Hz)
        } else if bits == 0x20 {
            Some(OdrG::DataRate26Hz)
        } else if bits == 0x30 {
            Some(OdrG::DataRate52Hz)
        } else if bits == 0x40 {
            Some(OdrG::DataRate104Hz)
        } else if bits == 0x50 {
            Some(OdrG::DataRate208Hz)
        } else if bits == 0x60 {
            Some(OdrG::DataRate416Hz)
        } else if bits == 0x70 {
            Some(OdrG::DataRate833Hz)
        } else if bits == 0x80 {
            Some(OdrG::DataRate1_66Khz)
        } else {
            None
        }
    }

    proof fn lemma_value_fits(&self) {
        lemma_high_nibble_fits(self.spec_value());
    }

    fn value(&self) -> (r: u8) {
        proof {
            self.lemma_value_fits();
        }
        match self {
            OdrG::PowerDown => 0b_0000_0000,
            OdrG::DataRate12_5Hz => 0b_0001_0000,
            OdrG::DataRate26Hz => 0b_0010_0000,
            OdrG::DataRate52Hz => 0b_0011_0000,
            OdrG::DataRate104Hz => 0b_0100_0000,
            OdrG::DataRate208Hz => 0b_0101_0000,
            OdrG::DataRate416Hz => 0b_0110_0000,
            OdrG::DataRate833Hz => 0b_0111_0000,
            OdrG::DataRate1_66Khz => 0b_1000_0000,
        }
    }

    fn mask(&self) -> (r: u8) {
        0b_1111_0000
    }

    fn decode(byte: u8) -> (r: Option<OdrG>) {
        let bits = byte & 0b_1111_0000;
        if bits == 0x00 {
            Some(OdrG::PowerDown)
        } else if bits == 0x10 {
            Some(OdrG::DataRate12_5Hz)
        } else if bits == 0x20 {
            Some(OdrG::DataRate26Hz)
        } else if bits == 0x30 {
            Some(OdrG::DataRate52Hz)
        } else if bits == 0x40 {
            Some(OdrG::DataRate104Hz)
        } else if bits == 0x50 {
            Some(OdrG::DataRate208Hz)
        } else if bits == 0x60 {
            Some(OdrG::DataRate416Hz)
        } else if bits == 0x70 {
            Some(OdrG::DataRate833Hz)
        } else if bits == 0x80 {
            Some(OdrG::DataRate1_66Khz)
        } else {
            None
        }
    }

    proof fn lemma_decode_value(s: OdrG) {
    }
}

/// Gyroscope full-scale selection.
#[derive(Clone, Copy, Debug, PartialEq, Eq, Structural)]
pub enum FsG {
    /// 250 dps
    Dps250,
    /// 500 dps
    Dps500,
    /// 1000 dps
    Dps1000,
    /// 2000 dps
    Dps2000,
}

impl RegisterSetting for FsG {
    open spec fn spec_value(&self) -> u8 {
        match self {
            FsG::Dps250 => 0x00,
            FsG::Dps500 => 0x04,
            FsG::Dps1000 => 0x08,
            FsG::Dps2000 => 0x0C,
        }
    }

    open spec fn spec_mask() -> u8 {
        0x0C
    }

    open spec fn spec_decode(bits: u8) -> Option<FsG> {
        if bits == 0x00 {
            Some(FsG::Dps250)
        } else if bits == 0x04 {
            Some(FsG::Dps500)
        } else if bits == 0x08 {
            Some(FsG::Dps1000)
        } else if bits == 0x0C {
            Some(FsG::Dps2000)
        } else {
            None
        }
    }

    proof fn lemma_value_fits(&self) {
        lemma_bits_2_3_fit(self.spec_value());
    }

    fn value(&self) -> (r: u8) {
        proof {
            self.lemma_value_fits();
        }
        match self {
            FsG::Dps250 => 0b_0000_0000,
            FsG::Dps500 => 0b_0000_0100,
            FsG::Dps1000 => 0b_0000_1000,
            FsG::Dps2000 => 0b_0000_1100,
        }
    }

    fn mask(&self) -> (r: u8) {
        0b_0000_1100
    }

    fn decode(byte: u8) -> (r: Option<FsG>) {
        let bits = byte & 0b_0000_1100;
        if bits == 0x00 {
            Some(FsG::Dps250)
        } else if bits == 0x04 {
            Some(FsG::Dps500)
        } else if bits == 0x08 {
            Some(FsG::Dps1000)
        } else if bits == 0x0C {
            Some(FsG::Dps2000)
        } else {
            None
        }
    }

    proof fn lemma_decode_value(s: FsG) {
    }
}

/// Gyroscope full-scale at 125 dps.
#[derive(Clone, Copy, Debug, PartialEq, Eq, Structural)]
pub enum Fs125 {
    /// Full scale chosen by FsG
    DpsByFsG,
    /// 125 dps
    Dps125,
}

impl RegisterSetting for Fs125 {
    open spec fn spec_value(&self) -> u8 {
        match self {
            Fs125::DpsByFsG => 0x00,
            Fs125::Dps125 => 0x02,
        }
    }

    open spec fn spec_mask() -> u8 {
        0x02
    }

    open spec fn spec_decode(bits: u8) -> Option<Fs125> {
        if bits == 0x00 {
            Some(Fs125::DpsByFsG)
        } else if bits == 0x02 {
            Some(Fs125::Dps125)
        } else {
            None
        }
    }

    proof fn lemma_value_fits(&self) {
        lemma_single_bit_fits(self.spec_value(), 0x02);
    }

    fn value(&self) -> (r: u8) {
        proof {
            self.lemma_value_fits();
        }
        match self {
            Fs125::DpsByFsG => 0b_0000_0000,
            Fs125::Dps125 => 0b_0000_0010,
        }
    }

    fn mask(&self) -> (r: u8) {
        0b_0000_0010
    }

    fn decode(byte: u8) -> (r: Option<Fs125>) {
        let bits = byte & 0b_0000_0010;
        if bits == 0x00 {
            Some(Fs125::DpsByFsG)
        } else if bits == 0x02 {
            Some(Fs125::Dps125)
        } else {
            None
        }
    }

    proof fn lemma_decode_value(s: Fs125) {
    }
}

} // verus!
