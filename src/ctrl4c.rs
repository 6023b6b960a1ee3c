//! Control register 4 (CTRL4_C): bandwidth source, gyroscope sleep, interrupt
//! routing, FIFO and interface options.

use vstd::prelude::*;

use crate::register::{lemma_single_bit_fits, Register, RegisterSetting};

verus! {

/// Control register 4 (r/w).
pub struct Ctrl4C(
    pub XlBwScalOdr,
    pub SleepG,
    pub Int2OnInt1,
    pub FifoTempEn,
    pub DrdyMask,
    pub I2cDisable,
    pub StopOnFth,
);

impl Register for Ctrl4C {
    open spec fn spec_address(&self) -> u8 {
        0x13
    }

    open spec fn spec_value(&self) -> u8 {
        self.0.spec_value() | self.1.spec_value() | self.2.spec_value() | self.3.spec_value()
            | self.4.spec_value() | self.5.spec_value() | self.6.spec_value()
    }

    fn address(&self) -> (r: u8) {
        0x13
    }

    fn value(&self) -> (r: u8) {
        let Ctrl4C(xlbwscalodr, sleepg, int2onint1, fifotempen, drdymask, i2cdisable, stoponfth) =
            self;
        xlbwscalodr.value() | sleepg.value() | int2onint1.value() | fifotempen.value()
            | drdymask.value() | i2cdisable.value() | stoponfth.value()
    }
}

/// The settings of CTRL4_C own pairwise disjoint bits, and the bits of the
/// register byte under each setting's mask are exactly that setting's pattern.
pub proof fn lemma_ctrl4c_fields(reg: Ctrl4C)
    ensures
        XlBwScalOdr::spec_mask() & SleepG::spec_mask() == 0,
        XlBwScalOdr::spec_mask() & Int2OnInt1::spec_mask() == 0,
        XlBwScalOdr::spec_mask() & FifoTempEn::spec_mask() == 0,
        XlBwScalOdr::spec_mask() & DrdyMask::spec_mask() == 0,
        XlBwScalOdr::spec_mask() & I2cDisable::spec_mask() == 0,
        XlBwScalOdr::spec_mask() & StopOnFth::spec_mask() == 0,
        SleepG::spec_mask() & Int2OnInt1::spec_mask() == 0,
        SleepG::spec_mask() & FifoTempEn::spec_mask() == 0,
        SleepG::spec_mask() & DrdyMask::spec_mask() == 0,
        SleepG::spec_mask() & I2cDisable::spec_mask() == 0,
        SleepG::spec_mask() & StopOnFth::spec_mask() == 0,
        Int2OnInt1::spec_mask() & FifoTempEn::spec_mask() == 0,
        Int2OnInt1::spec_mask() & DrdyMask::spec_mask() == 0,
        Int2OnInt1::spec_mask() & I2cDisable::spec_mask() == 0,
        Int2OnInt1::spec_mask() & StopOnFth::spec_mask() == 0,
        FifoTempEn::spec_mask() & DrdyMask::spec_mask() == 0,
        FifoTempEn::spec_mask() & I2cDisable::spec_mask() == 0,
        FifoTempEn::spec_mask() & StopOnFth::spec_mask() == 0,
        DrdyMask::spec_mask() & I2cDisable::spec_mask() == 0,
        DrdyMask::spec_mask() & StopOnFth::spec_mask() == 0,
        I2cDisable::spec_mask() & StopOnFth::spec_mask() == 0,
        reg.spec_value() & XlBwScalOdr::spec_mask() == reg.0.spec_value(),
        reg.spec_value() & SleepG::spec_mask() == reg.1.spec_value(),
        reg.spec_value() & Int2OnInt1::spec_mask() == reg.2.spec_value(),
        reg.spec_value() & FifoTempEn::spec_mask() == reg.3.spec_value(),
        reg.spec_value() & DrdyMask::spec_mask() == reg.4.spec_value(),
        reg.spec_value() & I2cDisable::spec_mask() == reg.5.spec_value(),
        reg.spec_value() & StopOnFth::spec_mask() == reg.6.spec_value(),
{
    reg.0.lemma_value_fits();
    reg.1.lemma_value_fits();
    reg.2.lemma_value_fits();
    reg.3.lemma_value_fits();
    reg.4.lemma_value_fits();
    reg.5.lemma_value_fits();
    reg.6.lemma_value_fits();
    let a = reg.0.spec_value();
    let b = reg.1.spec_value();
    let c = reg.2.spec_value();
    let d = reg.3.spec_value();
    let e = reg.4.spec_value();
    let f = reg.5.spec_value();
    let g = reg.6.spec_value();
    assert(0x80u8 & 0x40u8 == 0 && 0x80u8 & 0x20u8 == 0 && 0x80u8 & 0x10u8 == 0 && 0x80u8 & 0x08u8 == 0 && 0x80u8 & 0x04u8 == 0 && 0x80u8 & 0x01u8 == 0 && 0x40u8 & 0x20u8 == 0 && 0x40u8 & 0x10u8 == 0 && 0x40u8 & 0x08u8 == 0 && 0x40u8 & 0x04u8 == 0 && 0x40u8 & 0x01u8 == 0 && 0x20u8 & 0x10u8 == 0 && 0x20u8 & 0x08u8 == 0 && 0x20u8 & 0x04u8 == 0 && 0x20u8 & 0x01u8 == 0 && 0x10u8 & 0x08u8 == 0 && 0x10u8 & 0x04u8 == 0 && 0x10u8 & 0x01u8 == 0 && 0x08u8 & 0x04u8 == 0 && 0x08u8 & 0x01u8 == 0 && 0x04u8 & 0x01u8 == 0) by (bit_vector);
    assert((a | b | c | d | e | f | g) & 0x80 == a && (a | b | c | d | e | f | g) & 0x40 == b && (a | b | c | d | e | f | g) & 0x20 == c && (a | b | c | d | e | f | g) & 0x10 == d && (a | b | c | d | e | f | g) & 0x08 == e && (a | b | c | d | e | f | g) & 0x04 == f && (a | b | c | d | e | f | g) & 0x01 == g) by (bit_vector)
        requires
            a & !0x80u8 == 0,
            b & !0x40u8 == 0,
            c & !0x20u8 == 0,
            d & !0x10u8 == 0,
            e & !0x08u8 == 0,
            f & !0x04u8 == 0,
            g & !0x01u8 == 0,
    ;
}

/// Decoding the byte written for a CTRL4_C value recovers every setting it
/// was built from.
pub proof fn lemma_ctrl4c_round_trip(reg: Ctrl4C)
    ensures
        XlBwScalOdr::spec_decode(reg.spec_value() & XlBwScalOdr::spec_mask()) == Some(reg.0),
        SleepG::spec_decode(reg.spec_value() & SleepG::spec_mask()) == Some(reg.1),
        Int2OnInt1::spec_decode(reg.spec_value() & Int2OnInt1::spec_mask()) == Some(reg.2),
        FifoTempEn::spec_decode(reg.spec_value() & FifoTempEn::spec_mask()) == Some(reg.3),
        DrdyMask::spec_decode(reg.spec_value() & DrdyMask::spec_mask()) == Some(reg.4),
        I2cDisable::spec_decode(reg.spec_value() & I2cDisable::spec_mask()) == Some(reg.5),
        StopOnFth::spec_decode(reg.spec_value() & StopOnFth::spec_mask()) == Some(reg.6),
{
    lemma_ctrl4c_fields(reg);
    XlBwScalOdr::lemma_decode_value(reg.0);
    SleepG::lemma_decode_value(reg.1);
    Int2OnInt1::lemma_decode_value(reg.2);
    FifoTempEn::lemma_decode_value(reg.3);
    DrdyMask::lemma_decode_value(reg.4);
    I2cDisable::lemma_decode_value(reg.5);
    StopOnFth::lemma_decode_value(reg.6);
}

/// Accelerometer bandwidth source.
#[derive(Clone, Copy, Debug, PartialEq, Eq, Structural)]
pub enum XlBwScalOdr {
    /// Bandwidth determined by ODR selection
    ByOdr,
    /// Bandwidth determined by setting `BwXl` in `Ctrl1Xl`
    ByBwXl,
}

impl RegisterSetting for XlBwScalOdr {
    open spec fn spec_value(&self) -> u8 {
        match self {
            XlBwScalOdr::ByOdr => 0x00,
            XlBwScalOdr::ByBwXl => 0x80,
        }
    }

    open spec fn spec_mask() -> u8 {
        0x80
    }

    open spec fn spec_decode(bits: u8) -> Option<XlBwScalOdr> {
        if bits == 0x00 {
            Some(XlBwScalOdr::ByOdr)
        } else if bits == 0x80 {
            Some(XlBwScalOdr::ByBwXl)
        } else {
            None
        }
    }

    proof fn lemma_value_fits(&self) {
        lemma_single_bit_fits(self.spec_value(), 0x80);
    }

    fn value(&self) -> (r: u8) {
        proof {
            self.lemma_value_fits();
        }
        match self {
            XlBwScalOdr::ByOdr => 0b_0000_0000,
            XlBwScalOdr::ByBwXl => 0b_1000_0000,
        }
    }

    fn mask(&self) -> (r: u8) {
        0b_1000_0000
    }

    fn decode(byte: u8) -> (r: Option<XlBwScalOdr>) {
        let bits = byte & 0b_1000_0000;
        if bits == 0x00 {
            Some(XlBwScalOdr::ByOdr)
        } else if bits == 0x80 {
            Some(XlBwScalOdr::ByBwXl)
        } else {
            None
        }
    }

    proof fn lemma_decode_value(s: XlBwScalOdr) {
    }
}

/// Gyroscope sleep mode.
#[derive(Clone, Copy, Debug, PartialEq, Eq, Structural)]
pub enum SleepG {
    /// Gyroscope sleep mode enabled
    GyroEnable,
    /// Gyroscope sleep mode disabled
    GyroDisable,
}

impl RegisterSetting for SleepG {
    open spec fn spec_value(&self) -> u8 {
        match self {
            SleepG::GyroEnable => 0x00,
            SleepG::GyroDisable => 0x40,
        }
    }

    open spec fn spec_mask() -> u8 {
        0x40
    }

    open spec fn spec_decode(bits: u8) -> Option<SleepG> {
        if bits == 0x00 {
            Some(SleepG::GyroEnable)
        } else if bits == 0x40 {
            Some(SleepG::GyroDisable)
        } else {
            None
        }
    }

    proof fn lemma_value_fits(&self) {
        lemma_single_bit_fits(self.spec_value(), 0x40);
    }

    fn value(&self) -> (r: u8) {
        proof {
            self.lemma_value_fits();
        }
        match self {
            SleepG::GyroEnable => 0b_0000_0000,
            SleepG::GyroDisable => 0b_0100_0000,
        }
    }

    fn mask(&self) -> (r: u8) {
        0b_0100_0000
    }

    fn decode(byte: u8) -> (r: Option<SleepG>) {
        let bits = byte & 0b_0100_0000;
        if bits == 0x00 {
            Some(SleepG::GyroEnable)
        } else if bits == 0x40 {
            Some(SleepG::GyroDisable)
        } else {
            None
        }
    }

    proof fn lemma_decode_value(s: SleepG) {
    }
}

/// Interrupt pad routing.
#[derive(Clone, Copy, Debug, PartialEq, Eq, Structural)]
pub enum Int2OnInt1 {
    /// all interrupt signals in logic or on INT1 pad
    Int1Only,
    /// interrupt signals divided between INT1 and INT2 pads
    Int1AndInt2,
}

impl RegisterSetting for Int2OnInt1 {
    open spec fn spec_value(&self) -> u8 {
        match self {
            Int2OnInt1::Int1Only => 0x20,
            Int2OnInt1::Int1AndInt2 => 0x00,
        }
    }

    open spec fn spec_mask() -> u8 {
        0x20
    }

    open spec fn spec_decode(bits: u8) -> Option<Int2OnInt1> {
        if bits == 0x20 {
            Some(Int2OnInt1::Int1Only)
        } else if bits == 0x00 {
            Some(Int2OnInt1::Int1AndInt2)
        } else {
            None
        }
    }

    proof fn lemma_value_fits(&self) {
        lemma_single_bit_fits(self.spec_value(), 0x20);
    }

    fn value(&self) -> (r: u8) {
        proof {
            self.lemma_value_fits();
        }
        match self {
            Int2OnInt1::Int1Only => 0b_0010_0000,
            Int2OnInt1::Int1AndInt2 => 0b_0000_0000,
        }
    }

    fn mask(&self) -> (r: u8) {
        0b_0010_0000
    }

    fn decode(byte: u8) -> (r: Option<Int2OnInt1>) {
        let bits = byte & 0b_0010_0000;
        if bits == 0x20 {
            Some(Int2OnInt1::Int1Only)
        } else if bits == 0x00 {
            Some(Int2OnInt1::Int1AndInt2)
        } else {
            None
        }
    }

    proof fn lemma_decode_value(s: Int2OnInt1) {
    }
}

/// Enable temperature data as 3rd FIFO data set
#[derive(Clone, Copy, Debug, PartialEq, Eq, Structural)]
pub enum FifoTempEn {
    /// enable temperature data as 3rd FIFO data set
    TempDataEnable,
    /// disable temperature data as 3rd FIFO data set
    TempDataDisable,
}

impl RegisterSetting for FifoTempEn {
    open spec fn spec_value(&self) -> u8 {
        match self {
            FifoTempEn::TempDataEnable => 0x10,
            FifoTempEn::TempDataDisable => 0x00,
        }
    }

    open spec fn spec_mask() -> u8 {
        0x10
    }

    open spec fn spec_decode(bits: u8) -> Option<FifoTempEn> {
        if bits == 0x10 {
            Some(FifoTempEn::TempDataEnable)
        } else if bits == 0x00 {
            Some(FifoTempEn::TempDataDisable)
        } else {
            None
        }
    }

    proof fn lemma_value_fits(&self) {
        lemma_single_bit_fits(self.spec_value(), 0x10);
    }

    fn value(&self) -> (r: u8) {
        proof {
            self.lemma_value_fits();
        }
        match self {
            FifoTempEn::TempDataEnable => 0b_0001_0000,
            FifoTempEn::TempDataDisable => 0b_0000_0000,
        }
    }

    fn mask(&self) -> (r: u8) {
        0b_0001_0000
    }

    fn decode(byte: u8) -> (r: Option<FifoTempEn>) {
        let bits = byte & 0b_0001_0000;
        if bits == 0x10 {
            Some(FifoTempEn::TempDataEnable)
        } else if bits == 0x00 {
            Some(FifoTempEn::TempDataDisable)
        } else {
            None
        }
    }

    proof fn lemma_decode_value(s: FifoTempEn) {
    }
}

/// Data-ready mask enable. If enabled, when switching from Power-Down to an active mode,
/// the accelerometer and gyroscope data-ready signals are masked until the settling of the sensor
/// filters is completed
#[derive(Clone, Copy, Debug, PartialEq, Eq, Structural)]
pub enum DrdyMask {
    /// Data-ready mask enable
    DrdyMaskEnable,
    /// Data-ready mask disable
    DrdyMaskDisable,
}

impl RegisterSetting for DrdyMask {
    open spec fn spec_value(&self) -> u8 {
        match self {
            DrdyMask::DrdyMaskEnable => 0x08,
            DrdyMask::DrdyMaskDisable => 0x00,
        }
    }

    open spec fn spec_mask() -> u8 {
        0x08
    }

    open spec fn spec_decode(bits: u8) -> Option<DrdyMask> {
        if bits == 0x08 {
            Some(DrdyMask::DrdyMaskEnable)
        } else if bits == 0x00 {
            Some(DrdyMask::DrdyMaskDisable)
        } else {
            None
        }
    }

    proof fn lemma_value_fits(&self) {
        lemma_single_bit_fits(self.spec_value(), 0x08);
    }

    fn value(&self) -> (r: u8) {
        proof {
            self.lemma_value_fits();
        }
        match self {
            DrdyMask::DrdyMaskEnable => 0b_0000_1000,
            DrdyMask::DrdyMaskDisable => 0b_0000_0000,
        }
    }

    fn mask(&self) -> (r: u8) {
        0b_0000_1000
    }

    fn decode(byte: u8) -> (r: Option<DrdyMask>) {
        let bits = byte & 0b_0000_1000;
        if bits == 0x08 {
            Some(DrdyMask::DrdyMaskEnable)
        } else if bits == 0x00 {
            Some(DrdyMask::DrdyMaskDisable)
        } else {
            None
        }
    }

    proof fn lemma_decode_value(s: DrdyMask) {
    }
}

/// Disable I2C interface
#[derive(Clone, Copy, Debug, PartialEq, Eq, Structural)]
pub enum I2cDisable {
    /// both I2C and SPI enabled
    I2cEnable,
    /// I2C disabled, SPI only
    I2cDisable,
}

impl RegisterSetting for I2cDisable {
    open spec fn spec_value(&self) -> u8 {
        match self {
            I2cDisable::I2cEnable => 0x00,
            I2cDisable::I2cDisable => 0x04,
        }
    }

    open spec fn spec_mask() -> u8 {
        0x04
    }

    open spec fn spec_decode(bits: u8) -> Option<I2cDisable> {
        if bits == 0x00 {
            Some(I2cDisable::I2cEnable)
        } else if bits == 0x04 {
            Some(I2cDisable::I2cDisable)
        } else {
            None
        }
    }

    proof fn lemma_value_fits(&self) {
        lemma_single_bit_fits(self.spec_value(), 0x04);
    }

    fn value(&self) -> (r: u8) {
        proof {
            self.lemma_value_fits();
        }
        match self {
            I2cDisable::I2cEnable => 0b_0000_0000,
            I2cDisable::I2cDisable => 0b_0000_0100,
        }
    }

    fn mask(&self) -> (r: u8) {
        0b_0000_0100
    }

    fn decode(byte: u8) -> (r: Option<I2cDisable>) {
        let bits = byte & 0b_0000_0100;
        if bits == 0x00 {
            Some(I2cDisable::I2cEnable)
        } else if bits == 0x04 {
            Some(I2cDisable::I2cDisable)
        } else {
            None
        }
    }

    proof fn lemma_decode_value(s: I2cDisable) {
    }
}

/// Enable FIFO threshold level use.
#[derive(Clone, Copy, Debug, PartialEq, Eq, Structural)]
pub enum StopOnFth {
    /// FIFO depth is limited to threshold level
    FifoDepthLimitedByThreshold,
    /// FIFO depth is not limited
    FifoDepthUnlimited,
}

impl RegisterSetting for StopOnFth {
    open spec fn spec_value(&self) -> u8 {
        match self {
            StopOnFth::FifoDepthLimitedByThreshold => 0x01,
            StopOnFth::FifoDepthUnlimited => 0x00,
        }
    }

    open spec fn spec_mask() -> u8 {
        0x01
    }

    open spec fn spec_decode(bits: u8) -> Option<StopOnFth> {
        if bits == 0x01 {
            Some(StopOnFth::FifoDepthLimitedByThreshold)
        } else if bits == 0x00 {
            Some(StopOnFth::FifoDepthUnlimited)
        } else {
            None
        }
    }

    proof fn lemma_value_fits(&self) {
        lemma_single_bit_fits(self.spec_value(), 0x01);
    }

    fn value(&self) -> (r: u8) {
        proof {
            self.lemma_value_fits();
        }
        match self {
            StopOnFth::FifoDepthLimitedByThreshold => 0b_0000_0001,
            StopOnFth::FifoDepthUnlimited => 0b_0000_0000,
        }
    }

    fn mask(&self) -> (r: u8) {
        0b_0000_0001
    }

    fn decode(byte: u8) -> (r: Option<StopOnFth>) {
        let bits = byte & 0b_0000_0001;
        if bits == 0x01 {
            Some(StopOnFth::FifoDepthLimitedByThreshold)
        } else if bits == 0x00 {
            Some(StopOnFth::FifoDepthUnlimited)
        } else {
            None
        }
    }

    proof fn lemma_decode_value(s: StopOnFth) {
    }
}

} // verus!
