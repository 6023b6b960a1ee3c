use controller_core::ctrl1xl::{BwXl, Ctrl1Xl, FsXl, OdrXl};
use controller_core::ctrl2g::{Ctrl2G, Fs125, FsG, OdrG};
use controller_core::ctrl4c::{
    Ctrl4C, DrdyMask, FifoTempEn, I2cDisable, Int2OnInt1, SleepG, StopOnFth, XlBwScalOdr,
};
use controller_core::register::{Register, RegisterSetting};

fn all_odrxl() -> Vec<OdrXl> {
    vec![
        OdrXl::PowerDown,
        OdrXl::DataRate12_5Hz,
        OdrXl::DataRate26Hz,
        OdrXl::DataRate52Hz,
        OdrXl::DataRate104Hz,
        OdrXl::DataRate208Hz,
        OdrXl::DataRate416Hz,
        OdrXl::DataRate833Hz,
        OdrXl::DataRate1_66Khz,
        OdrXl::DataRate3_33Khz,
        OdrXl::DataRate6_66Khz,
    ]
}

fn all_fsxl() -> Vec<FsXl> {
    vec![FsXl::TwoG, FsXl::FourG, FsXl::EightG, FsXl::SixteenG]
}

fn all_bwxl() -> Vec<BwXl> {
    vec![BwXl::Bw50Hz, BwXl::Bw100Hz, BwXl::Bw200Hz, BwXl::Bw400Hz]
}

fn all_odrg() -> Vec<OdrG> {
    vec![
        OdrG::PowerDown,
        OdrG::DataRate12_5Hz,
        OdrG::DataRate26Hz,
        OdrG::DataRate52Hz,
        OdrG::DataRate104Hz,
        OdrG::DataRate208Hz,
        OdrG::DataRate416Hz,
        OdrG::DataRate833Hz,
        OdrG::DataRate1_66Khz,
    ]
}

fn all_fsg() -> Vec<FsG> {
    vec![FsG::Dps250, FsG::Dps500, FsG::Dps1000, FsG::Dps2000]
}

fn fits<S: RegisterSetting>(s: &S) -> bool {
    s.value() & s.mask() == s.value() && s.value() & !s.mask() == 0
}

#[test]
fn every_setting_stays_inside_its_mask() {
    assert!(all_odrxl().iter().all(fits));
    assert!(all_fsxl().iter().all(fits));
    assert!(all_bwxl().iter().all(fits));
    assert!(all_odrg().iter().all(fits));
    assert!(all_fsg().iter().all(fits));
    assert!(fits(&Fs125::Dps125) && fits(&Fs125::DpsByFsG));
    assert!(fits(&XlBwScalOdr::ByBwXl) && fits(&SleepG::GyroDisable));
    assert!(fits(&Int2OnInt1::Int1Only) && fits(&FifoTempEn::TempDataEnable));
    assert!(fits(&DrdyMask::DrdyMaskEnable) && fits(&I2cDisable::I2cDisable));
    assert!(fits(&StopOnFth::FifoDepthLimitedByThreshold));
}

#[test]
fn setting_patterns_match_the_datasheet() {
    assert_eq!(OdrXl::DataRate6_66Khz.value(), 0xA0);
    assert_eq!(OdrXl::DataRate12_5Hz.mask(), 0xF0);
    assert_eq!(FsXl::FourG.value(), 0x08);
    assert_eq!(FsXl::SixteenG.value(), 0x04);
    assert_eq!(BwXl::Bw50Hz.value(), 0x03);
    assert_eq!(FsG::Dps2000.value(), 0x0C);
    assert_eq!(Fs125::Dps125.value(), 0x02);
    assert_eq!(Int2OnInt1::Int1Only.value(), 0x20);
    assert_eq!(Int2OnInt1::Int1AndInt2.value(), 0x00);
    assert_eq!(StopOnFth::FifoDepthLimitedByThreshold.mask(), 0x01);
}

#[test]
fn register_value_is_or_of_settings() {
    let reg = Ctrl1Xl(OdrXl::DataRate104Hz, FsXl::EightG, BwXl::Bw100Hz);
    assert_eq!(reg.address(), 0x10);
    assert_eq!(reg.value(), 0x40 | 0x0C | 0x02);
    let gyro = Ctrl2G(OdrG::DataRate1_66Khz, FsG::Dps500, Fs125::Dps125);
    assert_eq!(gyro.address(), 0x11);
    assert_eq!(gyro.value(), 0x86);
    let common = Ctrl4C(
        XlBwScalOdr::ByBwXl,
        SleepG::GyroDisable,
        Int2OnInt1::Int1AndInt2,
        FifoTempEn::TempDataDisable,
        DrdyMask::DrdyMaskDisable,
        I2cDisable::I2cDisable,
        StopOnFth::FifoDepthUnlimited,
    );
    assert_eq!(common.address(), 0x13);
    assert_eq!(common.value(), 0xC4);
}

#[test]
fn register_masks_are_disjoint() {
    assert_eq!(OdrXl::PowerDown.mask() & FsXl::TwoG.mask(), 0);
    assert_eq!(OdrXl::PowerDown.mask() & BwXl::Bw50Hz.mask(), 0);
    assert_eq!(FsXl::TwoG.mask() & BwXl::Bw50Hz.mask(), 0);
    assert_eq!(OdrG::PowerDown.mask() & FsG::Dps250.mask(), 0);
    assert_eq!(FsG::Dps250.mask() & Fs125::Dps125.mask(), 0);
    let masks = [
        XlBwScalOdr::ByOdr.mask(),
        SleepG::GyroEnable.mask(),
        Int2OnInt1::Int1Only.mask(),
        FifoTempEn::TempDataEnable.mask(),
        DrdyMask::DrdyMaskEnable.mask(),
        I2cDisable::I2cEnable.mask(),
        StopOnFth::FifoDepthUnlimited.mask(),
    ];
    for i in 0..masks.len() {
        for j in (i + 1)..masks.len() {
            assert_eq!(masks[i] & masks[j], 0);
        }
    }
}

#[test]
fn every_ctrl1xl_value_decodes_to_its_settings() {
    for odr in all_odrxl() {
        for fs in all_fsxl() {
            for bw in all_bwxl() {
                let byte = Ctrl1Xl(odr, fs, bw).value();
                assert_eq!(OdrXl::decode(byte), Some(odr));
                assert_eq!(FsXl::decode(byte), Some(fs));
                assert_eq!(BwXl::decode(byte), Some(bw));
            }
        }
    }
}

#[test]
fn every_ctrl2g_value_decodes_to_its_settings() {
    for odr in all_odrg() {
        for fs in all_fsg() {
            for f125 in [Fs125::DpsByFsG, Fs125::Dps125] {
                let byte = Ctrl2G(odr, fs, f125).value();
                assert_eq!(OdrG::decode(byte), Some(odr));
                assert_eq!(FsG::decode(byte), Some(fs));
                assert_eq!(Fs125::decode(byte), Some(f125));
            }
        }
    }
}

#[test]
fn ctrl4c_value_decodes_to_its_settings() {
    let reg = Ctrl4C(
        XlBwScalOdr::ByOdr,
        SleepG::GyroDisable,
        Int2OnInt1::Int1Only,
        FifoTempEn::TempDataDisable,
        DrdyMask::DrdyMaskEnable,
        I2cDisable::I2cEnable,
        StopOnFth::FifoDepthLimitedByThreshold,
    );
    let byte = reg.value();
    assert_eq!(byte, 0x40 | 0x20 | 0x08 | 0x01);
    assert_eq!(XlBwScalOdr::decode(byte), Some(XlBwScalOdr::ByOdr));
    assert_eq!(SleepG::decode(byte), Some(SleepG::GyroDisable));
    assert_eq!(Int2OnInt1::decode(byte), Some(Int2OnInt1::Int1Only));
    assert_eq!(FifoTempEn::decode(byte), Some(FifoTempEn::TempDataDisable));
    assert_eq!(DrdyMask::decode(byte), Some(DrdyMask::DrdyMaskEnable));
    assert_eq!(I2cDisable::decode(byte), Some(I2cDisable::I2cEnable));
    assert_eq!(StopOnFth::decode(byte), Some(StopOnFth::FifoDepthLimitedByThreshold));
}

#[test]
fn undocumented_patterns_do_not_decode() {
    assert_eq!(OdrXl::decode(0xB0), None);
    assert_eq!(OdrXl::decode(0xFF), None);
    assert_eq!(OdrG::decode(0x90), None);
    assert_eq!(OdrG::decode(0x9F), None);
}
