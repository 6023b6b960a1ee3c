use controller_core::ctrl1xl::{BwXl, Ctrl1Xl, FsXl, OdrXl};
use controller_core::imu::{
    chip_select_step, decode_motion, i16_from_le, CsAction, CsEvent, CsState, ImuError, Lsm6ds33,
    RawMotion,
};
use controller_core::touchpad::{decode_touch, RawTouch, ResetStep, Tm035035, MAX_X, MAX_Y};
use controller_core::transport::{
    command_read_frame, command_write_frame, masked_read_frame, masked_write_frame, reply_after,
};

#[test]
fn masked_frames() {
    assert_eq!(masked_read_frame(0x0F, 1), vec![0x8F, 0x00]);
    assert_eq!(masked_read_frame(0x22, 2), vec![0xA2, 0x00, 0x00]);
    assert_eq!(masked_write_frame(0x90, &vec![1, 2]), vec![0x10, 1, 2]);
}

#[test]
fn command_frames() {
    assert_eq!(command_read_frame(0x14, 4), vec![0xB4, 0xFC, 0xFC, 0xFC, 0xFC, 0xFC]);
    assert_eq!(command_write_frame(0x03, 0x01), vec![0x83, 0x01]);
    assert_eq!(reply_after(&vec![9, 8, 7, 6], 2), vec![7, 6]);
    assert_eq!(reply_after(&vec![9, 8], 2), Vec::<u8>::new());
}

#[test]
fn motion_decode_pitch_only() {
    let mut block = vec![0u8; 12];
    block[0] = 100;
    let m = decode_motion(&block);
    assert_eq!(
        m,
        RawMotion { pitch: 100, roll: 0, yaw: 0, accel_x: 0, accel_y: 0, accel_z: 0 }
    );
    assert_eq!(m.pitch as f32, 100.0);
}

#[test]
fn motion_decode_keeps_field_order() {
    let block = vec![1, 0, 2, 0, 3, 0, 0xFF, 0xFF, 0x00, 0x80, 0xFF, 0x7F];
    let m = decode_motion(&block);
    assert_eq!(
        m,
        RawMotion { pitch: 1, roll: 2, yaw: 3, accel_x: -1, accel_y: -32768, accel_z: 32767 }
    );
}

#[test]
fn little_endian_integers() {
    assert_eq!(i16_from_le(0x34, 0x12), 0x1234);
    assert_eq!(i16_from_le(0xFE, 0xFF), -2);
    assert_eq!(i16_from_le(0x00, 0x80), i16::MIN);
}

#[test]
fn identity_is_checked() {
    assert_eq!(Lsm6ds33::identity_frame(), vec![0x8F, 0x00]);
    let wrong = Lsm6ds33::try_new::<()>(&vec![0xFF, 0x42]);
    assert!(matches!(wrong, Err(ImuError::WrongIdentity(0x42))));
    let right = Lsm6ds33::try_new::<()>(&vec![0xFF, 0x69]);
    let imu = match right {
        Ok(d) => d,
        Err(_) => panic!("identity 0x69 refused"),
    };
    assert_eq!(imu.last_sample().yaw, 0);
}

#[test]
fn configuration_writes() {
    let frame = Lsm6ds33::configure(&Ctrl1Xl(OdrXl::DataRate12_5Hz, FsXl::TwoG, BwXl::Bw50Hz));
    assert_eq!(frame, vec![0x10, 0x13]);
    let frames = Lsm6ds33::configuration_frames();
    assert_eq!(frames, vec![vec![0x10, 0x13], vec![0x11, 0x10], vec![0x13, 0xC4]]);
}

#[test]
fn poll_updates_last_sample() {
    let mut imu = match Lsm6ds33::try_new::<()>(&vec![0, 0x69]) {
        Ok(d) => d,
        Err(_) => panic!("identity 0x69 refused"),
    };
    let frame = Lsm6ds33::motion_frame();
    assert_eq!(frame.len(), 13);
    assert_eq!(frame[0], 0xA2);
    let reply = vec![0xAA, 0, 0, 0, 0, 0, 0, 5, 0, 6, 0, 7, 0];
    imu.update(&reply);
    assert_eq!(
        imu.last_sample(),
        RawMotion { pitch: 0, roll: 0, yaw: 0, accel_x: 5, accel_y: 6, accel_z: 7 }
    );
}

#[test]
fn chip_select_happy_path() {
    let (s, a) = chip_select_step::<()>(CsState::Idle, CsEvent::Begin);
    assert_eq!(a, Some(CsAction::DriveLow));
    let (s, a) = chip_select_step(s, CsEvent::LowDriven(true));
    assert_eq!(a, Some(CsAction::Transfer));
    let (s, a) = chip_select_step(s, CsEvent::Transferred(None));
    assert_eq!(a, Some(CsAction::DriveHigh));
    let (s, a) = chip_select_step(s, CsEvent::HighDriven(true));
    assert_eq!(a, Some(CsAction::Finish));
    assert!(matches!(s, CsState::Finished(None)));
}

#[test]
fn chip_select_released_after_failed_transfer() {
    let (s, _) = chip_select_step::<u32>(CsState::Transferring, CsEvent::Transferred(Some(7)));
    assert!(matches!(s, CsState::Releasing(Some(ImuError::TransferFailed(7)))));
    let (s, a) = chip_select_step(s, CsEvent::HighDriven(true));
    assert_eq!(a, Some(CsAction::Finish));
    assert!(matches!(s, CsState::Finished(Some(ImuError::TransferFailed(7)))));
}

#[test]
fn chip_select_failures() {
    let (s, a) = chip_select_step::<()>(CsState::Selecting, CsEvent::LowDriven(false));
    assert_eq!(a, Some(CsAction::DriveHigh));
    assert!(matches!(s, CsState::Releasing(Some(ImuError::ChipSelectFailed))));
    let (s, _) = chip_select_step::<()>(CsState::Releasing(None), CsEvent::HighDriven(false));
    assert!(matches!(s, CsState::Finished(Some(ImuError::ChipSelectFailed))));
    let (s, a) = chip_select_step::<()>(CsState::Idle, CsEvent::HighDriven(true));
    assert_eq!(a, None);
    assert!(matches!(s, CsState::Idle));
}

#[test]
fn touch_idle_packet() {
    assert_eq!(decode_touch(&vec![0, 0, 0, 0]), RawTouch::NotTouched);
}

#[test]
fn touch_full_scale() {
    let t = decode_touch(&vec![0xFF, 0xFF, 0x57, 0xFF]);
    assert_eq!(t, RawTouch::Touched { x: 2047, y: 1535, pressure: 255 });
    if let RawTouch::Touched { x, y, pressure } = t {
        let xn = (x as f32 / MAX_X as f32) * 2.0 - 1.0;
        let yn = (y as f32 / MAX_Y as f32) * 2.0 - 1.0;
        let zn = pressure as f32 / 255.0;
        assert!((xn - 1.0).abs() < 1e-6 && (yn - 1.0).abs() < 1e-6 && (zn - 1.0).abs() < 1e-6);
    }
}

#[test]
fn touch_nibbles_split_between_axes() {
    assert_eq!(
        decode_touch(&vec![0x01, 0x00, 0x00, 0x00]),
        RawTouch::Touched { x: 1, y: 0, pressure: 0 }
    );
    assert_eq!(
        decode_touch(&vec![0x00, 0x00, 0x01, 0x00]),
        RawTouch::Touched { x: 0x100, y: 0, pressure: 0 }
    );
    assert_eq!(
        decode_touch(&vec![0x02, 0x03, 0x45, 0x09]),
        RawTouch::Touched { x: 0x502, y: 0x403, pressure: 9 }
    );
}

#[test]
fn touchpad_frames() {
    assert_eq!(Tm035035::reset(), vec![0x83, 0x01]);
    assert_eq!(Tm035035::clear_flags(), vec![0x82, 0x00]);
    assert_eq!(Tm035035::write_byte(0x05, 0x1E), vec![0x85, 0x1E]);
    assert_eq!(Tm035035::read_bytes(0x14, 1), vec![0xB4, 0xFC, 0xFC]);
    assert_eq!(
        Tm035035::configuration_frames(),
        vec![vec![0x83, 0x00], vec![0x85, 0x1E], vec![0x84, 0x03]]
    );
    assert_eq!(Tm035035::touch_frame(), vec![0xB4, 0xFC, 0xFC, 0xFC, 0xFC, 0xFC]);
}

#[test]
fn touch_reply_skips_preamble() {
    let reply = vec![0xAA, 0xBB, 0x10, 0x20, 0x31, 0x40];
    assert_eq!(
        Tm035035::read_touch(&reply),
        RawTouch::Touched { x: 0x110, y: 0x320, pressure: 0x40 }
    );
    assert_eq!(Tm035035::read_touch(&vec![0xAA, 0xBB, 0, 0, 0, 0]), RawTouch::NotTouched);
}

#[test]
fn reset_wait_bound() {
    let unbounded = Tm035035::new(None);
    assert_eq!(unbounded.reset_step(false, u64::MAX), ResetStep::PollAgain);
    assert_eq!(unbounded.reset_step(true, 0), ResetStep::ClearFlags);
    let bounded = Tm035035::new(Some(3));
    assert_eq!(bounded.reset_step(false, 2), ResetStep::PollAgain);
    assert_eq!(bounded.reset_step(false, 3), ResetStep::GiveUp);
    assert_eq!(bounded.reset_step(true, 5), ResetStep::ClearFlags);
}

#[test]
fn failed_poll_keeps_last_sample() {
    let mut imu = match Lsm6ds33::try_new::<u8>(&vec![0, 0x69]) {
        Ok(d) => d,
        Err(_) => panic!("identity 0x69 refused"),
    };
    let mut reply = vec![0u8; 13];
    reply[1] = 4;
    let first = imu.finish_poll::<u8>(Ok(reply));
    assert!(matches!(first, Ok(m) if m.pitch == 4));
    let second = imu.finish_poll(Err(ImuError::TransferFailed(3)));
    assert!(matches!(second, Err(ImuError::TransferFailed(3))));
    assert_eq!(imu.last_sample().pitch, 4);
}
