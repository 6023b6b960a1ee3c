//! Six-axis motion sensor: identity check, configuration writes, chip-select
//! scoping of each transfer, and decoding of the motion block.

use vstd::prelude::*;

use crate::ctrl1xl::{BwXl, Ctrl1Xl, FsXl, OdrXl};
use crate::ctrl2g::{Ctrl2G, Fs125, FsG, OdrG};
use crate::ctrl4c::{
    Ctrl4C, DrdyMask, FifoTempEn, I2cDisable, Int2OnInt1, SleepG, StopOnFth, XlBwScalOdr,
};
use crate::register::Register;
use crate::transport::{masked_read_frame, masked_write_frame};

verus! {

/// Address of the identity register.
pub const WHO_AM_I: u8 = 0x0F;

/// Value the identity register must hold.
pub const IDENTITY: u8 = 0x69;

/// First address of the motion data block.
pub const MOTION_BASE: u8 = 0x22;

/// Length of the motion data block.
pub const MOTION_LEN: usize = 12;

pub enum ImuError<E> {
    /// The identity register held another value than the expected one.
    WrongIdentity(u8),
    /// Driving the chip-select line failed.
    ChipSelectFailed,
    /// The byte transfer itself failed.
    TransferFailed(E),
}

/// One motion sample in raw sensor units.
#[derive(Clone, Copy, Debug, PartialEq, Eq, Structural)]
pub struct RawMotion {
    pub pitch: i16,
    pub roll: i16,
    pub yaw: i16,
    pub accel_x: i16,
    pub accel_y: i16,
    pub accel_z: i16,
}

/// The signed 16-bit integer whose little-endian bytes are `lo`, `hi`.
pub open spec fn le_i16(lo: u8, hi: u8) -> int {
    if hi < 128 {
        hi * 256 + lo
    } else {
        hi * 256 + lo - 65536
    }
}

/// Reads a little-endian signed 16-bit integer.
pub fn i16_from_le(lo: u8, hi: u8) -> (r: i16)
    ensures
        r == le_i16(lo, hi),
{
    if hi < 128 {
        (hi as i16) * 256 + (lo as i16)
    } else {
        ((hi as i32) * 256 + (lo as i32) - 65536) as i16
    }
}

/// The motion sample held by a 12-byte block: gyro pitch, roll, yaw, then
/// accelerometer x, y, z, each a little-endian signed 16-bit integer.
pub open spec fn motion_of(b: Seq<u8>) -> RawMotion
    recommends
        b.len() == 12,
{
    RawMotion {
        pitch: le_i16(b[0], b[1]) as i16,
        roll: le_i16(b[2], b[3]) as i16,
        yaw: le_i16(b[4], b[5]) as i16,
        accel_x: le_i16(b[6], b[7]) as i16,
        accel_y: le_i16(b[8], b[9]) as i16,
        accel_z: le_i16(b[10], b[11]) as i16,
    }
}

/// Decodes the 12-byte motion block, field by field and in order, with no
/// scaling.
pub fn decode_motion(block: &Vec<u8>) -> (r: RawMotion)
    requires
        block@.len() == 12,
    ensures
        r == motion_of(block@),
        r.pitch == le_i16(block@[0], block@[1]),
        r.roll == le_i16(block@[2], block@[3]),
        r.yaw == le_i16(block@[4], block@[5]),
        r.accel_x == le_i16(block@[6], block@[7]),
        r.accel_y == le_i16(block@[8], block@[9]),
        r.accel_z == le_i16(block@[10], block@[11]),
{
    RawMotion {
        pitch: i16_from_le(block[0], block[1]),
        roll: i16_from_le(block[2], block[3]),
        yaw: i16_from_le(block[4], block[5]),
        accel_x: i16_from_le(block[6], block[7]),
        accel_y: i16_from_le(block[8], block[9]),
        accel_z: i16_from_le(block[10], block[11]),
    }
}

/// The bytes of a register write: the register's address, then its value.
pub open spec fn register_write(address: u8, value: u8) -> Seq<u8> {
    seq![address, value]
}

/// The accelerometer configuration written at start-up.
pub open spec fn startup_ctrl1xl() -> Ctrl1Xl {
    Ctrl1Xl(OdrXl::DataRate12_5Hz, FsXl::TwoG, BwXl::Bw50Hz)
}

/// The gyroscope configuration written at start-up.
pub open spec fn startup_ctrl2g() -> Ctrl2G {
    Ctrl2G(OdrG::DataRate12_5Hz, FsG::Dps250, Fs125::DpsByFsG)
}

/// The common control configuration written at start-up.
pub open spec fn startup_ctrl4c() -> Ctrl4C {
    Ctrl4C(
        XlBwScalOdr::ByBwXl,
        SleepG::GyroDisable,
        Int2OnInt1::Int1AndInt2,
        FifoTempEn::TempDataDisable,
        DrdyMask::DrdyMaskDisable,
        I2cDisable::I2cDisable,
        StopOnFth::FifoDepthUnlimited,
    )
}

/// Driver state of the motion sensor: the last sample that a poll decoded.
pub struct Lsm6ds33 {
    last: RawMotion,
}

impl Lsm6ds33 {
    pub closed spec fn last_spec(&self) -> RawMotion {
        self.last
    }

    /// The transfer that reads the identity register.
    pub fn identity_frame() -> (r: Vec<u8>)
        ensures
            r@ == seq![0x8Fu8, 0u8],
    {
        let r = masked_read_frame(WHO_AM_I, 1);
        assert(0x0Fu8 | 0x80u8 == 0x8Fu8) by (bit_vector);
        assert(r@ =~= seq![0x8Fu8, 0u8]);
        r
    }

    /// Checks the reply to the identity read; a driver exists only for the
    /// expected identity, and starts with an all-zero sample.
    pub fn try_new<E>(identity_reply: &Vec<u8>) -> (r: Result<Lsm6ds33, ImuError<E>>)
        requires
            identity_reply@.len() == 2,
        ensures
            identity_reply@[1] == 0x69 <==> r is Ok,
            r matches Ok(d) ==> d.last_spec() == (RawMotion {
                pitch: 0,
                roll: 0,
                yaw: 0,
                accel_x: 0,
                accel_y: 0,
                accel_z: 0,
            }),
            r matches Err(e) ==> e == ImuError::<E>::WrongIdentity(identity_reply@[1]),
    {
        let observed = identity_reply[1];
        if observed == IDENTITY {
            Ok(
                Lsm6ds33 {
                    last: RawMotion { pitch: 0, roll: 0, yaw: 0, accel_x: 0, accel_y: 0, accel_z: 0 },
                },
            )
        } else {
            Err(ImuError::WrongIdentity(observed))
        }
    }

    /// The transfer that writes one register.
    pub fn configure<R: Register>(register: &R) -> (r: Vec<u8>)
        ensures
            r@ == register_write(register.spec_address(), register.spec_value()),
    {
        let address = register.address();
        let value = register.value();
        let payload = vec![value];
        let r = masked_write_frame(address, &payload);
        assert(address & 0x7F == address) by (bit_vector)
            requires
                address < 0x80,
        ;
        assert(r@ =~= register_write(register.spec_address(), register.spec_value()));
        r
    }

    /// The register writes issued once the identity has been checked:
    /// accelerometer, gyroscope, then common control.
    pub fn configuration_frames() -> (r: Vec<Vec<u8>>)
        ensures
            r@.len() == 3,
            r@[0]@ == register_write(0x10, startup_ctrl1xl().spec_value()),
            r@[1]@ == register_write(0x11, startup_ctrl2g().spec_value()),
            r@[2]@ == register_write(0x13, startup_ctrl4c().spec_value()),
    {
        let accel = Ctrl1Xl(OdrXl::DataRate12_5Hz, FsXl::TwoG, BwXl::Bw50Hz);
        let gyro = Ctrl2G(OdrG::DataRate12_5Hz, FsG::Dps250, Fs125::DpsByFsG);
        let common = Ctrl4C(
            XlBwScalOdr::ByBwXl,
            SleepG::GyroDisable,
            Int2OnInt1::Int1AndInt2,
            FifoTempEn::TempDataDisable,
            DrdyMask::DrdyMaskDisable,
            I2cDisable::I2cDisable,
            StopOnFth::FifoDepthUnlimited,
        );
        let mut r: Vec<Vec<u8>> = Vec::new();
        r.push(Self::configure(&accel));
        r.push(Self::configure(&gyro));
        r.push(Self::configure(&common));
        r
    }

    /// The transfer that reads the motion block.
    pub fn motion_frame() -> (r: Vec<u8>)
        ensures
            r@.len() == 13,
            r@[0] == 0xA2,
            forall|i: int| 1 <= i < 13 ==> r@[i] == 0,
    {
        let r = masked_read_frame(MOTION_BASE, MOTION_LEN);
        assert(0x22u8 | 0x80u8 == 0xA2u8) by (bit_vector);
        r
    }

    /// Decodes a finished motion-block transfer and keeps it as the last
    /// sample.
    pub fn update(&mut self, reply: &Vec<u8>)
        requires
            reply@.len() == 13,
        ensures
            final(self).last_spec() == motion_of(reply@.subrange(1, 13)),
    {
        let block = crate::transport::reply_after(reply, 1);
        self.last = decode_motion(&block);
    }

    /// Settles one poll: a finished transfer is decoded and kept, a failed
    /// one is handed back as it came and leaves the last sample untouched.
    pub fn finish_poll<E>(&mut self, outcome: Result<Vec<u8>, ImuError<E>>) -> (r: Result<
        RawMotion,
        ImuError<E>,
    >)
        requires
            outcome matches Ok(reply) ==> reply@.len() == 13,
        ensures
            outcome is Ok <==> r is Ok,
            outcome matches Ok(reply) ==> final(self).last_spec() == motion_of(
                reply@.subrange(1, 13),
            ) && r == Ok::<RawMotion, ImuError<E>>(final(self).last_spec()),
            outcome is Err ==> final(self).last_spec() == old(self).last_spec(),
            outcome matches Err(e) ==> r matches Err(f) && f == e,
    {
        match outcome {
            Ok(reply) => {
                self.update(&reply);
                Ok(self.last)
            },
            Err(e) => Err(e),
        }
    }

    /// A copy of the last decoded sample.
    pub fn last_sample(&self) -> (r: RawMotion)
        ensures
            r == self.last_spec(),
    {
        self.last
    }
}

/// Where a chip-select-scoped transfer stands.
pub enum CsState<E> {
    /// Nothing done yet.
    Idle,
    /// Chip select has been asked to go low.
    Selecting,
    /// The transfer runs.
    Transferring,
    /// Chip select has been asked to go high; holds the failure so far, if any.
    Releasing(Option<ImuError<E>>),
    /// The transaction is over; holds its failure, if any.
    Finished(Option<ImuError<E>>),
}

/// What the bus owner reports back.
pub enum CsEvent<E> {
    Begin,
    /// Driving the line low succeeded (`true`) or failed.
    LowDriven(bool),
    /// The transfer succeeded (`None`) or failed.
    Transferred(Option<E>),
    /// Driving the line high succeeded (`true`) or failed.
    HighDriven(bool),
}

/// What the bus owner must do next.
#[derive(Clone, Copy, Debug, PartialEq, Eq, Structural)]
pub enum CsAction {
    DriveLow,
    Transfer,
    DriveHigh,
    Finish,
}

/// One step of a transfer scoped by the chip-select line: low, transfer,
/// high. Once the line has been asked to go low it is driven high again on
/// every path, failures included; a failure to drive it high is reported in
/// place of the transfer's own outcome. An event that does not fit the state
/// changes nothing and asks for nothing.
pub fn chip_select_step<E>(state: CsState<E>, event: CsEvent<E>) -> (r: (CsState<E>, Option<CsAction>))
    ensures
        (state is Idle && event is Begin) ==> r == (CsState::<E>::Selecting, Some(CsAction::DriveLow)),
        (state is Selecting && event == CsEvent::<E>::LowDriven(true)) ==> r == (CsState::<E>::Transferring, Some(CsAction::Transfer)),
        (state is Selecting && event == CsEvent::<E>::LowDriven(false)) ==> r == (CsState::<E>::Releasing(Some(ImuError::ChipSelectFailed)), Some(CsAction::DriveHigh)),
        (state is Transferring && event == CsEvent::<E>::Transferred(None)) ==> r == (CsState::<E>::Releasing(None), Some(CsAction::DriveHigh)),
        forall|e: E| (state is Transferring && event == CsEvent::<E>::Transferred(Some(e))) ==> r == (CsState::<E>::Releasing(Some(ImuError::TransferFailed(e))), Some(CsAction::DriveHigh)),
        forall|p: Option<ImuError<E>>| (state == CsState::<E>::Releasing(p) && event == CsEvent::<E>::HighDriven(true)) ==> r == (CsState::<E>::Finished(p), Some(CsAction::Finish)),
        (state is Releasing && event == CsEvent::<E>::HighDriven(false)) ==> r == (CsState::<E>::Finished(Some(ImuError::ChipSelectFailed)), Some(CsAction::Finish)),
        !((state is Idle && event is Begin) || (state is Selecting && event is LowDriven) || (state is Transferring && event is Transferred) || (state is Releasing && event is HighDriven)) ==> r == (state, None::<CsAction>),
{
    match (state, event) {
        (CsState::Idle, CsEvent::Begin) => (CsState::Selecting, Some(CsAction::DriveLow)),
        (CsState::Selecting, CsEvent::LowDriven(true)) => (CsState::Transferring, Some(CsAction::Transfer)),
        (CsState::Selecting, CsEvent::LowDriven(false)) => (CsState::Releasing(Some(ImuError::ChipSelectFailed)), Some(CsAction::DriveHigh)),
        (CsState::Transferring, CsEvent::Transferred(None)) => (CsState::Releasing(None), Some(CsAction::DriveHigh)),
        (CsState::Transferring, CsEvent::Transferred(Some(e))) => (CsState::Releasing(Some(ImuError::TransferFailed(e))), Some(CsAction::DriveHigh)),
        (CsState::Releasing(p), CsEvent::HighDriven(true)) => (CsState::Finished(p), Some(CsAction::Finish)),
        (CsState::Releasing(_), CsEvent::HighDriven(false)) => (CsState::Finished(Some(ImuError::ChipSelectFailed)), Some(CsAction::Finish)),
        (s, _) => (s, None),
    }
}

} // verus!
