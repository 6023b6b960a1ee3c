//! Capacitive touchpad: reset and configuration writes, the bounded wait for
//! data-ready after reset, and decoding of the touch block.

use vstd::prelude::*;

use crate::transport::{command_read_frame, command_write_frame, reply_after, COMMAND_PREAMBLE};

verus! {

/// Mode register; bit 0 resets the sensor.
pub const MODE_REG: u8 = 0x03;

/// Status register; writing zero clears its flags.
pub const STATUS_REG: u8 = 0x02;

/// First address of the touch data block.
pub const TOUCH_BASE: u8 = 0x14;

/// Length of the touch data block.
pub const TOUCH_LEN: usize = 4;

/// Largest raw X coordinate.
pub const MAX_X: u16 = 2047;

/// Largest raw Y coordinate.
pub const MAX_Y: u16 = 1535;

pub enum GlidePointError<E, P> {
    /// The byte transfer failed.
    TransferError(E),
    /// Reading the data-ready input failed.
    DataReadyError(P),
}

/// One touch sample in raw sensor units.
#[derive(Clone, Copy, Debug, PartialEq, Eq, Structural)]
pub enum RawTouch {
    /// A 12-bit X, a 12-bit Y and an 8-bit pressure.
    Touched { x: u16, y: u16, pressure: u8 },
    /// The sensor's idle packet.
    NotTouched,
}

/// The touch sample held by a 4-byte block: all zero is the idle packet;
/// otherwise X is byte 0 with the low nibble of byte 2 above it, Y is byte 1
/// with the high nibble of byte 2 above it, and pressure is byte 3.
pub open spec fn touch_of(b: Seq<u8>) -> RawTouch
    recommends
        b.len() == 4,
{
    if b[0] == 0 && b[1] == 0 && b[2] == 0 && b[3] == 0 {
        RawTouch::NotTouched
    } else {
        RawTouch::Touched {
            x: (b[0] + (b[2] % 16) * 256) as u16,
            y: (b[1] + (b[2] / 16) * 256) as u16,
            pressure: b[3],
        }
    }
}

/// Decodes the 4-byte touch block.
pub fn decode_touch(block: &Vec<u8>) -> (r: RawTouch)
    requires
        block@.len() == 4,
    ensures
        r == touch_of(block@),
        r matches RawTouch::Touched { x, y, pressure } ==> x < 4096 && y < 4096,
{
    let b0 = block[0];
    let b1 = block[1];
    let b2 = block[2];
    let b3 = block[3];
    if b0 == 0 && b1 == 0 && b2 == 0 && b3 == 0 {
        RawTouch::NotTouched
    } else {
        let x: u16 = (b0 as u16) + ((b2 % 16) as u16) * 256;
        let y: u16 = (b1 as u16) + ((b2 / 16) as u16) * 256;
        RawTouch::Touched { x, y, pressure: b3 }
    }
}

/// What to do while waiting for data-ready after a reset.
#[derive(Clone, Copy, Debug, PartialEq, Eq, Structural)]
pub enum ResetStep {
    /// Data-ready is up: clear the flags and go on.
    ClearFlags,
    /// Read the data-ready input again.
    PollAgain,
    /// The configured number of polls passed without data-ready.
    GiveUp,
}

/// Protocol state of the touchpad: how long to wait for data-ready after a
/// reset (`None` waits without bound).
pub struct Tm035035 {
    pub reset_poll_limit: Option<u64>,
}

impl Tm035035 {
    pub fn new(reset_poll_limit: Option<u64>) -> (r: Tm035035)
        ensures
            r.reset_poll_limit == reset_poll_limit,
    {
        Tm035035 { reset_poll_limit }
    }

    /// The transfer that reads `len` bytes from `addr`.
    pub fn read_bytes(addr: u8, len: usize) -> (r: Vec<u8>)
        requires
            len < usize::MAX - 2,
        ensures
            r@.len() == len + 2,
            r@[0] == 0xA0 | addr,
            forall|i: int| 1 <= i < len + 2 ==> r@[i] == 0xFC,
    {
        command_read_frame(addr, len)
    }

    /// The transfer that writes one byte to `addr`.
    pub fn write_byte(addr: u8, byte: u8) -> (r: Vec<u8>)
        ensures
            r@ == seq![0x80 | addr, byte],
    {
        command_write_frame(addr, byte)
    }

    /// The transfer that clears the status flags.
    pub fn clear_flags() -> (r: Vec<u8>)
        ensures
            r@ == seq![0x82u8, 0x00u8],
    {
        let r = command_write_frame(STATUS_REG, 0x00);
        assert(0x80u8 | 0x02u8 == 0x82u8) by (bit_vector);
        r
    }

    /// The transfer that starts a reset.
    pub fn reset() -> (r: Vec<u8>)
        ensures
            r@ == seq![0x83u8, 0x01u8],
    {
        let r = command_write_frame(MODE_REG, 0b_0000_0001);
        assert(0x80u8 | 0x03u8 == 0x83u8) by (bit_vector);
        r
    }

    /// The decision after the `polls`-th read of data-ready since the reset.
    pub fn reset_step(&self, data_ready: bool, polls: u64) -> (r: ResetStep)
        ensures
            data_ready ==> r == ResetStep::ClearFlags,
            !data_ready ==> (r == ResetStep::GiveUp <==> (self.reset_poll_limit matches Some(
                limit,
            ) && polls >= limit)),
            !data_ready ==> r != ResetStep::ClearFlags,
    {
        if data_ready {
            ResetStep::ClearFlags
        } else {
            match self.reset_poll_limit {
                Some(limit) => {
                    if polls >= limit {
                        ResetStep::GiveUp
                    } else {
                        ResetStep::PollAgain
                    }
                },
                None => ResetStep::PollAgain,
            }
        }
    }

    /// The writes that follow a reset: mode, then the two configuration
    /// registers.
    pub fn configuration_frames() -> (r: Vec<Vec<u8>>)
        ensures
            r@.len() == 3,
            r@[0]@ == seq![0x83u8, 0x00u8],
            r@[1]@ == seq![0x85u8, 0x1Eu8],
            r@[2]@ == seq![0x84u8, 0x03u8],
    {
        assert(0x80u8 | 0x03u8 == 0x83u8 && 0x80u8 | 0x05u8 == 0x85u8 && 0x80u8 | 0x04u8 == 0x84u8)
            by (bit_vector);
        let mut r: Vec<Vec<u8>> = Vec::new();
        r.push(command_write_frame(MODE_REG, 0b_0000_0000));
        r.push(command_write_frame(0x05, 0b_0001_1110));
        r.push(command_write_frame(0x04, 0b_0000_0011));
        r
    }

    /// The transfer that reads the touch block.
    pub fn touch_frame() -> (r: Vec<u8>)
        ensures
            r@.len() == 6,
            r@[0] == 0xB4,
            forall|i: int| 1 <= i < 6 ==> r@[i] == 0xFC,
    {
        assert(0xA0u8 | 0x14u8 == 0xB4u8) by (bit_vector);
        command_read_frame(TOUCH_BASE, TOUCH_LEN)
    }

    /// Decodes a finished touch-block transfer.
    pub fn read_touch(reply: &Vec<u8>) -> (r: RawTouch)
        requires
            reply@.len() == 6,
        ensures
            r == touch_of(reply@.subrange(2, 6)),
    {
        let block = reply_after(reply, COMMAND_PREAMBLE);
        decode_touch(&block)
    }
}

} // verus!
