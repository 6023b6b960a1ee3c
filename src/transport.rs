//! Byte framing of register reads and writes for the two addressing
//! conventions used by the sensors.

use vstd::prelude::*;

verus! {

/// Read flag of the masked-high convention.
pub const MASKED_READ_FLAG: u8 = 0x80;

/// Opcode of a command-byte read.
pub const COMMAND_READ: u8 = 0xA0;

/// Opcode of a command-byte write.
pub const COMMAND_WRITE: u8 = 0x80;

/// Filler clocked out while a command-byte read's reply comes in.
pub const COMMAND_FILLER: u8 = 0xFC;

/// Length of the preamble before a command-byte read's reply.
pub const COMMAND_PREAMBLE: usize = 2;

/// A masked-high read: the address with bit 7 set, then `len` zero bytes
/// during which the reply is clocked in.
pub fn masked_read_frame(addr: u8, len: usize) -> (r: Vec<u8>)
    requires
        len < usize::MAX,
    ensures
        r@.len() == len + 1,
        r@[0] == addr | 0x80,
        forall|i: int| 1 <= i <= len ==> r@[i] == 0,
{
    let mut buf: Vec<u8> = Vec::new();
    buf.push(addr | MASKED_READ_FLAG);
    let mut i: usize = 0;
    while i < len
        invariant
            i <= len,
            buf@.len() == i + 1,
            buf@[0] == addr | 0x80,
            forall|k: int| 1 <= k <= i ==> buf@[k] == 0,
        decreases len - i,
    {
        buf.push(0);
        i = i + 1;
    }
    buf
}

/// A masked-high write: the address with bit 7 cleared, then the payload.
pub fn masked_write_frame(addr: u8, payload: &Vec<u8>) -> (r: Vec<u8>)
    ensures
        r@ == seq![addr & 0x7F].add(payload@),
{
    let mut buf: Vec<u8> = Vec::new();
    buf.push(addr & 0b_0111_1111);
    let mut i: usize = 0;
    while i < payload.len()
        invariant
            i <= payload@.len(),
            buf@ == seq![addr & 0x7F].add(payload@.subrange(0, i as int)),
        decreases payload@.len() - i,
    {
        buf.push(payload[i]);
        i = i + 1;
        assert(payload@.subrange(0, i as int) =~= payload@.subrange(0, i - 1).push(payload@[i - 1]));
    }
    assert(payload@.subrange(0, payload@.len() as int) =~= payload@);
    buf
}

/// A command-byte read: the read opcode combined with the address, then
/// filler; the reply fills the `len` bytes after the two-byte preamble.
pub fn command_read_frame(addr: u8, len: usize) -> (r: Vec<u8>)
    requires
        len < usize::MAX - 2,
    ensures
        r@.len() == len + 2,
        r@[0] == 0xA0 | addr,
        forall|i: int| 1 <= i < len + 2 ==> r@[i] == 0xFC,
{
    let mut buf: Vec<u8> = Vec::new();
    buf.push(COMMAND_READ | addr);
    let mut i: usize = 0;
    while i < len + 1
        invariant
            len < usize::MAX - 2,
            i <= len + 1,
            buf@.len() == i + 1,
            buf@[0] == 0xA0 | addr,
            forall|k: int| 1 <= k <= i ==> buf@[k] == 0xFC,
        decreases len + 1 - i,
    {
        buf.push(COMMAND_FILLER);
        i = i + 1;
    }
    buf
}

/// A command-byte write: the write opcode combined with the address, then
/// the byte.
pub fn command_write_frame(addr: u8, byte: u8) -> (r: Vec<u8>)
    ensures
        r@ == seq![0x80 | addr, byte],
{
    let mut buf: Vec<u8> = Vec::new();
    buf.push(COMMAND_WRITE | addr);
    buf.push(byte);
    assert(buf@ =~= seq![0x80 | addr, byte]);
    buf
}

/// The reply bytes of a finished transfer: everything after the preamble.
pub fn reply_after(buf: &Vec<u8>, preamble: usize) -> (r: Vec<u8>)
    requires
        preamble <= buf@.len(),
    ensures
        r@ == buf@.subrange(preamble as int, buf@.len() as int),
{
    let mut out: Vec<u8> = Vec::new();
    let mut i: usize = preamble;
    while i < buf.len()
        invariant
            preamble <= i <= buf@.len(),
            out@ == buf@.subrange(preamble as int, i as int),
        decreases buf@.len() - i,
    {
        out.push(buf[i]);
        i = i + 1;
        assert(out@ =~= buf@.subrange(preamble as int, i as int));
    }
    out
}

} // verus!
