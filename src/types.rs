use vstd::prelude::*;

verus! {

/// An address in the 64 KiB address space.
pub type Addr = u16;

/// The 8-bit unit of storage.
pub type Byte = u8;

/// The 16-bit machine word.
pub type Short = u16;

/// The word whose high byte is `hi` and low byte is `lo` (big-endian order).
pub open spec fn be16(hi: u8, lo: u8) -> u16 {
    (hi as int * 256 + lo as int) as u16
}

/// The most significant byte of a word.
pub open spec fn high_byte(v: u16) -> u8 {
    (v as int / 256) as u8
}

/// The least significant byte of a word.
pub open spec fn low_byte(v: u16) -> u8 {
    (v as int % 256) as u8
}

/// Splitting a word into its two bytes and joining them again gives the word back.
pub proof fn lemma_be16_split(v: u16)
    ensures
        be16(high_byte(v), low_byte(v)) == v,
        high_byte(v) == v >> 8,
        low_byte(v) == v & 0xff,
{
    assert(v >> 8 == v / 256) by (bit_vector);
    assert(v & 0xff == v % 256) by (bit_vector);
}

/// Joins two bytes into one big-endian word.
pub fn join_bytes(hi: u8, lo: u8) -> (r: u16)
    ensures
        r == be16(hi, lo),
        r as int == hi as int * 256 + lo as int,
{
    (hi as u16) * 256 + (lo as u16)
}

/// Splits a word into its big-endian bytes.
pub fn split_word(v: u16) -> (r: (u8, u8))
    ensures
        r.0 == high_byte(v),
        r.1 == low_byte(v),
{
    ((v / 256) as u8, (v % 256) as u8)
}

/// A fatal condition that stops the machine.
#[derive(Clone, Copy, Debug, PartialEq, Eq, Structural)]
pub enum Fault {
    /// An access inside a flat memory block, but past its capacity.
    OutOfBounds(Addr),
    /// No installed region claims the address.
    Unmapped(Addr),
    /// The device at the address does not support this kind of access.
    UnsupportedAccess(Addr),
    /// The byte is not the opcode of any instruction.
    UnknownOpcode(Byte),
    /// The byte is not the id of any register.
    UnknownRegister(Byte),
    /// The high byte of a word written to the screen is not a known command.
    UnknownScreenCommand(Byte),
    /// `run` executed its whole step budget without reaching `Halt`.
    StepLimit,
}

} // verus!
