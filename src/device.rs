use crate::memory::Memory;
use crate::registers::Register;
use crate::screen_device::{screen_write_of, ScreenDevice, ScreenWrite};
use crate::types::{be16, high_byte, low_byte, Addr, Byte, Fault, Short};
use vstd::prelude::*;

verus! {

/// What a device holds, as seen through its four access operations.
pub enum DeviceModel {
    /// A block of bytes, addressed from zero.
    Flat(Seq<u8>),
    /// A write-only screen: the log of the cells written so far.
    Screen(Seq<ScreenWrite>),
}

impl DeviceModel {
    /// The byte at `addr`.
    pub open spec fn read8(self, addr: Addr) -> Result<u8, Fault> {
        match self {
            DeviceModel::Flat(b) => if (addr as int) < b.len() {
                Ok(b[addr as int])
            } else {
                Err(Fault::OutOfBounds(addr))
            },
            DeviceModel::Screen(_) => Err(Fault::UnsupportedAccess(addr)),
        }
    }

    /// The big-endian word at `addr` and `addr + 1`.
    pub open spec fn read16(self, addr: Addr) -> Result<u16, Fault> {
        match self {
            DeviceModel::Flat(b) => if (addr as int) + 1 < b.len() {
                Ok(be16(b[addr as int], b[addr as int + 1]))
            } else {
                Err(Fault::OutOfBounds(addr))
            },
            DeviceModel::Screen(_) => Err(Fault::UnsupportedAccess(addr)),
        }
    }

    /// The device after storing the byte `val` at `addr`.
    pub open spec fn write8(self, addr: Addr, val: u8) -> Result<DeviceModel, Fault> {
        match self {
            DeviceModel::Flat(b) => if (addr as int) < b.len() {
                Ok(DeviceModel::Flat(b.update(addr as int, val)))
            } else {
                Err(Fault::OutOfBounds(addr))
            },
            DeviceModel::Screen(_) => Err(Fault::UnsupportedAccess(addr)),
        }
    }

    /// The device after storing the word `val` big-endian at `addr` and `addr + 1`.
    pub open spec fn write16(self, addr: Addr, val: u16) -> Result<DeviceModel, Fault> {
        match self {
            DeviceModel::Flat(b) => if (addr as int) + 1 < b.len() {
                Ok(
                    DeviceModel::Flat(
                        b.update(addr as int, high_byte(val)).update(addr as int + 1, low_byte(val)),
                    ),
                )
            } else {
                Err(Fault::OutOfBounds(addr))
            },
            DeviceModel::Screen(log) => match screen_write_of(addr, val) {
                Ok(w) => Ok(DeviceModel::Screen(log.push(w))),
                Err(e) => Err(e),
            },
        }
    }
}

/// A write call either reaches the expected device state and succeeds, or fails
/// with the expected fault and leaves the device as it was.
pub open spec fn write_outcome(
    before: DeviceModel,
    expected: Result<DeviceModel, Fault>,
    r: Result<(), Fault>,
    after: DeviceModel,
) -> bool {
    match expected {
        Ok(m) => r is Ok && after == m,
        Err(e) => r == Err::<(), Fault>(e) && after == before,
    }
}

/// Reading side of the device capability.
pub trait Read {
    spec fn model(&self) -> DeviceModel;

    fn get_u8(&self, addr: Addr) -> (r: Result<Byte, Fault>)
        ensures
            r == self.model().read8(addr),
    ;

    fn get_u16(&self, addr: Addr) -> (r: Result<Short, Fault>)
        ensures
            r == self.model().read16(addr),
    ;
}

/// Writing side of the device capability.
pub trait Write: Read {
    fn set_u8(&mut self, addr: Addr, val: Byte) -> (r: Result<(), Fault>)
        ensures
            write_outcome(old(self).model(), old(self).model().write8(addr, val), r, final(self).model()),
    ;

    fn set_u16(&mut self, addr: Addr, val: Short) -> (r: Result<(), Fault>)
        ensures
            write_outcome(old(self).model(), old(self).model().write16(addr, val), r, final(self).model()),
    ;
}

/// Anything that can be installed in the address space.
pub trait Device: Read + Write {}

/// One of the devices that a memory region can own.
#[derive(Debug)]
pub enum AnyDevice {
    Memory(Memory),
    Register(Register),
    Screen(ScreenDevice),
}

impl Read for AnyDevice {
    open spec fn model(&self) -> DeviceModel {
        match self {
            AnyDevice::Memory(m) => m.model(),
            AnyDevice::Register(r) => r.model(),
            AnyDevice::Screen(s) => s.model(),
        }
    }

    fn get_u8(&self, addr: Addr) -> (r: Result<Byte, Fault>) {
        match self {
            AnyDevice::Memory(m) => m.get_u8(addr),
            AnyDevice::Register(r) => r.get_u8(addr),
            AnyDevice::Screen(s) => s.get_u8(addr),
        }
    }

    fn get_u16(&self, addr: Addr) -> (r: Result<Short, Fault>) {
        match self {
            AnyDevice::Memory(m) => m.get_u16(addr),
            AnyDevice::Register(r) => r.get_u16(addr),
            AnyDevice::Screen(s) => s.get_u16(addr),
        }
    }
}

impl Write for AnyDevice {
    fn set_u8(&mut self, addr: Addr, val: Byte) -> (r: Result<(), Fault>) {
        match self {
            AnyDevice::Memory(m) => m.set_u8(addr, val),
            AnyDevice::Register(r) => r.set_u8(addr, val),
            AnyDevice::Screen(s) => s.set_u8(addr, val),
        }
    }

    fn set_u16(&mut self, addr: Addr, val: Short) -> (r: Result<(), Fault>) {
        match self {
            AnyDevice::Memory(m) => m.set_u16(addr, val),
            AnyDevice::Register(r) => r.set_u16(addr, val),
            AnyDevice::Screen(s) => s.set_u16(addr, val),
        }
    }
}

impl Device for AnyDevice {}

} // verus!

verus! {

/// Storing a word in a flat memory and reading it back gives the word, with its
/// high byte at the lower address and its low byte at the next one; both
/// addresses must lie below the capacity (and the second must be an address).
pub proof fn lemma_word_round_trip(bytes: Seq<u8>, addr: Addr, v: u16)
    requires
        (addr as int) + 1 < bytes.len(),
        addr < 0xffff,
    ensures
        DeviceModel::Flat(bytes).write16(addr, v) is Ok,
        DeviceModel::Flat(bytes).write16(addr, v)->Ok_0.read16(addr) == Ok::<u16, Fault>(v),
        DeviceModel::Flat(bytes).write16(addr, v)->Ok_0.read8(addr) == Ok::<u8, Fault>((v >> 8) as u8),
        DeviceModel::Flat(bytes).write16(addr, v)->Ok_0.read8((addr + 1) as u16) == Ok::<u8, Fault>(
            (v & 0xff) as u8,
        ),
{
    crate::types::lemma_be16_split(v);
    assert((addr + 1) as u16 as int == addr as int + 1);
}

} // verus!
