use crate::device::{Device, DeviceModel, Read, Write};
use crate::memory::Memory;
use crate::types::{be16, join_bytes, split_word, Addr, Byte, Fault, Short};
use vstd::prelude::*;

pub mod constants;

verus! {

/// The twelve registers of the machine.
#[derive(Clone, Copy, Debug, PartialEq, Eq, PartialOrd, Ord, Structural)]
pub enum RegisterVariant {
    Ip,
    Acc,
    R1,
    R2,
    R3,
    R4,
    R5,
    R6,
    R7,
    R8,
    Sp,
    Fp,
}

/// The number of registers in the register file.
pub const REGISTER_COUNT: usize = 12;

/// The register whose id is `b`, if any.
pub open spec fn register_of(b: u8) -> Option<RegisterVariant> {
    if b == constants::IP {
        Some(RegisterVariant::Ip)
    } else if b == constants::ACC {
        Some(RegisterVariant::Acc)
    } else if b == constants::R1 {
        Some(RegisterVariant::R1)
    } else if b == constants::R2 {
        Some(RegisterVariant::R2)
    } else if b == constants::R3 {
        Some(RegisterVariant::R3)
    } else if b == constants::R4 {
        Some(RegisterVariant::R4)
    } else if b == constants::R5 {
        Some(RegisterVariant::R5)
    } else if b == constants::R6 {
        Some(RegisterVariant::R6)
    } else if b == constants::R7 {
        Some(RegisterVariant::R7)
    } else if b == constants::R8 {
        Some(RegisterVariant::R8)
    } else if b == constants::SP {
        Some(RegisterVariant::Sp)
    } else if b == constants::FP {
        Some(RegisterVariant::Fp)
    } else {
        None
    }
}

impl RegisterVariant {
    /// The register's id in the binary encoding.
    pub open spec fn id_spec(self) -> u8 {
        match self {
            RegisterVariant::Ip => constants::IP,
            RegisterVariant::Acc => constants::ACC,
            RegisterVariant::R1 => constants::R1,
            RegisterVariant::R2 => constants::R2,
            RegisterVariant::R3 => constants::R3,
            RegisterVariant::R4 => constants::R4,
            RegisterVariant::R5 => constants::R5,
            RegisterVariant::R6 => constants::R6,
            RegisterVariant::R7 => constants::R7,
            RegisterVariant::R8 => constants::R8,
            RegisterVariant::Sp => constants::SP,
            RegisterVariant::Fp => constants::FP,
        }
    }

    /// The register's id in the binary encoding.
    #[verifier::when_used_as_spec(id_spec)]
    pub fn id(self) -> (r: Byte)
        ensures
            r == self.id_spec(),
            (r as usize) < REGISTER_COUNT,
    {
        match self {
            RegisterVariant::Ip => constants::IP,
            RegisterVariant::Acc => constants::ACC,
            RegisterVariant::R1 => constants::R1,
            RegisterVariant::R2 => constants::R2,
            RegisterVariant::R3 => constants::R3,
            RegisterVariant::R4 => constants::R4,
            RegisterVariant::R5 => constants::R5,
            RegisterVariant::R6 => constants::R6,
            RegisterVariant::R7 => constants::R7,
            RegisterVariant::R8 => constants::R8,
            RegisterVariant::Sp => constants::SP,
            RegisterVariant::Fp => constants::FP,
        }
    }

    /// Decodes a register id; an unknown id is a fault.
    pub fn from_byte(b: Byte) -> (r: Result<RegisterVariant, Fault>)
        ensures
            match register_of(b) {
                Some(v) => r == Ok::<RegisterVariant, Fault>(v),
                None => r == Err::<RegisterVariant, Fault>(Fault::UnknownRegister(b)),
            },
    {
        if b == constants::IP {
            Ok(RegisterVariant::Ip)
        } else if b == constants::ACC {
            Ok(RegisterVariant::Acc)
        } else if b == constants::R1 {
            Ok(RegisterVariant::R1)
        } else if b == constants::R2 {
            Ok(RegisterVariant::R2)
        } else if b == constants::R3 {
            Ok(RegisterVariant::R3)
        } else if b == constants::R4 {
            Ok(RegisterVariant::R4)
        } else if b == constants::R5 {
            Ok(RegisterVariant::R5)
        } else if b == constants::R6 {
            Ok(RegisterVariant::R6)
        } else if b == constants::R7 {
            Ok(RegisterVariant::R7)
        } else if b == constants::R8 {
            Ok(RegisterVariant::R8)
        } else if b == constants::SP {
            Ok(RegisterVariant::Sp)
        } else if b == constants::FP {
            Ok(RegisterVariant::Fp)
        } else {
            Err(Fault::UnknownRegister(b))
        }
    }
}

/// Every register's id decodes back to that register, and every id that
/// decodes names a register with that id.
pub proof fn lemma_register_id_round_trip(v: RegisterVariant, b: u8)
    ensures
        register_of(v.id_spec()) == Some(v),
        register_of(b) is Some ==> register_of(b).unwrap().id_spec() == b,
{
}

/// A two-byte storage cell.
#[derive(Debug)]
pub struct Register {
    pub memory: Memory,
}

impl Register {
    /// A register has exactly two bytes.
    pub open spec fn wf(&self) -> bool {
        self.memory@.len() == 2
    }

    /// The big-endian word the register holds.
    pub open spec fn value(&self) -> u16 {
        be16(self.memory@[0], self.memory@[1])
    }

    /// A register holding zero.
    pub fn new() -> (r: Register)
        ensures
            r.wf(),
            r.memory@ == seq![0u8, 0u8],
            r.value() == 0,
    {
        let memory = Memory::with_capacity(2);
        assert(memory@ =~= seq![0u8, 0u8]);
        Register { memory }
    }

    /// The word the register holds.
    pub fn get(&self) -> (r: Short)
        requires
            self.wf(),
        ensures
            r == self.value(),
    {
        join_bytes(self.memory.0[0], self.memory.0[1])
    }

    /// Stores a word in the register.
    pub fn set(&mut self, val: Short)
        requires
            old(self).wf(),
        ensures
            final(self).wf(),
            final(self).value() == val,
    {
        let (hi, lo) = split_word(val);
        self.memory.0[0] = hi;
        self.memory.0[1] = lo;
        proof {
            crate::types::lemma_be16_split(val);
        }
    }
}

impl Read for Register {
    open spec fn model(&self) -> DeviceModel {
        self.memory.model()
    }

    fn get_u8(&self, addr: Addr) -> (r: Result<Byte, Fault>) {
        self.memory.get_u8(addr)
    }

    fn get_u16(&self, addr: Addr) -> (r: Result<Short, Fault>) {
        self.memory.get_u16(addr)
    }
}

impl Write for Register {
    fn set_u8(&mut self, addr: Addr, val: Byte) -> (r: Result<(), Fault>) {
        self.memory.set_u8(addr, val)
    }

    fn set_u16(&mut self, addr: Addr, val: Short) -> (r: Result<(), Fault>) {
        self.memory.set_u16(addr, val)
    }
}

impl Device for Register {}

} // verus!
