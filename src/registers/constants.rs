use crate::types::Byte;
use vstd::prelude::*;

verus! {

pub const IP: Byte = 0x00;
pub const ACC: Byte = 0x01;
pub const R1: Byte = 0x02;
pub const R2: Byte = 0x03;
pub const R3: Byte = 0x04;
pub const R4: Byte = 0x05;
pub const R5: Byte = 0x06;
pub const R6: Byte = 0x07;
pub const R7: Byte = 0x08;
pub const R8: Byte = 0x09;
pub const SP: Byte = 0x0A;
pub const FP: Byte = 0x0B;

} // verus!
