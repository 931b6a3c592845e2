pub use crate::cpu::Cpu;
pub use crate::device::{AnyDevice, Device, Read, Write};
pub use crate::instructions::{InstructionArguments, InstructionVariant};
pub use crate::memory::{Memory, MemoryMapper, MemoryRegion, MemoryRegionBuilder, MemoryRegionBuilderError};
pub use crate::registers::{Register, RegisterVariant};
pub use crate::screen_device::{ScreenCommand, ScreenDevice, ScreenWrite};
pub use crate::types::{Addr, Byte, Fault, Short};
