use crate::device::{Device, DeviceModel, Read, Write};
use crate::types::{high_byte, low_byte, split_word, Addr, Byte, Fault, Short};
use vstd::prelude::*;

verus! {

/// The command carried in the high byte of a word written to the screen.
#[derive(Clone, Copy, Debug, PartialEq, Eq, Structural)]
pub enum ScreenCommand {
    /// Draw the character with the current style.
    Keep,
    /// Switch to bold before drawing.
    Bold,
    /// Switch back to the regular style before drawing.
    Regular,
    /// Clear the whole screen before drawing.
    Clear,
}

/// One character cell written to the screen.
#[derive(Clone, Copy, Debug, PartialEq, Eq, Structural)]
pub struct ScreenWrite {
    pub command: ScreenCommand,
    /// Column, from zero.
    pub x: u8,
    /// Row, from zero.
    pub y: u8,
    /// The character byte.
    pub ch: u8,
}

/// The command named by a byte, if any.
pub open spec fn screen_command_of(b: u8) -> Option<ScreenCommand> {
    if b == 0x00 {
        Some(ScreenCommand::Keep)
    } else if b == 0x01 {
        Some(ScreenCommand::Bold)
    } else if b == 0x02 {
        Some(ScreenCommand::Regular)
    } else if b == 0xff {
        Some(ScreenCommand::Clear)
    } else {
        None
    }
}

/// The cell that writing the word `val` at `addr` draws: the high byte is the
/// command, the low byte the character, and the address gives the position on
/// a grid sixteen cells wide.
pub open spec fn screen_write_of(addr: Addr, val: Short) -> Result<ScreenWrite, Fault> {
    match screen_command_of(high_byte(val)) {
        Some(command) => Ok(
            ScreenWrite {
                command,
                x: (addr as int % 16) as u8,
                y: ((addr as int / 16) % 256) as u8,
                ch: low_byte(val),
            },
        ),
        None => Err(Fault::UnknownScreenCommand(high_byte(val))),
    }
}

/// A write-only text screen: every word written to it becomes a cell in its log.
#[derive(Debug)]
pub struct ScreenDevice {
    writes: Vec<ScreenWrite>,
}

impl ScreenDevice {
    /// The log of the cells written so far, oldest first.
    pub closed spec fn log(&self) -> Seq<ScreenWrite> {
        self.writes@
    }

    /// A screen with nothing written to it.
    pub fn new() -> (r: ScreenDevice)
        ensures
            r.log() == Seq::<ScreenWrite>::empty(),
    {
        ScreenDevice { writes: Vec::new() }
    }

    /// The cells written since the last call, oldest first; the log is emptied.
    pub fn take_writes(&mut self) -> (r: Vec<ScreenWrite>)
        ensures
            r@ == old(self).log(),
            final(self).log() == Seq::<ScreenWrite>::empty(),
    {
        let mut out: Vec<ScreenWrite> = Vec::new();
        std::mem::swap(&mut out, &mut self.writes);
        out
    }
}

/// Decodes the command in the high byte of a screen word.
fn decode_command(b: u8) -> (r: Result<ScreenCommand, Fault>)
    ensures
        match screen_command_of(b) {
            Some(c) => r == Ok::<ScreenCommand, Fault>(c),
            None => r == Err::<ScreenCommand, Fault>(Fault::UnknownScreenCommand(b)),
        },
{
    if b == 0x00 {
        Ok(ScreenCommand::Keep)
    } else if b == 0x01 {
        Ok(ScreenCommand::Bold)
    } else if b == 0x02 {
        Ok(ScreenCommand::Regular)
    } else if b == 0xff {
        Ok(ScreenCommand::Clear)
    } else {
        Err(Fault::UnknownScreenCommand(b))
    }
}

impl Read for ScreenDevice {
    open spec fn model(&self) -> DeviceModel {
        DeviceModel::Screen(self.log())
    }

    fn get_u8(&self, addr: Addr) -> (r: Result<Byte, Fault>) {
        Err(Fault::UnsupportedAccess(addr))
    }

    fn get_u16(&self, addr: Addr) -> (r: Result<Short, Fault>) {
        Err(Fault::UnsupportedAccess(addr))
    }
}

impl Write for ScreenDevice {
    fn set_u8(&mut self, addr: Addr, val: Byte) -> (r: Result<(), Fault>) {
        Err(Fault::UnsupportedAccess(addr))
    }

    fn set_u16(&mut self, addr: Addr, val: Short) -> (r: Result<(), Fault>) {
        let (hi, lo) = split_word(val);
        match decode_command(hi) {
            Ok(command) => {
                let cell = ScreenWrite { command, x: (addr % 16) as u8, y: ((addr / 16) % 256) as u8, ch: lo };
                self.writes.push(cell);
                Ok(())
            },
            Err(e) => Err(e),
        }
    }
}

impl Device for ScreenDevice {}

} // verus!
