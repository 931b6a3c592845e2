use crate::types::{Byte, Fault};
use vstd::prelude::*;

pub mod constants;

verus! {

/// Every instruction form of the machine.
#[derive(Clone, Copy, Debug, PartialEq, Eq, Structural)]
pub enum InstructionVariant {
    MoveLitReg,
    MoveRegReg,
    MoveRegMem,
    MoveMemReg,
    MoveLitMem,
    MoveRegPtrReg,
    MoveLitOffReg,

    AddRegReg,
    AddLitReg,
    SubLitReg,
    SubRegLit,
    SubRegReg,
    IncReg,
    DecReg,
    MulLitReg,
    MulRegReg,

    LeftShiftRegLit,
    LeftShiftRegReg,
    RightShiftRegLit,
    RightShiftRegReg,
    AndRegLit,
    AndRegReg,
    OrRegLit,
    OrRegReg,
    XorRegLit,
    XorRegReg,
    Not,

    JumpNotEqReg,
    JumpNotEqLit,
    JumpEqReg,
    JumpEqLit,
    JumpLtReg,
    JumpLtLit,
    JumpGtReg,
    JumpGtLit,
    JumpLteReg,
    JumpLteLit,
    JumpGteReg,
    JumpGteLit,

    PushLit,
    PushReg,
    Pop,
    CallLit,
    CallReg,
    Ret,
    Halt,
}

/// The opcode byte of each instruction form.
pub open spec fn opcode_of(v: InstructionVariant) -> u8 {
    match v {
        InstructionVariant::MoveLitReg => constants::MOV_LIT_REG,
        InstructionVariant::MoveRegReg => constants::MOV_REG_REG,
        InstructionVariant::MoveRegMem => constants::MOV_REG_MEM,
        InstructionVariant::MoveMemReg => constants::MOV_MEM_REG,
        InstructionVariant::MoveLitMem => constants::MOV_LIT_MEM,
        InstructionVariant::MoveRegPtrReg => constants::MOV_REG_PTR_REG,
        InstructionVariant::MoveLitOffReg => constants::MOV_LIT_OFF_REG,
        InstructionVariant::AddRegReg => constants::ADD_REG_REG,
        InstructionVariant::AddLitReg => constants::ADD_LIT_REG,
        InstructionVariant::SubLitReg => constants::SUB_LIT_REG,
        InstructionVariant::SubRegLit => constants::SUB_REG_LIT,
        InstructionVariant::SubRegReg => constants::SUB_REG_REG,
        InstructionVariant::IncReg => constants::INC_REG,
        InstructionVariant::DecReg => constants::DEC_REG,
        InstructionVariant::MulLitReg => constants::MUL_LIT_REG,
        InstructionVariant::MulRegReg => constants::MUL_REG_REG,
        InstructionVariant::LeftShiftRegLit => constants::LSF_REG_LIT,
        InstructionVariant::LeftShiftRegReg => constants::LSF_REG_REG,
        InstructionVariant::RightShiftRegLit => constants::RSF_REG_LIT,
        InstructionVariant::RightShiftRegReg => constants::RSF_REG_REG,
        InstructionVariant::AndRegLit => constants::AND_REG_LIT,
        InstructionVariant::AndRegReg => constants::AND_REG_REG,
        InstructionVariant::OrRegLit => constants::OR_REG_LIT,
        InstructionVariant::OrRegReg => constants::OR_REG_REG,
        InstructionVariant::XorRegLit => constants::XOR_REG_LIT,
        InstructionVariant::XorRegReg => constants::XOR_REG_REG,
        InstructionVariant::Not => constants::NOT,
        InstructionVariant::JumpNotEqReg => constants::JNE_REG,
        InstructionVariant::JumpNotEqLit => constants::JNE_LIT,
        InstructionVariant::JumpEqReg => constants::JEQ_REG,
        InstructionVariant::JumpEqLit => constants::JEQ_LIT,
        InstructionVariant::JumpLtReg => constants::JLT_REG,
        InstructionVariant::JumpLtLit => constants::JLT_LIT,
        InstructionVariant::JumpGtReg => constants::JGT_REG,
        InstructionVariant::JumpGtLit => constants::JGT_LIT,
        InstructionVariant::JumpLteReg => constants::JLE_REG,
        InstructionVariant::JumpLteLit => constants::JLE_LIT,
        InstructionVariant::JumpGteReg => constants::JGE_REG,
        InstructionVariant::JumpGteLit => constants::JGE_LIT,
        InstructionVariant::PushLit => constants::PSH_LIT,
        InstructionVariant::PushReg => constants::PSH_REG,
        InstructionVariant::Pop => constants::POP,
        InstructionVariant::CallLit => constants::CAL_LIT,
        InstructionVariant::CallReg => constants::CAL_REG,
        InstructionVariant::Ret => constants::RET,
        InstructionVariant::Halt => constants::HLT,
    }
}

/// The instruction form whose opcode is `b`, if any.
pub open spec fn instruction_of(b: u8) -> Option<InstructionVariant> {
    if b == constants::MOV_LIT_REG {
        Some(InstructionVariant::MoveLitReg)
    } else if b == constants::MOV_REG_REG {
        Some(InstructionVariant::MoveRegReg)
    } else if b == constants::MOV_REG_MEM {
        Some(InstructionVariant::MoveRegMem)
    } else if b == constants::MOV_MEM_REG {
        Some(InstructionVariant::MoveMemReg)
    } else if b == constants::MOV_LIT_MEM {
        Some(InstructionVariant::MoveLitMem)
    } else if b == constants::MOV_REG_PTR_REG {
        Some(InstructionVariant::MoveRegPtrReg)
    } else if b == constants::MOV_LIT_OFF_REG {
        Some(InstructionVariant::MoveLitOffReg)
    } else if b == constants::ADD_REG_REG {
        Some(InstructionVariant::AddRegReg)
    } else if b == constants::ADD_LIT_REG {
        Some(InstructionVariant::AddLitReg)
    } else if b == constants::SUB_LIT_REG {
        Some(InstructionVariant::SubLitReg)
    } else if b == constants::SUB_REG_LIT {
        Some(InstructionVariant::SubRegLit)
    } else if b == constants::SUB_REG_REG {
        Some(InstructionVariant::SubRegReg)
    } else if b == constants::INC_REG {
        Some(InstructionVariant::IncReg)
    } else if b == constants::DEC_REG {
        Some(InstructionVariant::DecReg)
    } else if b == constants::MUL_LIT_REG {
        Some(InstructionVariant::MulLitReg)
    } else if b == constants::MUL_REG_REG {
        Some(InstructionVariant::MulRegReg)
    } else if b == constants::LSF_REG_LIT {
        Some(InstructionVariant::LeftShiftRegLit)
    } else if b == constants::LSF_REG_REG {
        Some(InstructionVariant::LeftShiftRegReg)
    } else if b == constants::RSF_REG_LIT {
        Some(InstructionVariant::RightShiftRegLit)
    } else if b == constants::RSF_REG_REG {
        Some(InstructionVariant::RightShiftRegReg)
    } else if b == constants::AND_REG_LIT {
        Some(InstructionVariant::AndRegLit)
    } else if b == constants::AND_REG_REG {
        Some(InstructionVariant::AndRegReg)
    } else if b == constants::OR_REG_LIT {
        Some(InstructionVariant::OrRegLit)
    } else if b == constants::OR_REG_REG {
        Some(InstructionVariant::OrRegReg)
    } else if b == constants::XOR_REG_LIT {
        Some(InstructionVariant::XorRegLit)
    } else if b == constants::XOR_REG_REG {
        Some(InstructionVariant::XorRegReg)
    } else if b == constants::NOT {
        Some(InstructionVariant::Not)
    } else if b == constants::JNE_REG {
        Some(InstructionVariant::JumpNotEqReg)
    } else if b == constants::JNE_LIT {
        Some(InstructionVariant::JumpNotEqLit)
    } else if b == constants::JEQ_REG {
        Some(InstructionVariant::JumpEqReg)
    } else if b == constants::JEQ_LIT {
        Some(InstructionVariant::JumpEqLit)
    } else if b == constants::JLT_REG {
        Some(InstructionVariant::JumpLtReg)
    } else if b == constants::JLT_LIT {
        Some(InstructionVariant::JumpLtLit)
    } else if b == constants::JGT_REG {
        Some(InstructionVariant::JumpGtReg)
    } else if b == constants::JGT_LIT {
        Some(InstructionVariant::JumpGtLit)
    } else if b == constants::JLE_REG {
        Some(InstructionVariant::JumpLteReg)
    } else if b == constants::JLE_LIT {
        Some(InstructionVariant::JumpLteLit)
    } else if b == constants::JGE_REG {
        Some(InstructionVariant::JumpGteReg)
    } else if b == constants::JGE_LIT {
        Some(InstructionVariant::JumpGteLit)
    } else if b == constants::PSH_LIT {
        Some(InstructionVariant::PushLit)
    } else if b == constants::PSH_REG {
        Some(InstructionVariant::PushReg)
    } else if b == constants::POP {
        Some(InstructionVariant::Pop)
    } else if b == constants::CAL_LIT {
        Some(InstructionVariant::CallLit)
    } else if b == constants::CAL_REG {
        Some(InstructionVariant::CallReg)
    } else if b == constants::RET {
        Some(InstructionVariant::Ret)
    } else if b == constants::HLT {
        Some(InstructionVariant::Halt)
    } else {
        None
    }
}

/// The assembler mnemonic of each instruction form.
pub open spec fn mnemonic_of(v: InstructionVariant) -> Seq<char> {
    match v {
        InstructionVariant::MoveLitReg => "mov"@,
        InstructionVariant::MoveRegReg => "mov"@,
        InstructionVariant::MoveRegMem => "mov"@,
        InstructionVariant::MoveMemReg => "mov"@,
        InstructionVariant::MoveLitMem => "mov"@,
        InstructionVariant::MoveRegPtrReg => "mov"@,
        InstructionVariant::MoveLitOffReg => "mov"@,
        InstructionVariant::AddRegReg => "add"@,
        InstructionVariant::AddLitReg => "add"@,
        InstructionVariant::SubLitReg => "sub"@,
        InstructionVariant::SubRegLit => "sub"@,
        InstructionVariant::SubRegReg => "sub"@,
        InstructionVariant::IncReg => "inc"@,
        InstructionVariant::DecReg => "dec"@,
        InstructionVariant::MulLitReg => "mul"@,
        InstructionVariant::MulRegReg => "mul"@,
        InstructionVariant::LeftShiftRegLit => "lsh"@,
        InstructionVariant::LeftShiftRegReg => "lsh"@,
        InstructionVariant::RightShiftRegLit => "rsh"@,
        InstructionVariant::RightShiftRegReg => "rsh"@,
        InstructionVariant::AndRegLit => "and"@,
        InstructionVariant::AndRegReg => "and"@,
        InstructionVariant::OrRegLit => "or"@,
        InstructionVariant::OrRegReg => "or"@,
        InstructionVariant::XorRegLit => "xor"@,
        InstructionVariant::XorRegReg => "xor"@,
        InstructionVariant::Not => "not"@,
        InstructionVariant::JumpNotEqReg => "jne"@,
        InstructionVariant::JumpNotEqLit => "jne"@,
        InstructionVariant::JumpEqReg => "jeq"@,
        InstructionVariant::JumpEqLit => "jeq"@,
        InstructionVariant::JumpLtReg => "jlt"@,
        InstructionVariant::JumpLtLit => "jlt"@,
        InstructionVariant::JumpGtReg => "jgt"@,
        InstructionVariant::JumpGtLit => "jgt"@,
        InstructionVariant::JumpLteReg => "jle"@,
        InstructionVariant::JumpLteLit => "jle"@,
        InstructionVariant::JumpGteReg => "jge"@,
        InstructionVariant::JumpGteLit => "jge"@,
        InstructionVariant::PushLit => "psh"@,
        InstructionVariant::PushReg => "psh"@,
        InstructionVariant::Pop => "pop"@,
        InstructionVariant::CallLit => "cal"@,
        InstructionVariant::CallReg => "cal"@,
        InstructionVariant::Ret => "ret"@,
        InstructionVariant::Halt => "hlt"@,
    }
}

/// The operand shape of each instruction form.
pub open spec fn shape_of(v: InstructionVariant) -> InstructionArguments {
    match v {
        InstructionVariant::MoveLitReg => InstructionArguments::LitReg,
        InstructionVariant::MoveRegReg => InstructionArguments::RegReg,
        InstructionVariant::MoveRegMem => InstructionArguments::RegMem,
        InstructionVariant::MoveMemReg => InstructionArguments::MemReg,
        InstructionVariant::MoveLitMem => InstructionArguments::LitMem,
        InstructionVariant::MoveRegPtrReg => InstructionArguments::RegPtrReg,
        InstructionVariant::MoveLitOffReg => InstructionArguments::LitOffReg,
        InstructionVariant::AddRegReg => InstructionArguments::RegReg,
        InstructionVariant::AddLitReg => InstructionArguments::LitReg,
        InstructionVariant::SubLitReg => InstructionArguments::LitReg,
        InstructionVariant::SubRegLit => InstructionArguments::RegLit,
        InstructionVariant::SubRegReg => InstructionArguments::RegReg,
        InstructionVariant::IncReg => InstructionArguments::Reg,
        InstructionVariant::DecReg => InstructionArguments::Reg,
        InstructionVariant::MulLitReg => InstructionArguments::LitReg,
        InstructionVariant::MulRegReg => InstructionArguments::RegReg,
        InstructionVariant::LeftShiftRegLit => InstructionArguments::RegLit,
        InstructionVariant::LeftShiftRegReg => InstructionArguments::RegReg,
        InstructionVariant::RightShiftRegLit => InstructionArguments::RegLit,
        InstructionVariant::RightShiftRegReg => InstructionArguments::RegReg,
        InstructionVariant::AndRegLit => InstructionArguments::RegLit,
        InstructionVariant::AndRegReg => InstructionArguments::RegReg,
        InstructionVariant::OrRegLit => InstructionArguments::RegLit,
        InstructionVariant::OrRegReg => InstructionArguments::RegReg,
        InstructionVariant::XorRegLit => InstructionArguments::RegLit,
        InstructionVariant::XorRegReg => InstructionArguments::RegReg,
        InstructionVariant::Not => InstructionArguments::Reg,
        InstructionVariant::JumpNotEqReg => InstructionArguments::RegMem,
        InstructionVariant::JumpNotEqLit => InstructionArguments::LitMem,
        InstructionVariant::JumpEqReg => InstructionArguments::RegMem,
        InstructionVariant::JumpEqLit => InstructionArguments::LitMem,
        InstructionVariant::JumpLtReg => InstructionArguments::RegMem,
        InstructionVariant::JumpLtLit => InstructionArguments::LitMem,
        InstructionVariant::JumpGtReg => InstructionArguments::RegMem,
        InstructionVariant::JumpGtLit => InstructionArguments::LitMem,
        InstructionVariant::JumpLteReg => InstructionArguments::RegMem,
        InstructionVariant::JumpLteLit => InstructionArguments::LitMem,
        InstructionVariant::JumpGteReg => InstructionArguments::RegMem,
        InstructionVariant::JumpGteLit => InstructionArguments::LitMem,
        InstructionVariant::PushLit => InstructionArguments::Lit,
        InstructionVariant::PushReg => InstructionArguments::Reg,
        InstructionVariant::Pop => InstructionArguments::Reg,
        InstructionVariant::CallLit => InstructionArguments::Lit,
        InstructionVariant::CallReg => InstructionArguments::Reg,
        InstructionVariant::Ret => InstructionArguments::NoArgs,
        InstructionVariant::Halt => InstructionArguments::NoArgs,
    }
}

impl InstructionVariant {
    /// The assembler mnemonic.
    pub fn as_str(&self) -> (r: &'static str)
        ensures
            r@ == mnemonic_of(*self),
    {
        match self {
            InstructionVariant::MoveLitReg => "mov",
            InstructionVariant::MoveRegReg => "mov",
            InstructionVariant::MoveRegMem => "mov",
            InstructionVariant::MoveMemReg => "mov",
            InstructionVariant::MoveLitMem => "mov",
            InstructionVariant::MoveRegPtrReg => "mov",
            InstructionVariant::MoveLitOffReg => "mov",
            InstructionVariant::AddRegReg => "add",
            InstructionVariant::AddLitReg => "add",
            InstructionVariant::SubLitReg => "sub",
            InstructionVariant::SubRegLit => "sub",
            InstructionVariant::SubRegReg => "sub",
            InstructionVariant::IncReg => "inc",
            InstructionVariant::DecReg => "dec",
            InstructionVariant::MulLitReg => "mul",
            InstructionVariant::MulRegReg => "mul",
            InstructionVariant::LeftShiftRegLit => "lsh",
            InstructionVariant::LeftShiftRegReg => "lsh",
            InstructionVariant::RightShiftRegLit => "rsh",
            InstructionVariant::RightShiftRegReg => "rsh",
            InstructionVariant::AndRegLit => "and",
            InstructionVariant::AndRegReg => "and",
            InstructionVariant::OrRegLit => "or",
            InstructionVariant::OrRegReg => "or",
            InstructionVariant::XorRegLit => "xor",
            InstructionVariant::XorRegReg => "xor",
            InstructionVariant::Not => "not",
            InstructionVariant::JumpNotEqReg => "jne",
            InstructionVariant::JumpNotEqLit => "jne",
            InstructionVariant::JumpEqReg => "jeq",
            InstructionVariant::JumpEqLit => "jeq",
            InstructionVariant::JumpLtReg => "jlt",
            InstructionVariant::JumpLtLit => "jlt",
            InstructionVariant::JumpGtReg => "jgt",
            InstructionVariant::JumpGtLit => "jgt",
            InstructionVariant::JumpLteReg => "jle",
            InstructionVariant::JumpLteLit => "jle",
            InstructionVariant::JumpGteReg => "jge",
            InstructionVariant::JumpGteLit => "jge",
            InstructionVariant::PushLit => "psh",
            InstructionVariant::PushReg => "psh",
            InstructionVariant::Pop => "pop",
            InstructionVariant::CallLit => "cal",
            InstructionVariant::CallReg => "cal",
            InstructionVariant::Ret => "ret",
            InstructionVariant::Halt => "hlt",
        }
    }

    /// The opcode byte.
    pub fn to_byte(self) -> (r: Byte)
        ensures
            r == opcode_of(self),
    {
        match self {
            InstructionVariant::MoveLitReg => constants::MOV_LIT_REG,
            InstructionVariant::MoveRegReg => constants::MOV_REG_REG,
            InstructionVariant::MoveRegMem => constants::MOV_REG_MEM,
            InstructionVariant::MoveMemReg => constants::MOV_MEM_REG,
            InstructionVariant::MoveLitMem => constants::MOV_LIT_MEM,
            InstructionVariant::MoveRegPtrReg => constants::MOV_REG_PTR_REG,
            InstructionVariant::MoveLitOffReg => constants::MOV_LIT_OFF_REG,
            InstructionVariant::AddRegReg => constants::ADD_REG_REG,
            InstructionVariant::AddLitReg => constants::ADD_LIT_REG,
            InstructionVariant::SubLitReg => constants::SUB_LIT_REG,
            InstructionVariant::SubRegLit => constants::SUB_REG_LIT,
            InstructionVariant::SubRegReg => constants::SUB_REG_REG,
            InstructionVariant::IncReg => constants::INC_REG,
            InstructionVariant::DecReg => constants::DEC_REG,
            InstructionVariant::MulLitReg => constants::MUL_LIT_REG,
            InstructionVariant::MulRegReg => constants::MUL_REG_REG,
            InstructionVariant::LeftShiftRegLit => constants::LSF_REG_LIT,
            InstructionVariant::LeftShiftRegReg => constants::LSF_REG_REG,
            InstructionVariant::RightShiftRegLit => constants::RSF_REG_LIT,
            InstructionVariant::RightShiftRegReg => constants::RSF_REG_REG,
            InstructionVariant::AndRegLit => constants::AND_REG_LIT,
            InstructionVariant::AndRegReg => constants::AND_REG_REG,
            InstructionVariant::OrRegLit => constants::OR_REG_LIT,
            InstructionVariant::OrRegReg => constants::OR_REG_REG,
            InstructionVariant::XorRegLit => constants::XOR_REG_LIT,
            InstructionVariant::XorRegReg => constants::XOR_REG_REG,
            InstructionVariant::Not => constants::NOT,
            InstructionVariant::JumpNotEqReg => constants::JNE_REG,
            InstructionVariant::JumpNotEqLit => constants::JNE_LIT,
            InstructionVariant::JumpEqReg => constants::JEQ_REG,
            InstructionVariant::JumpEqLit => constants::JEQ_LIT,
            InstructionVariant::JumpLtReg => constants::JLT_REG,
            InstructionVariant::JumpLtLit => constants::JLT_LIT,
            InstructionVariant::JumpGtReg => constants::JGT_REG,
            InstructionVariant::JumpGtLit => constants::JGT_LIT,
            InstructionVariant::JumpLteReg => constants::JLE_REG,
            InstructionVariant::JumpLteLit => constants::JLE_LIT,
            InstructionVariant::JumpGteReg => constants::JGE_REG,
            InstructionVariant::JumpGteLit => constants::JGE_LIT,
            InstructionVariant::PushLit => constants::PSH_LIT,
            InstructionVariant::PushReg => constants::PSH_REG,
            InstructionVariant::Pop => constants::POP,
            InstructionVariant::CallLit => constants::CAL_LIT,
            InstructionVariant::CallReg => constants::CAL_REG,
            InstructionVariant::Ret => constants::RET,
            InstructionVariant::Halt => constants::HLT,
        }
    }

    /// Decodes an opcode byte; a byte that is no opcode is a fault.
    pub fn from_byte(b: Byte) -> (r: Result<InstructionVariant, Fault>)
        ensures
            match instruction_of(b) {
                Some(v) => r == Ok::<InstructionVariant, Fault>(v),
                None => r == Err::<InstructionVariant, Fault>(Fault::UnknownOpcode(b)),
            },
    {
        if b == constants::MOV_LIT_REG {
            Ok(InstructionVariant::MoveLitReg)
        } else if b == constants::MOV_REG_REG {
            Ok(InstructionVariant::MoveRegReg)
        } else if b == constants::MOV_REG_MEM {
            Ok(InstructionVariant::MoveRegMem)
        } else if b == constants::MOV_MEM_REG {
            Ok(InstructionVariant::MoveMemReg)
        } else if b == constants::MOV_LIT_MEM {
            Ok(InstructionVariant::MoveLitMem)
        } else if b == constants::MOV_REG_PTR_REG {
            Ok(InstructionVariant::MoveRegPtrReg)
        } else if b == constants::MOV_LIT_OFF_REG {
            Ok(InstructionVariant::MoveLitOffReg)
        } else if b == constants::ADD_REG_REG {
            Ok(InstructionVariant::AddRegReg)
        } else if b == constants::ADD_LIT_REG {
            Ok(InstructionVariant::AddLitReg)
        } else if b == constants::SUB_LIT_REG {
            Ok(InstructionVariant::SubLitReg)
        } else if b == constants::SUB_REG_LIT {
            Ok(InstructionVariant::SubRegLit)
        } else if b == constants::SUB_REG_REG {
            Ok(InstructionVariant::SubRegReg)
        } else if b == constants::INC_REG {
            Ok(InstructionVariant::IncReg)
        } else if b == constants::DEC_REG {
            Ok(InstructionVariant::DecReg)
        } else if b == constants::MUL_LIT_REG {
            Ok(InstructionVariant::MulLitReg)
        } else if b == constants::MUL_REG_REG {
            Ok(InstructionVariant::MulRegReg)
        } else if b == constants::LSF_REG_LIT {
            Ok(InstructionVariant::LeftShiftRegLit)
        } else if b == constants::LSF_REG_REG {
            Ok(InstructionVariant::LeftShiftRegReg)
        } else if b == constants::RSF_REG_LIT {
            Ok(InstructionVariant::RightShiftRegLit)
        } else if b == constants::RSF_REG_REG {
            Ok(InstructionVariant::RightShiftRegReg)
        } else if b == constants::AND_REG_LIT {
            Ok(InstructionVariant::AndRegLit)
        } else if b == constants::AND_REG_REG {
            Ok(InstructionVariant::AndRegReg)
        } else if b == constants::OR_REG_LIT {
            Ok(InstructionVariant::OrRegLit)
        } else if b == constants::OR_REG_REG {
            Ok(InstructionVariant::OrRegReg)
        } else if b == constants::XOR_REG_LIT {
            Ok(InstructionVariant::XorRegLit)
        } else if b == constants::XOR_REG_REG {
            Ok(InstructionVariant::XorRegReg)
        } else if b == constants::NOT {
            Ok(InstructionVariant::Not)
        } else if b == constants::JNE_REG {
            Ok(InstructionVariant::JumpNotEqReg)
        } else if b == constants::JNE_LIT {
            Ok(InstructionVariant::JumpNotEqLit)
        } else if b == constants::JEQ_REG {
            Ok(InstructionVariant::JumpEqReg)
        } else if b == constants::JEQ_LIT {
            Ok(InstructionVariant::JumpEqLit)
        } else if b == constants::JLT_REG {
            Ok(InstructionVariant::JumpLtReg)
        } else if b == constants::JLT_LIT {
            Ok(InstructionVariant::JumpLtLit)
        } else if b == constants::JGT_REG {
            Ok(InstructionVariant::JumpGtReg)
        } else if b == constants::JGT_LIT {
            Ok(InstructionVariant::JumpGtLit)
        } else if b == constants::JLE_REG {
            Ok(InstructionVariant::JumpLteReg)
        } else if b == constants::JLE_LIT {
            Ok(InstructionVariant::JumpLteLit)
        } else if b == constants::JGE_REG {
            Ok(InstructionVariant::JumpGteReg)
        } else if b == constants::JGE_LIT {
            Ok(InstructionVariant::JumpGteLit)
        } else if b == constants::PSH_LIT {
            Ok(InstructionVariant::PushLit)
        } else if b == constants::PSH_REG {
            Ok(InstructionVariant::PushReg)
        } else if b == constants::POP {
            Ok(InstructionVariant::Pop)
        } else if b == constants::CAL_LIT {
            Ok(InstructionVariant::CallLit)
        } else if b == constants::CAL_REG {
            Ok(InstructionVariant::CallReg)
        } else if b == constants::RET {
            Ok(InstructionVariant::Ret)
        } else if b == constants::HLT {
            Ok(InstructionVariant::Halt)
        } else {
            Err(Fault::UnknownOpcode(b))
        }
    }
}

/// Decoding is the inverse of encoding: every opcode that decodes names an
/// instruction with that opcode, and every instruction's opcode decodes to it.
pub proof fn lemma_opcode_round_trip(b: u8, v: InstructionVariant)
    ensures
        instruction_of(b) is Some ==> opcode_of(instruction_of(b).unwrap()) == b,
        instruction_of(opcode_of(v)) == Some(v),
{
}

/// The operand shapes, named by the operands in the order they follow the opcode.
#[derive(Clone, Copy, Debug, PartialEq, Eq, Structural)]
pub enum InstructionArguments {
    NoArgs,
    Reg,
    Lit,
    LitReg,
    RegReg,
    RegLit,
    RegMem,
    MemReg,
    LitMem,
    RegPtrReg,
    LitOffReg,
}

/// The number of operand bytes of each shape: one per register, two per literal or address.
pub open spec fn operand_bytes(a: InstructionArguments) -> u8 {
    match a {
        InstructionArguments::NoArgs => 0,
        InstructionArguments::Reg => 1,
        InstructionArguments::Lit => 2,
        InstructionArguments::LitReg => 3,
        InstructionArguments::RegReg => 2,
        InstructionArguments::RegLit => 3,
        InstructionArguments::RegMem => 3,
        InstructionArguments::MemReg => 3,
        InstructionArguments::LitMem => 4,
        InstructionArguments::RegPtrReg => 2,
        InstructionArguments::LitOffReg => 4,
    }
}

impl InstructionArguments {
    /// The number of operand bytes that follow the opcode.
    pub fn bytes(&self) -> (r: u8)
        ensures
            r == operand_bytes(*self),
    {
        match self {
            InstructionArguments::NoArgs => 0,
            InstructionArguments::Reg => 1,
            InstructionArguments::Lit => 2,
            InstructionArguments::LitReg => 3,
            InstructionArguments::RegReg => 2,
            InstructionArguments::RegLit => 3,
            InstructionArguments::RegMem => 3,
            InstructionArguments::MemReg => 3,
            InstructionArguments::LitMem => 4,
            InstructionArguments::RegPtrReg => 2,
            InstructionArguments::LitOffReg => 4,
        }
    }

    /// The operand shape of an instruction form.
    pub fn from_variant(variant: InstructionVariant) -> (r: InstructionArguments)
        ensures
            r == shape_of(variant),
    {
        match variant {
            InstructionVariant::MoveLitReg => InstructionArguments::LitReg,
            InstructionVariant::MoveRegReg => InstructionArguments::RegReg,
            InstructionVariant::MoveRegMem => InstructionArguments::RegMem,
            InstructionVariant::MoveMemReg => InstructionArguments::MemReg,
            InstructionVariant::MoveLitMem => InstructionArguments::LitMem,
            InstructionVariant::MoveRegPtrReg => InstructionArguments::RegPtrReg,
            InstructionVariant::MoveLitOffReg => InstructionArguments::LitOffReg,
            InstructionVariant::AddRegReg => InstructionArguments::RegReg,
            InstructionVariant::AddLitReg => InstructionArguments::LitReg,
            InstructionVariant::SubLitReg => InstructionArguments::LitReg,
            InstructionVariant::SubRegLit => InstructionArguments::RegLit,
            InstructionVariant::SubRegReg => InstructionArguments::RegReg,
            InstructionVariant::IncReg => InstructionArguments::Reg,
            InstructionVariant::DecReg => InstructionArguments::Reg,
            InstructionVariant::MulLitReg => InstructionArguments::LitReg,
            InstructionVariant::MulRegReg => InstructionArguments::RegReg,
            InstructionVariant::LeftShiftRegLit => InstructionArguments::RegLit,
            InstructionVariant::LeftShiftRegReg => InstructionArguments::RegReg,
            InstructionVariant::RightShiftRegLit => InstructionArguments::RegLit,
            InstructionVariant::RightShiftRegReg => InstructionArguments::RegReg,
            InstructionVariant::AndRegLit => InstructionArguments::RegLit,
            InstructionVariant::AndRegReg => InstructionArguments::RegReg,
            InstructionVariant::OrRegLit => InstructionArguments::RegLit,
            InstructionVariant::OrRegReg => InstructionArguments::RegReg,
            InstructionVariant::XorRegLit => InstructionArguments::RegLit,
            InstructionVariant::XorRegReg => InstructionArguments::RegReg,
            InstructionVariant::Not => InstructionArguments::Reg,
            InstructionVariant::JumpNotEqReg => InstructionArguments::RegMem,
            InstructionVariant::JumpNotEqLit => InstructionArguments::LitMem,
            InstructionVariant::JumpEqReg => InstructionArguments::RegMem,
            InstructionVariant::JumpEqLit => InstructionArguments::LitMem,
            InstructionVariant::JumpLtReg => InstructionArguments::RegMem,
            InstructionVariant::JumpLtLit => InstructionArguments::LitMem,
            InstructionVariant::JumpGtReg => InstructionArguments::RegMem,
            InstructionVariant::JumpGtLit => InstructionArguments::LitMem,
            InstructionVariant::JumpLteReg => InstructionArguments::RegMem,
            InstructionVariant::JumpLteLit => InstructionArguments::LitMem,
            InstructionVariant::JumpGteReg => InstructionArguments::RegMem,
            InstructionVariant::JumpGteLit => InstructionArguments::LitMem,
            InstructionVariant::PushLit => InstructionArguments::Lit,
            InstructionVariant::PushReg => InstructionArguments::Reg,
            InstructionVariant::Pop => InstructionArguments::Reg,
            InstructionVariant::CallLit => InstructionArguments::Lit,
            InstructionVariant::CallReg => InstructionArguments::Reg,
            InstructionVariant::Ret => InstructionArguments::NoArgs,
            InstructionVariant::Halt => InstructionArguments::NoArgs,
        }
    }
}

} // verus!
