use crate::device::{AnyDevice, DeviceModel, Read};
use crate::instructions::{instruction_of, InstructionVariant};
use crate::memory::{
    flat_at, lemma_same_layout_index, lemma_store_keeps_layout, lemma_store_keeps_other,
    lemma_store_then_load, same_layout, mapped_outcome, mapped_read16, mapped_read8, mapped_write16, mapped_write8, Memory,
    MemoryMapper, MemoryRegion, RegionModel,
};
use crate::registers::{register_of, Register, RegisterVariant, REGISTER_COUNT};
use crate::types::{Addr, Byte, Fault, Short};
use vstd::prelude::*;

verus! {

/// The state of the machine: the register file, the frame size and the address space.
pub struct CpuModel {
    /// Register values, indexed by register id.
    pub regs: Seq<u16>,
    /// Bytes pushed in the current call frame.
    pub frame_size: u16,
    /// The installed regions, in probing order.
    pub regions: Seq<RegionModel>,
}

impl CpuModel {
    /// The value of a register.
    pub open spec fn reg(self, r: RegisterVariant) -> u16 {
        self.regs[r.id_spec() as int]
    }

    /// The state with one register changed.
    pub open spec fn with_reg(self, r: RegisterVariant, v: u16) -> CpuModel {
        CpuModel { regs: self.regs.update(r.id_spec() as int, v), ..self }
    }

    /// The state with another frame size.
    pub open spec fn with_frame_size(self, f: u16) -> CpuModel {
        CpuModel { frame_size: f, ..self }
    }

    /// The state with another address space.
    pub open spec fn with_regions(self, rs: Seq<RegionModel>) -> CpuModel {
        CpuModel { regions: rs, ..self }
    }
}

/// The register values at power-on: all zero but `Sp` and `Fp`, which point at
/// the top word of the address space.
pub open spec fn initial_regs() -> Seq<u16> {
    Seq::new(
        REGISTER_COUNT as nat,
        |i: int|
            if i == RegisterVariant::Sp.id_spec() || i == RegisterVariant::Fp.id_spec() {
                0xfffeu16
            } else {
                0u16
            },
    )
}

/// A call that changes the machine and yields a value either matches the
/// expected successful outcome exactly, or fails with the expected fault.
pub open spec fn outcome<T>(expected: Result<(CpuModel, T), Fault>, r: Result<T, Fault>, after: CpuModel) -> bool {
    match expected {
        Ok((s, v)) => r == Ok::<T, Fault>(v) && after == s,
        Err(e) => r == Err::<T, Fault>(e),
    }
}

/// As `outcome`, for a call that yields no value.
pub open spec fn state_outcome(expected: Result<CpuModel, Fault>, r: Result<(), Fault>, after: CpuModel) -> bool {
    match expected {
        Ok(s) => r is Ok && after == s,
        Err(e) => r == Err::<(), Fault>(e),
    }
}

/// The byte at `Ip`; `Ip` moves past it.
pub open spec fn fetch8(s: CpuModel) -> Result<(CpuModel, u8), Fault> {
    let ip = s.reg(RegisterVariant::Ip);
    let s1 = s.with_reg(RegisterVariant::Ip, ip.wrapping_add(1));
    match mapped_read8(s1.regions, ip) {
        Ok(b) => Ok((s1, b)),
        Err(e) => Err(e),
    }
}

/// The word at `Ip`; `Ip` moves past it.
pub open spec fn fetch16(s: CpuModel) -> Result<(CpuModel, u16), Fault> {
    let ip = s.reg(RegisterVariant::Ip);
    let s1 = s.with_reg(RegisterVariant::Ip, ip.wrapping_add(2));
    match mapped_read16(s1.regions, ip) {
        Ok(v) => Ok((s1, v)),
        Err(e) => Err(e),
    }
}

/// The register named by the byte at `Ip`.
pub open spec fn fetch_register(s: CpuModel) -> Result<(CpuModel, RegisterVariant), Fault> {
    match fetch8(s) {
        Ok((s1, b)) => match register_of(b) {
            Some(r) => Ok((s1, r)),
            None => Err(Fault::UnknownRegister(b)),
        },
        Err(e) => Err(e),
    }
}

/// The value of the register named by the byte at `Ip`, read once `Ip` has moved past it.
pub open spec fn fetch_register_value(s: CpuModel) -> Result<(CpuModel, u16), Fault> {
    match fetch_register(s) {
        Ok((s1, r)) => Ok((s1, s1.reg(r))),
        Err(e) => Err(e),
    }
}

/// The machine after storing `v` at `addr` through the address space.
pub open spec fn store16(s: CpuModel, addr: Addr, v: u16) -> Result<CpuModel, Fault> {
    match mapped_write16(s.regions, addr, v) {
        Ok(rs) => Ok(s.with_regions(rs)),
        Err(e) => Err(e),
    }
}

/// Pushing: the word goes to `Sp`, then `Sp` moves down one word and the frame grows by one word.
pub open spec fn push(s: CpuModel, v: u16) -> Result<CpuModel, Fault> {
    let sp = s.reg(RegisterVariant::Sp);
    match store16(s, sp, v) {
        Ok(s1) => Ok(
            s1.with_reg(RegisterVariant::Sp, sp.wrapping_sub(2)).with_frame_size(
                s1.frame_size.wrapping_add(2),
            ),
        ),
        Err(e) => Err(e),
    }
}

/// Popping: `Sp` moves up one word and the frame shrinks by one word, then the word at `Sp` is read.
pub open spec fn pop(s: CpuModel) -> Result<(CpuModel, u16), Fault> {
    let sp = s.reg(RegisterVariant::Sp).wrapping_add(2);
    let s1 = s.with_reg(RegisterVariant::Sp, sp).with_frame_size(s.frame_size.wrapping_sub(2));
    match mapped_read16(s1.regions, sp) {
        Ok(v) => Ok((s1, v)),
        Err(e) => Err(e),
    }
}

/// How a source operand is encoded: a literal word, or the id of a register
/// whose value is taken.
#[derive(Clone, Copy, Debug, PartialEq, Eq, Structural)]
pub enum Operand {
    Lit,
    Reg,
}

/// The two-operand operations whose result goes to `Acc`.
#[derive(Clone, Copy, Debug, PartialEq, Eq, Structural)]
pub enum AluOp {
    Add,
    Sub,
    Mul,
    And,
    Or,
    Xor,
}

/// The shifts, which write back to the shifted register.
#[derive(Clone, Copy, Debug, PartialEq, Eq, Structural)]
pub enum ShiftOp {
    Left,
    Right,
}

/// The one-register operations, which write back to that register.
#[derive(Clone, Copy, Debug, PartialEq, Eq, Structural)]
pub enum UnaryOp {
    Inc,
    Dec,
    Not,
}

/// The comparisons of a conditional jump: operand against `Acc`.
#[derive(Clone, Copy, Debug, PartialEq, Eq, Structural)]
pub enum Condition {
    NotEq,
    Eq,
    Lt,
    Gt,
    Lte,
    Gte,
}

/// Arithmetic wraps modulo 2^16.
pub open spec fn alu(op: AluOp, a: u16, b: u16) -> u16 {
    match op {
        AluOp::Add => a.wrapping_add(b),
        AluOp::Sub => a.wrapping_sub(b),
        AluOp::Mul => a.wrapping_mul(b),
        AluOp::And => a & b,
        AluOp::Or => a | b,
        AluOp::Xor => a ^ b,
    }
}

/// Shift amounts are taken modulo the word width.
pub open spec fn shift(op: ShiftOp, a: u16, b: u16) -> u16 {
    match op {
        ShiftOp::Left => a.wrapping_shl(b as u32),
        ShiftOp::Right => a.wrapping_shr(b as u32),
    }
}

/// Increment and decrement wrap modulo 2^16; `Not` flips every bit.
pub open spec fn unary(op: UnaryOp, a: u16) -> u16 {
    match op {
        UnaryOp::Inc => a.wrapping_add(1),
        UnaryOp::Dec => a.wrapping_sub(1),
        UnaryOp::Not => !a,
    }
}

/// Whether a conditional jump is taken.
pub open spec fn holds(c: Condition, v: u16, acc: u16) -> bool {
    match c {
        Condition::NotEq => v != acc,
        Condition::Eq => v == acc,
        Condition::Lt => v < acc,
        Condition::Gt => v > acc,
        Condition::Lte => v <= acc,
        Condition::Gte => v >= acc,
    }
}

/// A source operand fetched at `Ip`.
pub open spec fn fetch_operand(s: CpuModel, a: Operand) -> Result<(CpuModel, u16), Fault> {
    match a {
        Operand::Lit => fetch16(s),
        Operand::Reg => fetch_register_value(s),
    }
}

/// `op` of two source operands, into `Acc`.
pub open spec fn arith(s: CpuModel, op: AluOp, a: Operand, b: Operand) -> Result<CpuModel, Fault> {
    match fetch_operand(s, a) {
        Ok((s1, v1)) => match fetch_operand(s1, b) {
            Ok((s2, v2)) => Ok(s2.with_reg(RegisterVariant::Acc, alu(op, v1, v2))),
            Err(e) => Err(e),
        },
        Err(e) => Err(e),
    }
}

/// A register shifted by a source operand, back into the register.
pub open spec fn shift_reg(s: CpuModel, op: ShiftOp, b: Operand) -> Result<CpuModel, Fault> {
    match fetch_register(s) {
        Ok((s1, r)) => match fetch_operand(s1, b) {
            Ok((s2, v2)) => Ok(s2.with_reg(r, shift(op, s1.reg(r), v2))),
            Err(e) => Err(e),
        },
        Err(e) => Err(e),
    }
}

/// A register changed in place.
pub open spec fn unary_reg(s: CpuModel, op: UnaryOp) -> Result<CpuModel, Fault> {
    match fetch_register(s) {
        Ok((s1, r)) => Ok(s1.with_reg(r, unary(op, s1.reg(r)))),
        Err(e) => Err(e),
    }
}

/// A jump to the fetched address when the operand compares with `Acc` as `c` says.
pub open spec fn jump(s: CpuModel, c: Condition, a: Operand) -> Result<CpuModel, Fault> {
    match fetch_operand(s, a) {
        Ok((s1, v)) => match fetch16(s1) {
            Ok((s2, addr)) => if holds(c, v, s2.reg(RegisterVariant::Acc)) {
                Ok(s2.with_reg(RegisterVariant::Ip, addr))
            } else {
                Ok(s2)
            },
            Err(e) => Err(e),
        },
        Err(e) => Err(e),
    }
}

/// A source operand into the register named next.
pub open spec fn move_to_reg(s: CpuModel, a: Operand) -> Result<CpuModel, Fault> {
    match fetch_operand(s, a) {
        Ok((s1, v)) => match fetch_register(s1) {
            Ok((s2, r)) => Ok(s2.with_reg(r, v)),
            Err(e) => Err(e),
        },
        Err(e) => Err(e),
    }
}

/// A source operand into memory at the address fetched next.
pub open spec fn move_to_mem(s: CpuModel, a: Operand) -> Result<CpuModel, Fault> {
    match fetch_operand(s, a) {
        Ok((s1, v)) => match fetch16(s1) {
            Ok((s2, addr)) => store16(s2, addr, v),
            Err(e) => Err(e),
        },
        Err(e) => Err(e),
    }
}

/// The word at a literal address into the register named next.
pub open spec fn move_mem_reg(s: CpuModel) -> Result<CpuModel, Fault> {
    match fetch16(s) {
        Ok((s1, addr)) => match mapped_read16(s1.regions, addr) {
            Ok(v) => match fetch_register(s1) {
                Ok((s2, r)) => Ok(s2.with_reg(r, v)),
                Err(e) => Err(e),
            },
            Err(e) => Err(e),
        },
        Err(e) => Err(e),
    }
}

/// The word at the address held in a register into the register named next.
pub open spec fn move_ptr_reg(s: CpuModel) -> Result<CpuModel, Fault> {
    match fetch_register_value(s) {
        Ok((s1, addr)) => match fetch_register(s1) {
            Ok((s2, r)) => match mapped_read16(s2.regions, addr) {
                Ok(v) => Ok(s2.with_reg(r, v)),
                Err(e) => Err(e),
            },
            Err(e) => Err(e),
        },
        Err(e) => Err(e),
    }
}

/// The word at a literal address plus a register's value into the register named last.
pub open spec fn move_off_reg(s: CpuModel) -> Result<CpuModel, Fault> {
    match fetch16(s) {
        Ok((s1, base)) => match fetch_register_value(s1) {
            Ok((s2, offset)) => match fetch_register(s2) {
                Ok((s3, r)) => match mapped_read16(s3.regions, base.wrapping_add(offset)) {
                    Ok(v) => Ok(s3.with_reg(r, v)),
                    Err(e) => Err(e),
                },
                Err(e) => Err(e),
            },
            Err(e) => Err(e),
        },
        Err(e) => Err(e),
    }
}

/// A source operand pushed on the stack.
pub open spec fn push_operand(s: CpuModel, a: Operand) -> Result<CpuModel, Fault> {
    match fetch_operand(s, a) {
        Ok((s1, v)) => push(s1, v),
        Err(e) => Err(e),
    }
}

/// The top of the stack popped into the register named next.
pub open spec fn pop_reg(s: CpuModel) -> Result<CpuModel, Fault> {
    match fetch_register(s) {
        Ok((s1, r)) => match pop(s1) {
            Ok((s2, v)) => Ok(s2.with_reg(r, v)),
            Err(e) => Err(e),
        },
        Err(e) => Err(e),
    }
}

/// Pushes the current value of `reg` once `r` has succeeded.
pub open spec fn then_push(r: Result<CpuModel, Fault>, reg: RegisterVariant) -> Result<CpuModel, Fault> {
    match r {
        Ok(s) => push(s, s.reg(reg)),
        Err(e) => Err(e),
    }
}

/// Entering a call: push `R1` to `R8`, then `Ip`, then the frame size plus one
/// word; `Fp` then marks the new stack top and the callee's frame starts empty.
pub open spec fn push_state(s: CpuModel) -> Result<CpuModel, Fault> {
    let saved = then_push(
        then_push(
            then_push(
                then_push(
                    then_push(
                        then_push(
                            then_push(
                                then_push(then_push(Ok(s), RegisterVariant::R1), RegisterVariant::R2),
                                RegisterVariant::R3,
                            ),
                            RegisterVariant::R4,
                        ),
                        RegisterVariant::R5,
                    ),
                    RegisterVariant::R6,
                ),
                RegisterVariant::R7,
            ),
            RegisterVariant::R8,
        ),
        RegisterVariant::Ip,
    );
    match saved {
        Ok(s1) => match push(s1, s1.frame_size.wrapping_add(2)) {
            Ok(s2) => Ok(
                s2.with_reg(RegisterVariant::Fp, s2.reg(RegisterVariant::Sp)).with_frame_size(0),
            ),
            Err(e) => Err(e),
        },
        Err(e) => Err(e),
    }
}

/// `n` pops in a row, with the words in the order they came off the stack.
pub open spec fn pop_all(s: CpuModel, n: nat) -> Result<(CpuModel, Seq<u16>), Fault>
    decreases n,
{
    if n == 0 {
        Ok((s, Seq::empty()))
    } else {
        match pop_all(s, (n - 1) as nat) {
            Ok((s1, vs)) => match pop(s1) {
                Ok((s2, v)) => Ok((s2, vs.push(v))),
                Err(e) => Err(e),
            },
            Err(e) => Err(e),
        }
    }
}

/// The registers restored from the saved words `Ip`, `R8`, ..., `R1`.
pub open spec fn restore(s: CpuModel, saved: Seq<u16>) -> CpuModel {
    s.with_reg(RegisterVariant::Ip, saved[0]).with_reg(RegisterVariant::R8, saved[1]).with_reg(
        RegisterVariant::R7,
        saved[2],
    ).with_reg(RegisterVariant::R6, saved[3]).with_reg(RegisterVariant::R5, saved[4]).with_reg(
        RegisterVariant::R4,
        saved[5],
    ).with_reg(RegisterVariant::R3, saved[6]).with_reg(RegisterVariant::R2, saved[7]).with_reg(
        RegisterVariant::R1,
        saved[8],
    )
}

/// Returning: unwind `Sp` to `Fp`; pop the saved frame size, then `Ip` and
/// `R8` down to `R1`; pop an argument count and that many arguments; finally
/// `Fp` moves past the caller's frame by the saved frame size.
pub open spec fn pop_state(s: CpuModel) -> Result<CpuModel, Fault> {
    let fp = s.reg(RegisterVariant::Fp);
    match pop(s.with_reg(RegisterVariant::Sp, fp)) {
        Ok((s1, frame)) => match pop_all(s1.with_frame_size(frame), 9) {
            Ok((s2, saved)) => match pop(restore(s2, saved)) {
                Ok((s3, n_args)) => match pop_all(s3, n_args as nat) {
                    Ok((s4, _)) => Ok(s4.with_reg(RegisterVariant::Fp, fp.wrapping_add(frame))),
                    Err(e) => Err(e),
                },
                Err(e) => Err(e),
            },
            Err(e) => Err(e),
        },
        Err(e) => Err(e),
    }
}

/// A call to the address given by a source operand.
pub open spec fn call(s: CpuModel, a: Operand) -> Result<CpuModel, Fault> {
    match fetch_operand(s, a) {
        Ok((s1, target)) => match push_state(s1) {
            Ok(s2) => Ok(s2.with_reg(RegisterVariant::Ip, target)),
            Err(e) => Err(e),
        },
        Err(e) => Err(e),
    }
}

/// A completed instruction that does not halt the machine.
pub open spec fn proceed(r: Result<CpuModel, Fault>) -> Result<(CpuModel, bool), Fault> {
    match r {
        Ok(s) => Ok((s, false)),
        Err(e) => Err(e),
    }
}

/// The effect of an instruction whose opcode has been fetched: the new state,
/// and whether the machine halts.
pub open spec fn execute(s: CpuModel, v: InstructionVariant) -> Result<(CpuModel, bool), Fault> {
    match v {
        InstructionVariant::MoveLitReg => proceed(move_to_reg(s, Operand::Lit)),
        InstructionVariant::MoveRegReg => proceed(move_to_reg(s, Operand::Reg)),
        InstructionVariant::MoveRegMem => proceed(move_to_mem(s, Operand::Reg)),
        InstructionVariant::MoveMemReg => proceed(move_mem_reg(s)),
        InstructionVariant::MoveLitMem => proceed(move_to_mem(s, Operand::Lit)),
        InstructionVariant::MoveRegPtrReg => proceed(move_ptr_reg(s)),
        InstructionVariant::MoveLitOffReg => proceed(move_off_reg(s)),
        InstructionVariant::AddRegReg => proceed(arith(s, AluOp::Add, Operand::Reg, Operand::Reg)),
        InstructionVariant::AddLitReg => proceed(arith(s, AluOp::Add, Operand::Lit, Operand::Reg)),
        InstructionVariant::SubLitReg => proceed(arith(s, AluOp::Sub, Operand::Lit, Operand::Reg)),
        InstructionVariant::SubRegLit => proceed(arith(s, AluOp::Sub, Operand::Reg, Operand::Lit)),
        InstructionVariant::SubRegReg => proceed(arith(s, AluOp::Sub, Operand::Reg, Operand::Reg)),
        InstructionVariant::IncReg => proceed(unary_reg(s, UnaryOp::Inc)),
        InstructionVariant::DecReg => proceed(unary_reg(s, UnaryOp::Dec)),
        InstructionVariant::MulLitReg => proceed(arith(s, AluOp::Mul, Operand::Lit, Operand::Reg)),
        InstructionVariant::MulRegReg => proceed(arith(s, AluOp::Mul, Operand::Reg, Operand::Reg)),
        InstructionVariant::LeftShiftRegLit => proceed(shift_reg(s, ShiftOp::Left, Operand::Lit)),
        InstructionVariant::LeftShiftRegReg => proceed(shift_reg(s, ShiftOp::Left, Operand::Reg)),
        InstructionVariant::RightShiftRegLit => proceed(shift_reg(s, ShiftOp::Right, Operand::Lit)),
        InstructionVariant::RightShiftRegReg => proceed(shift_reg(s, ShiftOp::Right, Operand::Reg)),
        InstructionVariant::AndRegLit => proceed(arith(s, AluOp::And, Operand::Reg, Operand::Lit)),
        InstructionVariant::AndRegReg => proceed(arith(s, AluOp::And, Operand::Reg, Operand::Reg)),
        InstructionVariant::OrRegLit => proceed(arith(s, AluOp::Or, Operand::Reg, Operand::Lit)),
        InstructionVariant::OrRegReg => proceed(arith(s, AluOp::Or, Operand::Reg, Operand::Reg)),
        InstructionVariant::XorRegLit => proceed(arith(s, AluOp::Xor, Operand::Reg, Operand::Lit)),
        InstructionVariant::XorRegReg => proceed(arith(s, AluOp::Xor, Operand::Reg, Operand::Reg)),
        InstructionVariant::Not => proceed(unary_reg(s, UnaryOp::Not)),
        InstructionVariant::JumpNotEqReg => proceed(jump(s, Condition::NotEq, Operand::Reg)),
        InstructionVariant::JumpNotEqLit => proceed(jump(s, Condition::NotEq, Operand::Lit)),
        InstructionVariant::JumpEqReg => proceed(jump(s, Condition::Eq, Operand::Reg)),
        InstructionVariant::JumpEqLit => proceed(jump(s, Condition::Eq, Operand::Lit)),
        InstructionVariant::JumpLtReg => proceed(jump(s, Condition::Lt, Operand::Reg)),
        InstructionVariant::JumpLtLit => proceed(jump(s, Condition::Lt, Operand::Lit)),
        InstructionVariant::JumpGtReg => proceed(jump(s, Condition::Gt, Operand::Reg)),
        InstructionVariant::JumpGtLit => proceed(jump(s, Condition::Gt, Operand::Lit)),
        InstructionVariant::JumpLteReg => proceed(jump(s, Condition::Lte, Operand::Reg)),
        InstructionVariant::JumpLteLit => proceed(jump(s, Condition::Lte, Operand::Lit)),
        InstructionVariant::JumpGteReg => proceed(jump(s, Condition::Gte, Operand::Reg)),
        InstructionVariant::JumpGteLit => proceed(jump(s, Condition::Gte, Operand::Lit)),
        InstructionVariant::PushLit => proceed(push_operand(s, Operand::Lit)),
        InstructionVariant::PushReg => proceed(push_operand(s, Operand::Reg)),
        InstructionVariant::Pop => proceed(pop_reg(s)),
        InstructionVariant::CallLit => proceed(call(s, Operand::Lit)),
        InstructionVariant::CallReg => proceed(call(s, Operand::Reg)),
        InstructionVariant::Ret => proceed(pop_state(s)),
        InstructionVariant::Halt => Ok((s, true)),
    }
}

/// One fetch-decode-execute cycle.
pub open spec fn step(s: CpuModel) -> Result<(CpuModel, bool), Fault> {
    match fetch8(s) {
        Ok((s1, b)) => match instruction_of(b) {
            Some(v) => execute(s1, v),
            None => Err(Fault::UnknownOpcode(b)),
        },
        Err(e) => Err(e),
    }
}

/// Up to `n` cycles, stopping early at `Halt`: the final state, and whether it halted.
pub open spec fn run_steps(s: CpuModel, n: nat) -> Result<(CpuModel, bool), Fault>
    decreases n,
{
    if n == 0 {
        Ok((s, false))
    } else {
        match step(s) {
            Ok((s1, true)) => Ok((s1, true)),
            Ok((s1, false)) => run_steps(s1, (n - 1) as nat),
            Err(e) => Err(e),
        }
    }
}

/// `Halt` stops the machine at once: a run of any positive length from a state
/// whose next opcode is `Halt` ends halted, with only `Ip` moved past the opcode.
pub proof fn lemma_halt_stops_run(s: CpuModel, n: nat)
    requires
        s.regs.len() == REGISTER_COUNT,
        mapped_read8(s.regions, s.reg(RegisterVariant::Ip)) == Ok::<u8, Fault>(crate::instructions::constants::HLT),
        n > 0,
    ensures
        run_steps(s, n) == Ok::<(CpuModel, bool), Fault>(
            (s.with_reg(RegisterVariant::Ip, s.reg(RegisterVariant::Ip).wrapping_add(1)), true),
        ),
        forall|r: RegisterVariant| r != RegisterVariant::Ip ==> #[trigger] run_steps(s, n)->Ok_0.0.reg(r) == s.reg(r),
        run_steps(s, n)->Ok_0.0.regions == s.regions,
        run_steps(s, n)->Ok_0.0.frame_size == s.frame_size,
{
    let s1 = s.with_reg(RegisterVariant::Ip, s.reg(RegisterVariant::Ip).wrapping_add(1));
    assert(fetch8(s) == Ok::<(CpuModel, u8), Fault>((s1, crate::instructions::constants::HLT)));
    assert(instruction_of(crate::instructions::constants::HLT) == Some(InstructionVariant::Halt));
    assert forall|r: RegisterVariant| r != RegisterVariant::Ip implies #[trigger] s1.reg(r) == s.reg(r) by {
        crate::registers::lemma_register_id_round_trip(r, 0);
        if r.id_spec() == RegisterVariant::Ip.id_spec() {
            crate::registers::lemma_register_id_round_trip(RegisterVariant::Ip, 0);
        }
    }
}

/// `vs` pushed in order, first element first.
pub open spec fn push_all(s: CpuModel, vs: Seq<u16>) -> Result<CpuModel, Fault>
    decreases vs.len(),
{
    if vs.len() == 0 {
        Ok(s)
    } else {
        match push_all(s, vs.drop_last()) {
            Ok(s1) => push(s1, vs.last()),
            Err(e) => Err(e),
        }
    }
}

/// The address of the `k`-th word pushed from a stack pointer `sp`, the
/// address space wrapping around below zero.
pub open spec fn stack_slot(sp: u16, k: int) -> u16 {
    if sp - 2 * k >= 0 {
        (sp - 2 * k) as u16
    } else {
        (sp - 2 * k + 0x10000) as u16
    }
}

/// What a run of pushes leaves behind: `Sp` below the words, and each word readable in its slot.
proof fn lemma_push_all_facts(s: CpuModel, vs: Seq<u16>)
    requires
        s.regs.len() == REGISTER_COUNT,
        vs.len() <= 0x8000,
        push_all(s, vs) is Ok,
        forall|k: int| 0 <= k < vs.len() ==> flat_at(s.regions, #[trigger] stack_slot(s.reg(RegisterVariant::Sp), k) as int),
    ensures
        push_all(s, vs)->Ok_0.regs.len() == REGISTER_COUNT,
        push_all(s, vs)->Ok_0.reg(RegisterVariant::Sp) == stack_slot(s.reg(RegisterVariant::Sp), vs.len() as int),
        same_layout(s.regions, push_all(s, vs)->Ok_0.regions),
        forall|k: int| 0 <= k < vs.len() ==> mapped_read16(push_all(s, vs)->Ok_0.regions, #[trigger] stack_slot(s.reg(RegisterVariant::Sp), k)) == Ok::<u16, Fault>(vs[k]),
    decreases vs.len(),
{
    let sp0 = s.reg(RegisterVariant::Sp);
    let n = vs.len() as int;
    if n > 0 {
        let p = vs.drop_last();
        assert forall|k: int| 0 <= k < p.len() implies flat_at(s.regions, #[trigger] stack_slot(sp0, k) as int) by {
            assert(stack_slot(sp0, k) == stack_slot(sp0, k));
        }
        lemma_push_all_facts(s, p);
        let t1 = push_all(s, p)->Ok_0;
        let a = t1.reg(RegisterVariant::Sp);
        let v = vs.last();
        assert(a == stack_slot(sp0, n - 1));
        lemma_store_keeps_layout(t1.regions, a, v);
        let rs2 = mapped_write16(t1.regions, a, v)->Ok_0;
        let t = push_all(s, vs)->Ok_0;
        assert(t.regions == rs2);
        assert(flat_at(s.regions, stack_slot(sp0, n - 1) as int));
        lemma_same_layout_index(s.regions, t1.regions, a as int);
        lemma_store_then_load(t1.regions, a, v);
        assert forall|j: int| 0 <= j < s.regions.len() implies (#[trigger] s.regions[j]).range == rs2[j].range && (s.regions[j].device is Flat <==> rs2[j].device is Flat) by {
            assert(s.regions[j].range == t1.regions[j].range);
            assert(t1.regions[j].range == rs2[j].range);
        }
        assert forall|k: int| 0 <= k < n implies mapped_read16(t.regions, #[trigger] stack_slot(sp0, k)) == Ok::<u16, Fault>(vs[k]) by {
            if k < n - 1 {
                assert(mapped_read16(t1.regions, stack_slot(sp0, k)) == Ok::<u16, Fault>(p[k]));
                lemma_store_keeps_other(t1.regions, a, v, stack_slot(sp0, k));
            }
        }
    }
}

/// Popping `m` of the words that a run of pushes left: they come back last first,
/// `Sp` climbs back one word per pop, and memory is untouched.
proof fn lemma_pop_all_facts(t: CpuModel, vs: Seq<u16>, sp0: u16, m: nat)
    requires
        t.regs.len() == REGISTER_COUNT,
        vs.len() <= 0x8000,
        t.reg(RegisterVariant::Sp) == stack_slot(sp0, vs.len() as int),
        forall|k: int| 0 <= k < vs.len() ==> mapped_read16(t.regions, #[trigger] stack_slot(sp0, k)) == Ok::<u16, Fault>(vs[k]),
        m <= vs.len(),
    ensures
        pop_all(t, m) is Ok,
        pop_all(t, m)->Ok_0.0.regs.len() == REGISTER_COUNT,
        pop_all(t, m)->Ok_0.0.reg(RegisterVariant::Sp) == stack_slot(sp0, vs.len() - m),
        pop_all(t, m)->Ok_0.0.regions == t.regions,
        pop_all(t, m)->Ok_0.1.len() == m,
        forall|i: int| 0 <= i < m ==> #[trigger] pop_all(t, m)->Ok_0.1[i] == vs[vs.len() - 1 - i],
    decreases m,
{
    if m > 0 {
        lemma_pop_all_facts(t, vs, sp0, (m - 1) as nat);
        let k = vs.len() - m;
        assert(mapped_read16(t.regions, stack_slot(sp0, k)) == Ok::<u16, Fault>(vs[k]));
    }
}

/// Stack discipline: pushing the words of `vs` (no more than the address space
/// holds) onto a stack whose slots are flat memory, then popping as many, gives
/// them back last first, and `Sp` returns to where it was.
pub proof fn lemma_stack_discipline(s: CpuModel, vs: Seq<u16>)
    requires
        s.regs.len() == REGISTER_COUNT,
        vs.len() <= 0x8000,
        push_all(s, vs) is Ok,
        forall|k: int| 0 <= k < vs.len() ==> flat_at(s.regions, #[trigger] stack_slot(s.reg(RegisterVariant::Sp), k) as int),
    ensures
        pop_all(push_all(s, vs)->Ok_0, vs.len()) is Ok,
        pop_all(push_all(s, vs)->Ok_0, vs.len())->Ok_0.1 == vs.reverse(),
        pop_all(push_all(s, vs)->Ok_0, vs.len())->Ok_0.0.reg(RegisterVariant::Sp) == s.reg(RegisterVariant::Sp),
{
    lemma_push_all_facts(s, vs);
    let t = push_all(s, vs)->Ok_0;
    lemma_pop_all_facts(t, vs, s.reg(RegisterVariant::Sp), vs.len());
    assert(pop_all(t, vs.len())->Ok_0.1 =~= vs.reverse());
}

/// Distinct registers have distinct ids.
proof fn lemma_ids_distinct(r1: RegisterVariant, r2: RegisterVariant)
    ensures
        r1 != r2 ==> r1.id_spec() != r2.id_spec(),
{
    crate::registers::lemma_register_id_round_trip(r1, 0);
    crate::registers::lemma_register_id_round_trip(r2, 0);
}

/// Pushes change no register but `Sp`.
proof fn lemma_push_all_keeps_regs(s: CpuModel, ws: Seq<u16>)
    requires
        s.regs.len() == REGISTER_COUNT,
        push_all(s, ws) is Ok,
    ensures
        push_all(s, ws)->Ok_0.regs.len() == REGISTER_COUNT,
        forall|r: RegisterVariant| r != RegisterVariant::Sp ==> #[trigger] push_all(s, ws)->Ok_0.reg(r) == s.reg(r),
    decreases ws.len(),
{
    if ws.len() > 0 {
        lemma_push_all_keeps_regs(s, ws.drop_last());
        assert forall|r: RegisterVariant| r != RegisterVariant::Sp implies #[trigger] push_all(s, ws)->Ok_0.reg(r) == s.reg(r) by {
            lemma_ids_distinct(r, RegisterVariant::Sp);
            assert(push_all(s, ws.drop_last())->Ok_0.reg(r) == s.reg(r));
        }
    }
}

/// Pops change no register but `Sp`.
proof fn lemma_pop_all_keeps_regs(s: CpuModel, n: nat)
    requires
        s.regs.len() == REGISTER_COUNT,
        pop_all(s, n) is Ok,
    ensures
        pop_all(s, n)->Ok_0.0.regs.len() == REGISTER_COUNT,
        forall|r: RegisterVariant| r != RegisterVariant::Sp ==> #[trigger] pop_all(s, n)->Ok_0.0.reg(r) == s.reg(r),
    decreases n,
{
    if n > 0 {
        lemma_pop_all_keeps_regs(s, (n - 1) as nat);
        assert forall|r: RegisterVariant| r != RegisterVariant::Sp implies #[trigger] pop_all(s, n)->Ok_0.0.reg(r) == s.reg(r) by {
            lemma_ids_distinct(r, RegisterVariant::Sp);
            assert(pop_all(s, (n - 1) as nat)->Ok_0.0.reg(r) == s.reg(r));
        }
    }
}

/// Pushing one more register's current value extends a run of pushes.
proof fn lemma_then_push_extends(s: CpuModel, ws: Seq<u16>, reg: RegisterVariant)
    requires
        s.regs.len() == REGISTER_COUNT,
        reg != RegisterVariant::Sp,
    ensures
        then_push(push_all(s, ws), reg) == push_all(s, ws.push(s.reg(reg))),
{
    assert(ws.push(s.reg(reg)).drop_last() =~= ws);
    if push_all(s, ws) is Ok {
        lemma_push_all_keeps_regs(s, ws);
    }
}

/// The words that entering a call saves: `R1` to `R8`, then `Ip`.
pub open spec fn saved_words(s: CpuModel) -> Seq<u16> {
    seq![
        s.reg(RegisterVariant::R1),
        s.reg(RegisterVariant::R2),
        s.reg(RegisterVariant::R3),
        s.reg(RegisterVariant::R4),
        s.reg(RegisterVariant::R5),
        s.reg(RegisterVariant::R6),
        s.reg(RegisterVariant::R7),
        s.reg(RegisterVariant::R8),
        s.reg(RegisterVariant::Ip),
    ]
}

/// Entering a call is a run of ten pushes: the saved words, then the frame word.
proof fn lemma_push_state_is_push_all(s: CpuModel)
    requires
        s.regs.len() == REGISTER_COUNT,
    ensures
        ({
            let saved = push_all(s, saved_words(s));
            push_state(s) == match saved {
                Ok(s9) => match push_all(s, saved_words(s).push(s9.frame_size.wrapping_add(2))) {
                    Ok(t) => Ok(t.with_reg(RegisterVariant::Fp, t.reg(RegisterVariant::Sp)).with_frame_size(0)),
                    Err(e) => Err(e),
                },
                Err(e) => Err(e),
            }
        }),
{
    let w = saved_words(s);
    let e = Seq::<u16>::empty();
    assert(push_all(s, e) == Ok::<CpuModel, Fault>(s));
    let w1 = e.push(s.reg(RegisterVariant::R1));
    lemma_then_push_extends(s, e, RegisterVariant::R1);
    let w2 = w1.push(s.reg(RegisterVariant::R2));
    lemma_then_push_extends(s, w1, RegisterVariant::R2);
    let w3 = w2.push(s.reg(RegisterVariant::R3));
    lemma_then_push_extends(s, w2, RegisterVariant::R3);
    let w4 = w3.push(s.reg(RegisterVariant::R4));
    lemma_then_push_extends(s, w3, RegisterVariant::R4);
    let w5 = w4.push(s.reg(RegisterVariant::R5));
    lemma_then_push_extends(s, w4, RegisterVariant::R5);
    let w6 = w5.push(s.reg(RegisterVariant::R6));
    lemma_then_push_extends(s, w5, RegisterVariant::R6);
    let w7 = w6.push(s.reg(RegisterVariant::R7));
    lemma_then_push_extends(s, w6, RegisterVariant::R7);
    let w8 = w7.push(s.reg(RegisterVariant::R8));
    lemma_then_push_extends(s, w7, RegisterVariant::R8);
    let w9 = w8.push(s.reg(RegisterVariant::Ip));
    lemma_then_push_extends(s, w8, RegisterVariant::Ip);
    assert(w9 =~= w);
    if push_all(s, w) is Ok {
        let s9 = push_all(s, w)->Ok_0;
        assert(w.push(s9.frame_size.wrapping_add(2)).drop_last() =~= w);
    }
}

/// Call and return keep the caller's registers: when entering a call succeeds
/// with the frame in flat memory below `Sp`, and the callee, whatever it does to
/// the registers, leaves `Fp` and the saved frame as the call left them, then
/// returning gives back the caller's `R1` to `R8` and its return address in `Ip`.
pub proof fn lemma_call_return_keeps_registers(s: CpuModel, callee: CpuModel)
    requires
        s.regs.len() == REGISTER_COUNT,
        callee.regs.len() == REGISTER_COUNT,
        push_state(s) is Ok,
        forall|k: int| 0 <= k < 10 ==> flat_at(s.regions, #[trigger] stack_slot(s.reg(RegisterVariant::Sp), k) as int),
        callee.reg(RegisterVariant::Fp) == push_state(s)->Ok_0.reg(RegisterVariant::Fp),
        forall|k: int| 0 <= k < 10 ==> mapped_read16(callee.regions, #[trigger] stack_slot(s.reg(RegisterVariant::Sp), k)) == mapped_read16(push_state(s)->Ok_0.regions, stack_slot(s.reg(RegisterVariant::Sp), k)),
        pop_state(callee) is Ok,
    ensures
        pop_state(callee)->Ok_0.reg(RegisterVariant::R1) == s.reg(RegisterVariant::R1),
        pop_state(callee)->Ok_0.reg(RegisterVariant::R2) == s.reg(RegisterVariant::R2),
        pop_state(callee)->Ok_0.reg(RegisterVariant::R3) == s.reg(RegisterVariant::R3),
        pop_state(callee)->Ok_0.reg(RegisterVariant::R4) == s.reg(RegisterVariant::R4),
        pop_state(callee)->Ok_0.reg(RegisterVariant::R5) == s.reg(RegisterVariant::R5),
        pop_state(callee)->Ok_0.reg(RegisterVariant::R6) == s.reg(RegisterVariant::R6),
        pop_state(callee)->Ok_0.reg(RegisterVariant::R7) == s.reg(RegisterVariant::R7),
        pop_state(callee)->Ok_0.reg(RegisterVariant::R8) == s.reg(RegisterVariant::R8),
        pop_state(callee)->Ok_0.reg(RegisterVariant::Ip) == s.reg(RegisterVariant::Ip),
{
    let sp0 = s.reg(RegisterVariant::Sp);
    let w = saved_words(s);
    lemma_push_state_is_push_all(s);
    let s9 = push_all(s, w)->Ok_0;
    let f = s9.frame_size.wrapping_add(2);
    let w10 = w.push(f);
    lemma_push_all_facts(s, w10);
    let t = push_all(s, w10)->Ok_0;
    let s1 = push_state(s)->Ok_0;
    assert(s1.regions == t.regions);
    // Unwinding: `Sp` goes to `Fp`, the frame word comes off, then the nine saved words.
    let fp = callee.reg(RegisterVariant::Fp);
    assert(fp == stack_slot(sp0, 10));
    let u0 = callee.with_reg(RegisterVariant::Sp, fp);
    assert(stack_slot(sp0, 9) == fp.wrapping_add(2));
    assert(mapped_read16(callee.regions, stack_slot(sp0, 9)) == Ok::<u16, Fault>(f));
    let u1 = pop(u0)->Ok_0.0.with_frame_size(f);
    assert(pop(u0)->Ok_0.1 == f);
    assert forall|k: int| 0 <= k < 9 implies mapped_read16(u1.regions, #[trigger] stack_slot(sp0, k)) == Ok::<u16, Fault>(w[k]) by {
        assert(mapped_read16(t.regions, stack_slot(sp0, k)) == Ok::<u16, Fault>(w10[k]));
    }
    lemma_pop_all_facts(u1, w, sp0, 9);
    let u2 = pop_all(u1, 9)->Ok_0.0;
    let vals = pop_all(u1, 9)->Ok_0.1;
    let u3 = restore(u2, vals);
    assert(u3.regs.len() == REGISTER_COUNT);
    let u4 = pop(u3)->Ok_0.0;
    let n_args = pop(u3)->Ok_0.1;
    lemma_pop_all_keeps_regs(u4, n_args as nat);
    let u5 = pop_all(u4, n_args as nat)->Ok_0.0;
    assert forall|r: RegisterVariant| r != RegisterVariant::Sp && r != RegisterVariant::Fp implies #[trigger] pop_state(callee)->Ok_0.reg(r) == u3.reg(r) by {
        lemma_ids_distinct(r, RegisterVariant::Sp);
        lemma_ids_distinct(r, RegisterVariant::Fp);
        assert(u4.reg(r) == u3.reg(r));
        assert(u5.reg(r) == u4.reg(r));
    }
    assert(vals[0] == w[8]);
    assert(vals[1] == w[7]);
    assert(vals[8] == w[0]);
    assert(pop_state(callee)->Ok_0.reg(RegisterVariant::R1) == u3.reg(RegisterVariant::R1));
    assert(pop_state(callee)->Ok_0.reg(RegisterVariant::R2) == u3.reg(RegisterVariant::R2));
    assert(pop_state(callee)->Ok_0.reg(RegisterVariant::R3) == u3.reg(RegisterVariant::R3));
    assert(pop_state(callee)->Ok_0.reg(RegisterVariant::R4) == u3.reg(RegisterVariant::R4));
    assert(pop_state(callee)->Ok_0.reg(RegisterVariant::R5) == u3.reg(RegisterVariant::R5));
    assert(pop_state(callee)->Ok_0.reg(RegisterVariant::R6) == u3.reg(RegisterVariant::R6));
    assert(pop_state(callee)->Ok_0.reg(RegisterVariant::R7) == u3.reg(RegisterVariant::R7));
    assert(pop_state(callee)->Ok_0.reg(RegisterVariant::R8) == u3.reg(RegisterVariant::R8));
    assert(pop_state(callee)->Ok_0.reg(RegisterVariant::Ip) == u3.reg(RegisterVariant::Ip));
}

/// A successful run of `n` pops yields `n` words.
pub proof fn lemma_pop_all_len(s: CpuModel, n: nat)
    ensures
        pop_all(s, n) is Ok ==> pop_all(s, n)->Ok_0.1.len() == n,
    decreases n,
{
    if n > 0 {
        lemma_pop_all_len(s, (n - 1) as nat);
    }
}

/// Once some pops in a row fail, any longer run of pops fails the same way.
pub proof fn lemma_pop_all_fails(s: CpuModel, k: nat, n: nat, e: Fault)
    requires
        k <= n,
        pop_all(s, k) == Err::<(CpuModel, Seq<u16>), Fault>(e),
    ensures
        pop_all(s, n) == Err::<(CpuModel, Seq<u16>), Fault>(e),
    decreases n,
{
    if k < n {
        lemma_pop_all_fails(s, k, (n - 1) as nat, e);
    }
}

/// A register file of twelve well-formed registers holding `values`, by id.
pub open spec fn registers_hold(regs: Seq<Register>, values: Seq<u16>) -> bool {
    &&& regs.len() == REGISTER_COUNT
    &&& values.len() == REGISTER_COUNT
    &&& forall|i: int| 0 <= i < REGISTER_COUNT ==> (#[trigger] regs[i]).wf() && regs[i].value() == values[i]
}

/// The machine: a register file, a frame-size counter and an address space.
#[derive(Debug)]
pub struct Cpu {
    frame_size: Short,
    mapper: MemoryMapper,
    registers: Vec<Register>,
}

impl View for Cpu {
    type V = CpuModel;

    closed spec fn view(&self) -> CpuModel {
        CpuModel {
            regs: Seq::new(REGISTER_COUNT as nat, |i: int| self.registers@[i].value()),
            frame_size: self.frame_size,
            regions: self.mapper@,
        }
    }
}

impl Cpu {
    /// The register file is complete and every register has its two bytes.
    pub closed spec fn wf(&self) -> bool {
        &&& self.registers@.len() == REGISTER_COUNT
        &&& forall|i: int| 0 <= i < REGISTER_COUNT ==> (#[trigger] self.registers@[i]).wf()
    }

    fn create_registers() -> (r: Vec<Register>)
        ensures
            registers_hold(r@, initial_regs()),
    {
        let mut registers: Vec<Register> = Vec::new();
        let mut i: usize = 0;
        while i < REGISTER_COUNT
            invariant
                i <= REGISTER_COUNT,
                registers@.len() == i,
                forall|j: int| 0 <= j < i ==> (#[trigger] registers@[j]).wf() && registers@[j].value() == initial_regs()[j],
            decreases REGISTER_COUNT - i,
        {
            let mut register = Register::new();
            if i == RegisterVariant::Sp.id() as usize || i == RegisterVariant::Fp.id() as usize {
                register.set(0xffff - 1);
            }
            registers.push(register);
            i = i + 1;
        }
        registers
    }

    /// A machine whose address space is one region holding `memory` over its range.
    pub fn from(memory: Memory) -> (cpu: Cpu)
        ensures
            cpu.wf(),
            cpu@.regs == initial_regs(),
            cpu@.frame_size == 0,
            cpu@.regions.len() == 1,
            cpu@.regions[0].device == DeviceModel::Flat(memory@),
            cpu@.regions[0].range.start == 0,
            cpu@.regions[0].range.end == memory@.len(),
            !cpu@.regions[0].range.exhausted,
    {
        let mut mm = MemoryMapper::new();
        let range = memory.get_range();
        let ghost contents = memory@;
        let builder = MemoryRegion::builder().range(range).device(AnyDevice::Memory(memory));
        assert(crate::memory::range_covers(builder.range_spec().unwrap()@, 0));
        if let Ok(region) = builder.finalize() {
            assert(region@.device == DeviceModel::Flat(contents));
            mm.add_region(region);
        }
        Cpu::from_mapper(mm)
    }

    /// A machine over a prepared address space.
    pub fn from_mapper(mapper: MemoryMapper) -> (cpu: Cpu)
        ensures
            cpu.wf(),
            cpu@.regs == initial_regs(),
            cpu@.frame_size == 0,
            cpu@.regions == mapper@,
    {
        let registers = Cpu::create_registers();
        let cpu = Cpu { frame_size: 0, mapper, registers };
        assert(cpu@.regs =~= initial_regs());
        cpu
    }

    /// The address space.
    pub fn mapper(&self) -> (r: &MemoryMapper)
        ensures
            r@ == self@.regions,
    {
        &self.mapper
    }

    /// The address space, to be changed in place (for instance to collect a
    /// peripheral's output); the registers and frame size stay as they are.
    pub fn mapper_mut(&mut self) -> (r: &mut MemoryMapper)
        ensures
            (*r)@ == old(self)@.regions,
            final(self)@ == old(self)@.with_regions((*final(r))@),
            final(self).wf() == old(self).wf(),
    {
        &mut self.mapper
    }

    /// The value of a register.
    pub fn get_register_val(&self, reg: RegisterVariant) -> (r: Short)
        requires
            self.wf(),
        ensures
            r == self@.reg(reg),
    {
        self.registers[reg.id() as usize].get()
    }

    /// Stores a value in a register.
    pub fn set_register_val(&mut self, reg: RegisterVariant, val: Short)
        requires
            old(self).wf(),
        ensures
            final(self).wf(),
            final(self)@ == old(self)@.with_reg(reg, val),
    {
        let i = reg.id() as usize;
        self.registers[i].set(val);
        assert(self@.regs =~= old(self)@.regs.update(i as int, val));
    }

    /// The byte at `addr` in the address space.
    pub fn get_u8(&self, addr: Addr) -> (r: Result<Byte, Fault>)
        ensures
            r == mapped_read8(self@.regions, addr),
    {
        self.mapper.get_u8(addr)
    }

    /// The word at `addr` in the address space.
    pub fn get_u16(&self, addr: Addr) -> (r: Result<Short, Fault>)
        ensures
            r == mapped_read16(self@.regions, addr),
    {
        self.mapper.get_u16(addr)
    }

    /// Stores a byte at `addr` in the address space.
    pub fn set_u8(&mut self, addr: Addr, val: Byte) -> (r: Result<(), Fault>)
        requires
            old(self).wf(),
        ensures
            final(self).wf(),
            final(self)@.regs == old(self)@.regs,
            final(self)@.frame_size == old(self)@.frame_size,
            mapped_outcome(old(self)@.regions, mapped_write8(old(self)@.regions, addr, val), r, final(self)@.regions),
    {
        self.mapper.set_u8(addr, val)
    }

    /// Stores a word at `addr` in the address space.
    pub fn set_u16(&mut self, addr: Addr, val: Short) -> (r: Result<(), Fault>)
        requires
            old(self).wf(),
        ensures
            final(self).wf(),
            match store16(old(self)@, addr, val) {
                Ok(s) => r is Ok && final(self)@ == s,
                Err(e) => r == Err::<(), Fault>(e) && final(self)@ == old(self)@,
            },
    {
        let r = self.mapper.set_u16(addr, val);
        assert(self@.regs =~= old(self)@.regs);
        r
    }

    /// Reads the byte at `Ip` and moves `Ip` past it.
    pub fn fetch_u8(&mut self) -> (r: Result<Byte, Fault>)
        requires
            old(self).wf(),
        ensures
            final(self).wf(),
            outcome(fetch8(old(self)@), r, final(self)@),
    {
        let ip = self.get_register_val(RegisterVariant::Ip);
        self.set_register_val(RegisterVariant::Ip, ip.wrapping_add(1));
        self.get_u8(ip)
    }

    /// Reads the word at `Ip` and moves `Ip` past it.
    pub fn fetch_u16(&mut self) -> (r: Result<Short, Fault>)
        requires
            old(self).wf(),
        ensures
            final(self).wf(),
            outcome(fetch16(old(self)@), r, final(self)@),
    {
        let ip = self.get_register_val(RegisterVariant::Ip);
        self.set_register_val(RegisterVariant::Ip, ip.wrapping_add(2));
        self.get_u16(ip)
    }

    /// Reads a register id at `Ip` and moves `Ip` past it.
    fn fetch_register(&mut self) -> (r: Result<RegisterVariant, Fault>)
        requires
            old(self).wf(),
        ensures
            final(self).wf(),
            outcome(fetch_register(old(self)@), r, final(self)@),
    {
        match self.fetch_u8() {
            Ok(b) => RegisterVariant::from_byte(b),
            Err(e) => Err(e),
        }
    }

    /// Reads a register id at `Ip`, moves `Ip` past it, and gives that register's value.
    fn fetch_register_val(&mut self) -> (r: Result<Short, Fault>)
        requires
            old(self).wf(),
        ensures
            final(self).wf(),
            outcome(fetch_register_value(old(self)@), r, final(self)@),
    {
        match self.fetch_register() {
            Ok(reg) => Ok(self.get_register_val(reg)),
            Err(e) => Err(e),
        }
    }

    /// Pushes a word on the stack.
    fn stack_push(&mut self, val: Short) -> (r: Result<(), Fault>)
        requires
            old(self).wf(),
        ensures
            final(self).wf(),
            state_outcome(push(old(self)@, val), r, final(self)@),
    {
        let sp = self.get_register_val(RegisterVariant::Sp);
        match self.set_u16(sp, val) {
            Ok(()) => {
                self.set_register_val(RegisterVariant::Sp, sp.wrapping_sub(2));
                self.frame_size = self.frame_size.wrapping_add(2);
                Ok(())
            },
            Err(e) => Err(e),
        }
    }

    /// Pops a word off the stack.
    fn stack_pop(&mut self) -> (r: Result<Short, Fault>)
        requires
            old(self).wf(),
        ensures
            final(self).wf(),
            outcome(pop(old(self)@), r, final(self)@),
    {
        let sp = self.get_register_val(RegisterVariant::Sp).wrapping_add(2);
        self.set_register_val(RegisterVariant::Sp, sp);
        self.frame_size = self.frame_size.wrapping_sub(2);
        self.get_u16(sp)
    }

    /// Fetches a source operand.
    fn fetch_operand(&mut self, a: Operand) -> (r: Result<Short, Fault>)
        requires
            old(self).wf(),
        ensures
            final(self).wf(),
            outcome(fetch_operand(old(self)@, a), r, final(self)@),
    {
        match a {
            Operand::Lit => self.fetch_u16(),
            Operand::Reg => self.fetch_register_val(),
        }
    }

    fn exec_arith(&mut self, op: AluOp, a: Operand, b: Operand) -> (r: Result<(), Fault>)
        requires
            old(self).wf(),
        ensures
            final(self).wf(),
            state_outcome(arith(old(self)@, op, a, b), r, final(self)@),
    {
        let v1 = match self.fetch_operand(a) {
            Ok(v) => v,
            Err(e) => return Err(e),
        };
        let v2 = match self.fetch_operand(b) {
            Ok(v) => v,
            Err(e) => return Err(e),
        };
        let val = match op {
            AluOp::Add => v1.wrapping_add(v2),
            AluOp::Sub => v1.wrapping_sub(v2),
            AluOp::Mul => v1.wrapping_mul(v2),
            AluOp::And => v1 & v2,
            AluOp::Or => v1 | v2,
            AluOp::Xor => v1 ^ v2,
        };
        self.set_register_val(RegisterVariant::Acc, val);
        Ok(())
    }

    fn exec_shift(&mut self, op: ShiftOp, b: Operand) -> (r: Result<(), Fault>)
        requires
            old(self).wf(),
        ensures
            final(self).wf(),
            state_outcome(shift_reg(old(self)@, op, b), r, final(self)@),
    {
        let reg = match self.fetch_register() {
            Ok(reg) => reg,
            Err(e) => return Err(e),
        };
        let v1 = self.get_register_val(reg);
        let v2 = match self.fetch_operand(b) {
            Ok(v) => v,
            Err(e) => return Err(e),
        };
        let val = match op {
            ShiftOp::Left => v1.wrapping_shl(v2 as u32),
            ShiftOp::Right => v1.wrapping_shr(v2 as u32),
        };
        self.set_register_val(reg, val);
        Ok(())
    }

    fn exec_unary(&mut self, op: UnaryOp) -> (r: Result<(), Fault>)
        requires
            old(self).wf(),
        ensures
            final(self).wf(),
            state_outcome(unary_reg(old(self)@, op), r, final(self)@),
    {
        let reg = match self.fetch_register() {
            Ok(reg) => reg,
            Err(e) => return Err(e),
        };
        let v = self.get_register_val(reg);
        let val = match op {
            UnaryOp::Inc => v.wrapping_add(1),
            UnaryOp::Dec => v.wrapping_sub(1),
            UnaryOp::Not => !v,
        };
        self.set_register_val(reg, val);
        Ok(())
    }

    fn exec_jump(&mut self, c: Condition, a: Operand) -> (r: Result<(), Fault>)
        requires
            old(self).wf(),
        ensures
            final(self).wf(),
            state_outcome(jump(old(self)@, c, a), r, final(self)@),
    {
        let v = match self.fetch_operand(a) {
            Ok(v) => v,
            Err(e) => return Err(e),
        };
        let addr = match self.fetch_u16() {
            Ok(addr) => addr,
            Err(e) => return Err(e),
        };
        let acc = self.get_register_val(RegisterVariant::Acc);
        let taken = match c {
            Condition::NotEq => v != acc,
            Condition::Eq => v == acc,
            Condition::Lt => v < acc,
            Condition::Gt => v > acc,
            Condition::Lte => v <= acc,
            Condition::Gte => v >= acc,
        };
        if taken {
            self.set_register_val(RegisterVariant::Ip, addr);
        }
        Ok(())
    }

    fn exec_move_to_reg(&mut self, a: Operand) -> (r: Result<(), Fault>)
        requires
            old(self).wf(),
        ensures
            final(self).wf(),
            state_outcome(move_to_reg(old(self)@, a), r, final(self)@),
    {
        let v = match self.fetch_operand(a) {
            Ok(v) => v,
            Err(e) => return Err(e),
        };
        let reg = match self.fetch_register() {
            Ok(reg) => reg,
            Err(e) => return Err(e),
        };
        self.set_register_val(reg, v);
        Ok(())
    }

    fn exec_move_to_mem(&mut self, a: Operand) -> (r: Result<(), Fault>)
        requires
            old(self).wf(),
        ensures
            final(self).wf(),
            state_outcome(move_to_mem(old(self)@, a), r, final(self)@),
    {
        let v = match self.fetch_operand(a) {
            Ok(v) => v,
            Err(e) => return Err(e),
        };
        let addr = match self.fetch_u16() {
            Ok(addr) => addr,
            Err(e) => return Err(e),
        };
        self.set_u16(addr, v)
    }

    fn exec_move_mem_reg(&mut self) -> (r: Result<(), Fault>)
        requires
            old(self).wf(),
        ensures
            final(self).wf(),
            state_outcome(move_mem_reg(old(self)@), r, final(self)@),
    {
        let addr = match self.fetch_u16() {
            Ok(addr) => addr,
            Err(e) => return Err(e),
        };
        let v = match self.get_u16(addr) {
            Ok(v) => v,
            Err(e) => return Err(e),
        };
        let reg = match self.fetch_register() {
            Ok(reg) => reg,
            Err(e) => return Err(e),
        };
        self.set_register_val(reg, v);
        Ok(())
    }

    fn exec_move_ptr_reg(&mut self) -> (r: Result<(), Fault>)
        requires
            old(self).wf(),
        ensures
            final(self).wf(),
            state_outcome(move_ptr_reg(old(self)@), r, final(self)@),
    {
        let addr = match self.fetch_register_val() {
            Ok(addr) => addr,
            Err(e) => return Err(e),
        };
        let reg = match self.fetch_register() {
            Ok(reg) => reg,
            Err(e) => return Err(e),
        };
        let v = match self.get_u16(addr) {
            Ok(v) => v,
            Err(e) => return Err(e),
        };
        self.set_register_val(reg, v);
        Ok(())
    }

    fn exec_move_off_reg(&mut self) -> (r: Result<(), Fault>)
        requires
            old(self).wf(),
        ensures
            final(self).wf(),
            state_outcome(move_off_reg(old(self)@), r, final(self)@),
    {
        let base = match self.fetch_u16() {
            Ok(base) => base,
            Err(e) => return Err(e),
        };
        let offset = match self.fetch_register_val() {
            Ok(offset) => offset,
            Err(e) => return Err(e),
        };
        let reg = match self.fetch_register() {
            Ok(reg) => reg,
            Err(e) => return Err(e),
        };
        let v = match self.get_u16(base.wrapping_add(offset)) {
            Ok(v) => v,
            Err(e) => return Err(e),
        };
        self.set_register_val(reg, v);
        Ok(())
    }

    fn exec_push(&mut self, a: Operand) -> (r: Result<(), Fault>)
        requires
            old(self).wf(),
        ensures
            final(self).wf(),
            state_outcome(push_operand(old(self)@, a), r, final(self)@),
    {
        match self.fetch_operand(a) {
            Ok(v) => self.stack_push(v),
            Err(e) => Err(e),
        }
    }

    fn exec_pop(&mut self) -> (r: Result<(), Fault>)
        requires
            old(self).wf(),
        ensures
            final(self).wf(),
            state_outcome(pop_reg(old(self)@), r, final(self)@),
    {
        let reg = match self.fetch_register() {
            Ok(reg) => reg,
            Err(e) => return Err(e),
        };
        let v = match self.stack_pop() {
            Ok(v) => v,
            Err(e) => return Err(e),
        };
        self.set_register_val(reg, v);
        Ok(())
    }

    /// Pushes the current value of a register.
    fn push_register(&mut self, reg: RegisterVariant) -> (r: Result<(), Fault>)
        requires
            old(self).wf(),
        ensures
            final(self).wf(),
            state_outcome(then_push(Ok(old(self)@), reg), r, final(self)@),
    {
        let v = self.get_register_val(reg);
        self.stack_push(v)
    }

    /// Saves the caller's state on entering a call.
    fn stack_push_state(&mut self) -> (r: Result<(), Fault>)
        requires
            old(self).wf(),
        ensures
            final(self).wf(),
            state_outcome(push_state(old(self)@), r, final(self)@),
    {
        if let Err(e) = self.push_register(RegisterVariant::R1) {
            return Err(e);
        }
        if let Err(e) = self.push_register(RegisterVariant::R2) {
            return Err(e);
        }
        if let Err(e) = self.push_register(RegisterVariant::R3) {
            return Err(e);
        }
        if let Err(e) = self.push_register(RegisterVariant::R4) {
            return Err(e);
        }
        if let Err(e) = self.push_register(RegisterVariant::R5) {
            return Err(e);
        }
        if let Err(e) = self.push_register(RegisterVariant::R6) {
            return Err(e);
        }
        if let Err(e) = self.push_register(RegisterVariant::R7) {
            return Err(e);
        }
        if let Err(e) = self.push_register(RegisterVariant::R8) {
            return Err(e);
        }
        if let Err(e) = self.push_register(RegisterVariant::Ip) {
            return Err(e);
        }
        let frame = self.frame_size.wrapping_add(2);
        if let Err(e) = self.stack_push(frame) {
            return Err(e);
        }
        let sp = self.get_register_val(RegisterVariant::Sp);
        self.set_register_val(RegisterVariant::Fp, sp);
        self.frame_size = 0;
        Ok(())
    }

    /// Pops `n` words, in the order they come off the stack.
    fn stack_pop_many(&mut self, n: u16) -> (r: Result<Vec<Short>, Fault>)
        requires
            old(self).wf(),
        ensures
            final(self).wf(),
            match pop_all(old(self)@, n as nat) {
                Ok((s, vs)) => r is Ok && r->Ok_0@ == vs && final(self)@ == s,
                Err(e) => r == Err::<Vec<Short>, Fault>(e),
            },
    {
        let ghost s0 = self@;
        let mut vals: Vec<Short> = Vec::new();
        let mut k: u16 = 0;
        while k < n
            invariant
                self.wf(),
                k <= n,
                s0 == old(self)@,
                pop_all(s0, k as nat) == Ok::<(CpuModel, Seq<u16>), Fault>((self@, vals@)),
            decreases n - k,
        {
            match self.stack_pop() {
                Ok(v) => {
                    vals.push(v);
                },
                Err(e) => {
                    proof {
                        assert(pop_all(s0, (k + 1) as nat) == Err::<(CpuModel, Seq<u16>), Fault>(e));
                        lemma_pop_all_fails(s0, (k + 1) as nat, n as nat, e);
                    }
                    return Err(e);
                },
            }
            k = k + 1;
        }
        Ok(vals)
    }

    /// Restores the caller's state on return.
    fn stack_pop_state(&mut self) -> (r: Result<(), Fault>)
        requires
            old(self).wf(),
        ensures
            final(self).wf(),
            state_outcome(pop_state(old(self)@), r, final(self)@),
    {
        let fp = self.get_register_val(RegisterVariant::Fp);
        self.set_register_val(RegisterVariant::Sp, fp);
        let frame = match self.stack_pop() {
            Ok(v) => v,
            Err(e) => return Err(e),
        };
        self.frame_size = frame;
        let ghost s1 = self@;
        let saved = match self.stack_pop_many(9) {
            Ok(saved) => saved,
            Err(e) => return Err(e),
        };
        proof {
            lemma_pop_all_len(s1, 9);
        }
        self.set_register_val(RegisterVariant::Ip, saved[0]);
        self.set_register_val(RegisterVariant::R8, saved[1]);
        self.set_register_val(RegisterVariant::R7, saved[2]);
        self.set_register_val(RegisterVariant::R6, saved[3]);
        self.set_register_val(RegisterVariant::R5, saved[4]);
        self.set_register_val(RegisterVariant::R4, saved[5]);
        self.set_register_val(RegisterVariant::R3, saved[6]);
        self.set_register_val(RegisterVariant::R2, saved[7]);
        self.set_register_val(RegisterVariant::R1, saved[8]);
        let n_args = match self.stack_pop() {
            Ok(v) => v,
            Err(e) => return Err(e),
        };
        if let Err(e) = self.stack_pop_many(n_args) {
            return Err(e);
        }
        self.set_register_val(RegisterVariant::Fp, fp.wrapping_add(frame));
        Ok(())
    }

    fn exec_call(&mut self, a: Operand) -> (r: Result<(), Fault>)
        requires
            old(self).wf(),
        ensures
            final(self).wf(),
            state_outcome(call(old(self)@, a), r, final(self)@),
    {
        let target = match self.fetch_operand(a) {
            Ok(v) => v,
            Err(e) => return Err(e),
        };
        if let Err(e) = self.stack_push_state() {
            return Err(e);
        }
        self.set_register_val(RegisterVariant::Ip, target);
        Ok(())
    }

    /// The result of an instruction that does not halt the machine.
    fn continued(r: Result<(), Fault>) -> (o: Result<bool, Fault>)
        ensures
            match r {
                Ok(()) => o == Ok::<bool, Fault>(false),
                Err(e) => o == Err::<bool, Fault>(e),
            },
    {
        match r {
            Ok(()) => Ok(false),
            Err(e) => Err(e),
        }
    }

    /// Carries out an instruction whose opcode has been fetched; true when it is `Halt`.
    #[verifier::rlimit(50)]
    fn execute(&mut self, instruction: InstructionVariant) -> (r: Result<bool, Fault>)
        requires
            old(self).wf(),
        ensures
            final(self).wf(),
            outcome(execute(old(self)@, instruction), r, final(self)@),
    {
        match instruction {
            InstructionVariant::MoveLitReg => {
                let r = self.exec_move_to_reg(Operand::Lit);
                Cpu::continued(r)
            },
            InstructionVariant::MoveRegReg => {
                let r = self.exec_move_to_reg(Operand::Reg);
                Cpu::continued(r)
            },
            InstructionVariant::MoveRegMem => {
                let r = self.exec_move_to_mem(Operand::Reg);
                Cpu::continued(r)
            },
            InstructionVariant::MoveMemReg => {
                let r = self.exec_move_mem_reg();
                Cpu::continued(r)
            },
            InstructionVariant::MoveLitMem => {
                let r = self.exec_move_to_mem(Operand::Lit);
                Cpu::continued(r)
            },
            InstructionVariant::MoveRegPtrReg => {
                let r = self.exec_move_ptr_reg();
                Cpu::continued(r)
            },
            InstructionVariant::MoveLitOffReg => {
                let r = self.exec_move_off_reg();
                Cpu::continued(r)
            },
            InstructionVariant::AddRegReg => {
                let r = self.exec_arith(AluOp::Add, Operand::Reg, Operand::Reg);
                Cpu::continued(r)
            },
            InstructionVariant::AddLitReg => {
                let r = self.exec_arith(AluOp::Add, Operand::Lit, Operand::Reg);
                Cpu::continued(r)
            },
            InstructionVariant::SubLitReg => {
                let r = self.exec_arith(AluOp::Sub, Operand::Lit, Operand::Reg);
                Cpu::continued(r)
            },
            InstructionVariant::SubRegLit => {
                let r = self.exec_arith(AluOp::Sub, Operand::Reg, Operand::Lit);
                Cpu::continued(r)
            },
            InstructionVariant::SubRegReg => {
                let r = self.exec_arith(AluOp::Sub, Operand::Reg, Operand::Reg);
                Cpu::continued(r)
            },
            InstructionVariant::IncReg => {
                let r = self.exec_unary(UnaryOp::Inc);
                Cpu::continued(r)
            },
            InstructionVariant::DecReg => {
                let r = self.exec_unary(UnaryOp::Dec);
                Cpu::continued(r)
            },
            InstructionVariant::MulLitReg => {
                let r = self.exec_arith(AluOp::Mul, Operand::Lit, Operand::Reg);
                Cpu::continued(r)
            },
            InstructionVariant::MulRegReg => {
                let r = self.exec_arith(AluOp::Mul, Operand::Reg, Operand::Reg);
                Cpu::continued(r)
            },
            InstructionVariant::LeftShiftRegLit => {
                let r = self.exec_shift(ShiftOp::Left, Operand::Lit);
                Cpu::continued(r)
            },
            InstructionVariant::LeftShiftRegReg => {
                let r = self.exec_shift(ShiftOp::Left, Operand::Reg);
                Cpu::continued(r)
            },
            InstructionVariant::RightShiftRegLit => {
                let r = self.exec_shift(ShiftOp::Right, Operand::Lit);
                Cpu::continued(r)
            },
            InstructionVariant::RightShiftRegReg => {
                let r = self.exec_shift(ShiftOp::Right, Operand::Reg);
                Cpu::continued(r)
            },
            InstructionVariant::AndRegLit => {
                let r = self.exec_arith(AluOp::And, Operand::Reg, Operand::Lit);
                Cpu::continued(r)
            },
            InstructionVariant::AndRegReg => {
                let r = self.exec_arith(AluOp::And, Operand::Reg, Operand::Reg);
                Cpu::continued(r)
            },
            InstructionVariant::OrRegLit => {
                let r = self.exec_arith(AluOp::Or, Operand::Reg, Operand::Lit);
                Cpu::continued(r)
            },
            InstructionVariant::OrRegReg => {
                let r = self.exec_arith(AluOp::Or, Operand::Reg, Operand::Reg);
                Cpu::continued(r)
            },
            InstructionVariant::XorRegLit => {
                let r = self.exec_arith(AluOp::Xor, Operand::Reg, Operand::Lit);
                Cpu::continued(r)
            },
            InstructionVariant::XorRegReg => {
                let r = self.exec_arith(AluOp::Xor, Operand::Reg, Operand::Reg);
                Cpu::continued(r)
            },
            InstructionVariant::Not => {
                let r = self.exec_unary(UnaryOp::Not);
                Cpu::continued(r)
            },
            InstructionVariant::JumpNotEqReg => {
                let r = self.exec_jump(Condition::NotEq, Operand::Reg);
                Cpu::continued(r)
            },
            InstructionVariant::JumpNotEqLit => {
                let r = self.exec_jump(Condition::NotEq, Operand::Lit);
                Cpu::continued(r)
            },
            InstructionVariant::JumpEqReg => {
                let r = self.exec_jump(Condition::Eq, Operand::Reg);
                Cpu::continued(r)
            },
            InstructionVariant::JumpEqLit => {
                let r = self.exec_jump(Condition::Eq, Operand::Lit);
                Cpu::continued(r)
            },
            InstructionVariant::JumpLtReg => {
                let r = self.exec_jump(Condition::Lt, Operand::Reg);
                Cpu::continued(r)
            },
            InstructionVariant::JumpLtLit => {
                let r = self.exec_jump(Condition::Lt, Operand::Lit);
                Cpu::continued(r)
            },
            InstructionVariant::JumpGtReg => {
                let r = self.exec_jump(Condition::Gt, Operand::Reg);
                Cpu::continued(r)
            },
            InstructionVariant::JumpGtLit => {
                let r = self.exec_jump(Condition::Gt, Operand::Lit);
                Cpu::continued(r)
            },
            InstructionVariant::JumpLteReg => {
                let r = self.exec_jump(Condition::Lte, Operand::Reg);
                Cpu::continued(r)
            },
            InstructionVariant::JumpLteLit => {
                let r = self.exec_jump(Condition::Lte, Operand::Lit);
                Cpu::continued(r)
            },
            InstructionVariant::JumpGteReg => {
                let r = self.exec_jump(Condition::Gte, Operand::Reg);
                Cpu::continued(r)
            },
            InstructionVariant::JumpGteLit => {
                let r = self.exec_jump(Condition::Gte, Operand::Lit);
                Cpu::continued(r)
            },
            InstructionVariant::PushLit => {
                let r = self.exec_push(Operand::Lit);
                Cpu::continued(r)
            },
            InstructionVariant::PushReg => {
                let r = self.exec_push(Operand::Reg);
                Cpu::continued(r)
            },
            InstructionVariant::Pop => {
                let r = self.exec_pop();
                Cpu::continued(r)
            },
            InstructionVariant::CallLit => {
                let r = self.exec_call(Operand::Lit);
                Cpu::continued(r)
            },
            InstructionVariant::CallReg => {
                let r = self.exec_call(Operand::Reg);
                Cpu::continued(r)
            },
            InstructionVariant::Ret => {
                let r = self.stack_pop_state();
                Cpu::continued(r)
            },
            InstructionVariant::Halt => Ok(true),
        }
    }

    /// One fetch-decode-execute cycle; true when the machine halts.
    pub fn step(&mut self) -> (r: Result<bool, Fault>)
        requires
            old(self).wf(),
        ensures
            final(self).wf(),
            outcome(step(old(self)@), r, final(self)@),
    {
        let opcode = match self.fetch_u8() {
            Ok(b) => b,
            Err(e) => return Err(e),
        };
        match InstructionVariant::from_byte(opcode) {
            Ok(instruction) => self.execute(instruction),
            Err(e) => Err(e),
        }
    }

    /// Runs at most `max_steps` cycles, stopping early at `Halt`; true when it halted.
    pub fn run_for(&mut self, max_steps: u64) -> (r: Result<bool, Fault>)
        requires
            old(self).wf(),
        ensures
            final(self).wf(),
            outcome(run_steps(old(self)@, max_steps as nat), r, final(self)@),
    {
        let mut left: u64 = max_steps;
        while left > 0
            invariant
                self.wf(),
                left <= max_steps,
                run_steps(old(self)@, max_steps as nat) == run_steps(self@, left as nat),
            decreases left,
        {
            match self.step() {
                Ok(true) => return Ok(true),
                Ok(false) => {},
                Err(e) => return Err(e),
            }
            left = left - 1;
        }
        Ok(false)
    }

    /// Runs until `Halt`, for as many as `u64::MAX` cycles.
    pub fn run(&mut self) -> (r: Result<(), Fault>)
        requires
            old(self).wf(),
        ensures
            final(self).wf(),
            match run_steps(old(self)@, u64::MAX as nat) {
                Ok((s, true)) => r is Ok && final(self)@ == s,
                Ok((_, false)) => r == Err::<(), Fault>(Fault::StepLimit),
                Err(e) => r == Err::<(), Fault>(e),
            },
    {
        match self.run_for(u64::MAX) {
            Ok(true) => Ok(()),
            Ok(false) => Err(Fault::StepLimit),
            Err(e) => Err(e),
        }
    }
}

} // verus!
