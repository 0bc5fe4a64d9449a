//! The instruction set and its mathematical semantics.
//!
//! A machine state is modelled as a [`MachineState`]: a sequence of memory
//! cells, a sequence of registers and a program counter. [`spec_decode`] says
//! which instruction a state's memory holds at its program counter, and
//! [`apply`] says how one instruction transforms a state. The executable
//! machine in [`crate::machine`] is verified against these two functions.

use vstd::prelude::*;

verus! {

/// Number of byte cells in the machine's memory.
pub const MEM_SIZE: usize = 1024;

/// Number of 8-bit registers in the register file.
pub const REG_COUNT: usize = 4;

/// Opcode of [`Instruction::LoadImmediate`].
pub const OP_LOAD_IMMEDIATE: u8 = 0x01;

/// Opcode of [`Instruction::AddRegisters`].
pub const OP_ADD_REGISTERS: u8 = 0x02;

/// Opcode of [`Instruction::Jump`].
pub const OP_JUMP: u8 = 0x03;

/// Opcode of [`Instruction::SubtractRegisters`].
pub const OP_SUBTRACT_REGISTERS: u8 = 0x04;

/// Opcode of [`Instruction::Halt`].
pub const OP_HALT: u8 = 0xFF;

/// A decoded instruction. It lives for one decode/execute cycle and owns no
/// part of the machine state.
#[derive(Clone, Copy, Debug, PartialEq, Eq, Structural)]
pub enum Instruction {
    /// Write the immediate byte into the register, if the index is valid.
    LoadImmediate(usize, u8),
    /// Add the source register into the destination register, modulo 256.
    AddRegisters(usize, usize),
    /// Subtract the source register from the destination register, modulo 256.
    SubtractRegisters(usize, usize),
    /// Set the program counter to the target address.
    Jump(usize),
    /// Stop the machine.
    Halt,
    /// An opcode outside the instruction set.
    Unrecognized,
}

/// The failure a decode can report: the program counter, or an operand byte
/// of the instruction under it, lies outside the memory.
#[derive(Clone, Copy, Debug, PartialEq, Eq, Structural)]
pub enum VmError {
    AddressOutOfRange,
}

/// Why a run stopped, with the program counter at which it did where that
/// address is part of the report.
#[derive(Clone, Copy, Debug, PartialEq, Eq, Structural)]
pub enum StopReason {
    /// A halt instruction was executed.
    Halted,
    /// The byte at the given program counter is not an opcode.
    UnrecognizedOpcode(usize),
    /// Decoding at the given program counter would read outside the memory.
    AddressOutOfRange(usize),
}

/// The mathematical machine state: what the executable machine's view maps to.
#[verifier::ext_equal]
pub struct MachineState {
    pub mem: Seq<u8>,
    pub regs: Seq<u8>,
    pub pc: nat,
}

impl MachineState {
    /// The sizes of memory and register file are fixed for the machine's
    /// lifetime.
    pub open spec fn wf(self) -> bool {
        &&& self.mem.len() == MEM_SIZE
        &&& self.regs.len() == REG_COUNT
    }
}

/// Addition modulo 256: overflow is truncated, never signalled.
pub open spec fn wrap_add(a: u8, b: u8) -> u8 {
    ((a + b) % 256) as u8
}

/// Subtraction modulo 256: a result below zero wraps around.
pub open spec fn wrap_sub(a: u8, b: u8) -> u8 {
    ((a - b) % 256) as u8
}

/// The instruction encoded at the state's program counter, or the error when
/// the opcode or one of its operand bytes lies outside the memory.
pub open spec fn spec_decode(s: MachineState) -> Result<Instruction, VmError> {
    if s.pc >= s.mem.len() {
        Err(VmError::AddressOutOfRange)
    } else {
        let op = s.mem[s.pc as int];
        if op == OP_LOAD_IMMEDIATE {
            if s.pc + 2 < s.mem.len() {
                Ok(Instruction::LoadImmediate(s.mem[s.pc as int + 1] as usize, s.mem[s.pc as int + 2]))
            } else {
                Err(VmError::AddressOutOfRange)
            }
        } else if op == OP_ADD_REGISTERS {
            if s.pc + 2 < s.mem.len() {
                Ok(Instruction::AddRegisters(s.mem[s.pc as int + 1] as usize, s.mem[s.pc as int + 2] as usize))
            } else {
                Err(VmError::AddressOutOfRange)
            }
        } else if op == OP_SUBTRACT_REGISTERS {
            if s.pc + 2 < s.mem.len() {
                Ok(Instruction::SubtractRegisters(s.mem[s.pc as int + 1] as usize, s.mem[s.pc as int + 2] as usize))
            } else {
                Err(VmError::AddressOutOfRange)
            }
        } else if op == OP_JUMP {
            if s.pc + 1 < s.mem.len() {
                Ok(Instruction::Jump(s.mem[s.pc as int + 1] as usize))
            } else {
                Err(VmError::AddressOutOfRange)
            }
        } else if op == OP_HALT {
            Ok(Instruction::Halt)
        } else {
            Ok(Instruction::Unrecognized)
        }
    }
}

/// Whether executing the instruction keeps the machine running.
pub open spec fn continues(i: Instruction) -> bool {
    !(i is Halt) && !(i is Unrecognized)
}

/// Whether the instruction advances the program counter by its own width of
/// three bytes.
pub open spec fn advances_pc(i: Instruction) -> bool {
    i is LoadImmediate || i is AddRegisters || i is SubtractRegisters
}

/// Whether the instruction names a register outside the register file, and is
/// therefore a no-op on the registers.
pub open spec fn names_invalid_register(i: Instruction) -> bool {
    match i {
        Instruction::LoadImmediate(r, _) => r >= REG_COUNT,
        Instruction::AddRegisters(dst, src) => dst >= REG_COUNT || src >= REG_COUNT,
        Instruction::SubtractRegisters(dst, src) => dst >= REG_COUNT || src >= REG_COUNT,
        _ => false,
    }
}

/// The state after executing one instruction. An arithmetic or load
/// instruction that names a register outside the register file leaves the
/// registers unchanged but still advances the program counter.
pub open spec fn apply(s: MachineState, i: Instruction) -> MachineState {
    match i {
        Instruction::LoadImmediate(r, v) => MachineState {
            regs: if r < REG_COUNT {
                s.regs.update(r as int, v)
            } else {
                s.regs
            },
            pc: (s.pc + 3) as nat,
            ..s
        },
        Instruction::AddRegisters(dst, src) => MachineState {
            regs: if dst < REG_COUNT && src < REG_COUNT {
                s.regs.update(dst as int, wrap_add(s.regs[dst as int], s.regs[src as int]))
            } else {
                s.regs
            },
            pc: (s.pc + 3) as nat,
            ..s
        },
        Instruction::SubtractRegisters(dst, src) => MachineState {
            regs: if dst < REG_COUNT && src < REG_COUNT {
                s.regs.update(dst as int, wrap_sub(s.regs[dst as int], s.regs[src as int]))
            } else {
                s.regs
            },
            pc: (s.pc + 3) as nat,
            ..s
        },
        Instruction::Jump(addr) => MachineState { pc: addr as nat, ..s },
        Instruction::Halt => s,
        Instruction::Unrecognized => s,
    }
}

/// One running step: the state decodes to an instruction that keeps the
/// machine running, and the instruction's semantics lead to the next state.
pub open spec fn step(pre: MachineState, post: MachineState) -> bool {
    spec_decode(pre) matches Ok(i) && continues(i) && post == apply(pre, i)
}

/// `post` is reached from `pre` by exactly `n` running steps.
pub open spec fn steps_to(pre: MachineState, post: MachineState, n: nat) -> bool
    decreases n,
{
    if n == 0 {
        post == pre
    } else {
        exists|mid: MachineState| steps_to(pre, mid, (n - 1) as nat) && step(mid, post)
    }
}

/// `post` is reached from `pre` by some number of running steps.
pub open spec fn reaches(pre: MachineState, post: MachineState) -> bool {
    exists|n: nat| steps_to(pre, post, n)
}

/// The stop reason `r` is the one that state `s` dictates: a halt opcode under
/// the program counter stops with `Halted`, a byte outside the instruction set
/// with `UnrecognizedOpcode`, and a decode that would read outside the memory
/// with `AddressOutOfRange`, the latter two reporting the program counter.
pub open spec fn stop_state(s: MachineState, r: StopReason) -> bool {
    match r {
        StopReason::Halted => spec_decode(s) == Ok::<Instruction, VmError>(Instruction::Halt),
        StopReason::UnrecognizedOpcode(at) => at == s.pc && spec_decode(s) == Ok::<
            Instruction,
            VmError,
        >(Instruction::Unrecognized),
        StopReason::AddressOutOfRange(at) => at == s.pc && spec_decode(s) == Err::<
            Instruction,
            VmError,
        >(VmError::AddressOutOfRange),
    }
}

/// A walk of `n` steps grows by one running step at its end.
pub proof fn lemma_steps_to_extend(a: MachineState, b: MachineState, c: MachineState, n: nat)
    requires
        steps_to(a, b, n),
        step(b, c),
    ensures
        steps_to(a, c, n + 1),
{
    assert(steps_to(a, b, ((n + 1) - 1) as nat));
}

/// A walk of any length witnesses reachability.
pub proof fn lemma_steps_to_reaches(a: MachineState, b: MachineState, n: nat)
    requires
        steps_to(a, b, n),
    ensures
        reaches(a, b),
{
}

} // verus!
