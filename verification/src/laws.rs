//! General facts about the instruction semantics, stated once and proved for
//! every machine state. Each law speaks over [`apply`] and [`spec_decode`],
//! the same functions the executable machine's contracts are stated with.

use vstd::prelude::*;

use crate::isa::{
    apply, continues, names_invalid_register, spec_decode, wrap_add, wrap_sub, Instruction,
    MachineState, VmError, OP_ADD_REGISTERS, OP_HALT, OP_JUMP, OP_LOAD_IMMEDIATE,
    OP_SUBTRACT_REGISTERS, REG_COUNT,
};

verus! {

/// Loading an immediate into a valid register sets exactly that register to
/// the immediate byte, advances the program counter by three, and leaves
/// every other register and all of memory unchanged.
pub proof fn lemma_load_immediate(s: MachineState, r: usize, v: u8)
    requires
        s.wf(),
        r < REG_COUNT,
    ensures
        apply(s, Instruction::LoadImmediate(r, v)).regs[r as int] == v,
        apply(s, Instruction::LoadImmediate(r, v)).pc == s.pc + 3,
        apply(s, Instruction::LoadImmediate(r, v)).mem == s.mem,
        apply(s, Instruction::LoadImmediate(r, v)).regs.len() == REG_COUNT,
        forall|i: int|
            0 <= i < REG_COUNT && i != r ==> apply(s, Instruction::LoadImmediate(r, v)).regs[i]
                == s.regs[i],
{
}

/// Adding two valid, distinct registers leaves the sum modulo 256 in the
/// destination, keeps the source unchanged, advances the program counter by
/// three, and touches no other register and no memory.
pub proof fn lemma_add_registers(s: MachineState, dst: usize, src: usize)
    requires
        s.wf(),
        dst < REG_COUNT,
        src < REG_COUNT,
        dst != src,
    ensures
        apply(s, Instruction::AddRegisters(dst, src)).regs[dst as int] == (s.regs[dst as int]
            + s.regs[src as int]) % 256,
        apply(s, Instruction::AddRegisters(dst, src)).regs[src as int] == s.regs[src as int],
        apply(s, Instruction::AddRegisters(dst, src)).pc == s.pc + 3,
        apply(s, Instruction::AddRegisters(dst, src)).mem == s.mem,
        forall|i: int|
            0 <= i < REG_COUNT && i != dst ==> apply(s, Instruction::AddRegisters(dst, src)).regs[i]
                == s.regs[i],
{
    assert(apply(s, Instruction::AddRegisters(dst, src)).regs[dst as int] == wrap_add(
        s.regs[dst as int],
        s.regs[src as int],
    ));
}

/// Subtracting two valid, distinct registers leaves the difference modulo
/// 256 in the destination — a result below zero wraps around — keeps the
/// source unchanged, advances the program counter by three, and touches no
/// other register and no memory.
pub proof fn lemma_subtract_registers(s: MachineState, dst: usize, src: usize)
    requires
        s.wf(),
        dst < REG_COUNT,
        src < REG_COUNT,
        dst != src,
    ensures
        apply(s, Instruction::SubtractRegisters(dst, src)).regs[dst as int] == (s.regs[dst as int]
            - s.regs[src as int]) % 256,
        apply(s, Instruction::SubtractRegisters(dst, src)).regs[src as int] == s.regs[src as int],
        apply(s, Instruction::SubtractRegisters(dst, src)).pc == s.pc + 3,
        apply(s, Instruction::SubtractRegisters(dst, src)).mem == s.mem,
        forall|i: int|
            0 <= i < REG_COUNT && i != dst ==> apply(
                s,
                Instruction::SubtractRegisters(dst, src),
            ).regs[i] == s.regs[i],
{
    assert(apply(s, Instruction::SubtractRegisters(dst, src)).regs[dst as int] == wrap_sub(
        s.regs[dst as int],
        s.regs[src as int],
    ));
}

/// A load, add or subtract that names a register outside the register file
/// is a no-op on the data: every register and all of memory stay as they
/// were, while the program counter still advances by three.
pub proof fn lemma_invalid_register_no_op(s: MachineState, i: Instruction)
    requires
        s.wf(),
        names_invalid_register(i),
    ensures
        apply(s, i).regs == s.regs,
        apply(s, i).mem == s.mem,
        apply(s, i).pc == s.pc + 3,
{
}

/// A jump sets the program counter exactly to its target address and changes
/// nothing else.
pub proof fn lemma_jump(s: MachineState, addr: usize)
    ensures
        apply(s, Instruction::Jump(addr)).pc == addr,
        apply(s, Instruction::Jump(addr)).regs == s.regs,
        apply(s, Instruction::Jump(addr)).mem == s.mem,
{
}

/// Decoding at a program counter outside the memory fails cleanly with the
/// address-out-of-range error: no byte is read.
pub proof fn lemma_decode_out_of_range(s: MachineState)
    requires
        s.pc >= s.mem.len(),
    ensures
        spec_decode(s) == Err::<Instruction, VmError>(VmError::AddressOutOfRange),
{
}

/// An instruction whose operand bytes would lie outside the memory also
/// fails to decode with the address-out-of-range error, rather than reading
/// adjacent state.
pub proof fn lemma_decode_truncated(s: MachineState)
    requires
        s.pc < s.mem.len(),
        (s.mem[s.pc as int] == OP_LOAD_IMMEDIATE || s.mem[s.pc as int] == OP_ADD_REGISTERS
            || s.mem[s.pc as int] == OP_SUBTRACT_REGISTERS) && s.pc + 2 >= s.mem.len() || s.mem[s.pc as int]
            == OP_JUMP && s.pc + 1 >= s.mem.len(),
    ensures
        spec_decode(s) == Err::<Instruction, VmError>(VmError::AddressOutOfRange),
{
}

/// A halt changes no state at all, and it does not keep the machine running.
pub proof fn lemma_halt_preserves_state(s: MachineState)
    ensures
        apply(s, Instruction::Halt) == s,
        !continues(Instruction::Halt),
{
}

/// A byte that is no opcode of the instruction set decodes to the
/// unrecognized instruction, which changes no state and does not keep the
/// machine running.
pub proof fn lemma_unknown_opcode_stops(s: MachineState)
    requires
        s.pc < s.mem.len(),
        s.mem[s.pc as int] != OP_LOAD_IMMEDIATE,
        s.mem[s.pc as int] != OP_ADD_REGISTERS,
        s.mem[s.pc as int] != OP_SUBTRACT_REGISTERS,
        s.mem[s.pc as int] != OP_JUMP,
        s.mem[s.pc as int] != OP_HALT,
    ensures
        spec_decode(s) == Ok::<Instruction, VmError>(Instruction::Unrecognized),
        apply(s, Instruction::Unrecognized) == s,
        !continues(Instruction::Unrecognized),
{
}

/// No instruction writes memory: the semantics only touch registers and the
/// program counter.
pub proof fn lemma_memory_is_never_written(s: MachineState, i: Instruction)
    ensures
        apply(s, i).mem == s.mem,
{
}

} // verus!
