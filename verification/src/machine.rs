//! The executable machine: a fixed-size memory, four registers and a program
//! counter, driven by a fetch-decode-execute loop.
//!
//! Every method is verified against the semantics in [`crate::isa`]: a
//! machine's view is a [`MachineState`], decoding agrees with
//! [`spec_decode`], and executing an instruction transforms the view exactly
//! as [`apply`] says.

use vstd::prelude::*;

use crate::isa::{
    advances_pc, apply, continues, spec_decode, step, stop_state, Instruction, MachineState,
    StopReason, VmError, MEM_SIZE, OP_ADD_REGISTERS, OP_HALT, OP_JUMP, OP_LOAD_IMMEDIATE,
    OP_SUBTRACT_REGISTERS, REG_COUNT,
};
use crate::isa::{lemma_steps_to_extend, lemma_steps_to_reaches, reaches, steps_to};

verus! {

/// A fresh vector of `n` zero bytes.
fn zeroed(n: usize) -> (v: Vec<u8>)
    ensures
        v@.len() == n,
        forall|i: int| 0 <= i < n ==> v@[i] == 0,
{
    let mut v: Vec<u8> = Vec::new();
    while v.len() < n
        invariant
            v@.len() <= n,
            forall|i: int| 0 <= i < v@.len() ==> v@[i] == 0,
        decreases n - v@.len(),
    {
        v.push(0);
    }
    v
}

/// The machine state: memory, registers and program counter. Created
/// zero-filled; a program is written into memory with [`VM::load_program`]
/// and run with [`VM::run`].
pub struct VM {
    memory: Vec<u8>,
    registers: Vec<u8>,
    pc: usize,
}

impl View for VM {
    type V = MachineState;

    closed spec fn view(&self) -> MachineState {
        MachineState { mem: self.memory@, regs: self.registers@, pc: self.pc as nat }
    }
}

impl VM {
    /// The memory holds [`MEM_SIZE`] cells and the register file
    /// [`REG_COUNT`]; every method keeps this.
    pub open spec fn wf(&self) -> bool {
        self@.wf()
    }

    /// A machine with zero-filled memory and registers, about to fetch from
    /// address zero.
    pub fn new() -> (vm: VM)
        ensures
            vm.wf(),
            vm@.pc == 0,
            forall|i: int| 0 <= i < MEM_SIZE ==> vm@.mem[i] == 0,
            forall|i: int| 0 <= i < REG_COUNT ==> vm@.regs[i] == 0,
    {
        VM { memory: zeroed(MEM_SIZE), registers: zeroed(REG_COUNT), pc: 0 }
    }

    /// Write a program image into memory starting at address zero, leaving
    /// the rest of memory and all other state unchanged. An image longer than
    /// the memory is rejected whole and nothing changes.
    #[verifier::loop_isolation(false)]
    pub fn load_program(&mut self, program: &Vec<u8>) -> (ok: bool)
        requires
            old(self).wf(),
        ensures
            final(self).wf(),
            ok == (program@.len() <= MEM_SIZE),
            final(self)@.regs == old(self)@.regs,
            final(self)@.pc == old(self)@.pc,
            ok ==> forall|i: int| 0 <= i < program@.len() ==> final(self)@.mem[i] == program@[i],
            ok ==> forall|i: int|
                program@.len() <= i < MEM_SIZE ==> final(self)@.mem[i] == old(self)@.mem[i],
            !ok ==> final(self)@ == old(self)@,
    {
        if program.len() > MEM_SIZE {
            return false;
        }
        let mut j: usize = 0;
        while j < program.len()
            invariant
                j <= program@.len(),
                self@.regs == old(self)@.regs,
                self@.pc == old(self)@.pc,
                self@.mem.len() == MEM_SIZE,
                forall|i: int| 0 <= i < j ==> self@.mem[i] == program@[i],
                forall|i: int| j <= i < MEM_SIZE ==> self@.mem[i] == old(self)@.mem[i],
            decreases program@.len() - j,
        {
            self.memory.set(j, program[j]);
            j = j + 1;
        }
        true
    }

    /// Decode the instruction under the program counter, without touching any
    /// state: the result is exactly what [`spec_decode`] says of the current
    /// state, so decoding twice in a row returns the same instruction.
    pub fn decode(&self) -> (r: Result<Instruction, VmError>)
        requires
            self.wf(),
        ensures
            r == spec_decode(self@),
    {
        if self.pc >= self.memory.len() {
            return Err(VmError::AddressOutOfRange);
        }
        let opcode = self.memory[self.pc];
        if opcode == OP_LOAD_IMMEDIATE {
            if self.pc + 2 < self.memory.len() {
                Ok(
                    Instruction::LoadImmediate(
                        self.memory[self.pc + 1] as usize,
                        self.memory[self.pc + 2],
                    ),
                )
            } else {
                Err(VmError::AddressOutOfRange)
            }
        } else if opcode == OP_ADD_REGISTERS {
            if self.pc + 2 < self.memory.len() {
                Ok(
                    Instruction::AddRegisters(
                        self.memory[self.pc + 1] as usize,
                        self.memory[self.pc + 2] as usize,
                    ),
                )
            } else {
                Err(VmError::AddressOutOfRange)
            }
        } else if opcode == OP_SUBTRACT_REGISTERS {
            if self.pc + 2 < self.memory.len() {
                Ok(
                    Instruction::SubtractRegisters(
                        self.memory[self.pc + 1] as usize,
                        self.memory[self.pc + 2] as usize,
                    ),
                )
            } else {
                Err(VmError::AddressOutOfRange)
            }
        } else if opcode == OP_JUMP {
            if self.pc + 1 < self.memory.len() {
                Ok(Instruction::Jump(self.memory[self.pc + 1] as usize))
            } else {
                Err(VmError::AddressOutOfRange)
            }
        } else if opcode == OP_HALT {
            Ok(Instruction::Halt)
        } else {
            Ok(Instruction::Unrecognized)
        }
    }

    /// Apply one instruction to the state, exactly as [`apply`] says: loads
    /// and arithmetic write at most one valid register and advance the
    /// program counter by three, a jump only moves the program counter, and
    /// halt and unrecognized instructions change nothing. The result says
    /// whether the machine keeps running.
    pub fn execute(&mut self, instr: Instruction) -> (cont: bool)
        requires
            old(self).wf(),
            advances_pc(instr) ==> old(self)@.pc + 3 <= usize::MAX,
        ensures
            final(self).wf(),
            cont == continues(instr),
            final(self)@ == apply(old(self)@, instr),
    {
        match instr {
            Instruction::LoadImmediate(r, v) => {
                if r < REG_COUNT {
                    self.registers.set(r, v);
                }
                self.pc = self.pc + 3;
                assert(self@ =~= apply(old(self)@, instr));
                true
            },
            Instruction::AddRegisters(dst, src) => {
                if dst < REG_COUNT && src < REG_COUNT {
                    let a: u8 = self.registers[dst];
                    let b: u8 = self.registers[src];
                    let sum: u16 = a as u16 + b as u16;
                    let res: u8 = (sum % 256) as u8;
                    self.registers.set(dst, res);
                }
                self.pc = self.pc + 3;
                assert(self@ =~= apply(old(self)@, instr));
                true
            },
            Instruction::SubtractRegisters(dst, src) => {
                if dst < REG_COUNT && src < REG_COUNT {
                    let a: u8 = self.registers[dst];
                    let b: u8 = self.registers[src];
                    let diff: u16 = a as u16 + 256 - b as u16;
                    let res: u8 = (diff % 256) as u8;
                    self.registers.set(dst, res);
                }
                self.pc = self.pc + 3;
                assert(self@ =~= apply(old(self)@, instr));
                true
            },
            Instruction::Jump(addr) => {
                self.pc = addr;
                assert(self@ =~= apply(old(self)@, instr));
                true
            },
            Instruction::Halt => false,
            Instruction::Unrecognized => false,
        }
    }

    /// One fetch-decode-execute cycle. `None` means the machine took a
    /// running step; `Some` reports why it stopped, with the state untouched.
    pub fn exec(&mut self) -> (r: Option<StopReason>)
        requires
            old(self).wf(),
        ensures
            final(self).wf(),
            final(self)@.mem == old(self)@.mem,
            match r {
                None => step(old(self)@, final(self)@),
                Some(reason) => final(self)@ == old(self)@ && stop_state(old(self)@, reason),
            },
    {
        match self.decode() {
            Err(VmError::AddressOutOfRange) => Some(StopReason::AddressOutOfRange(self.pc)),
            Ok(Instruction::Halt) => Some(StopReason::Halted),
            Ok(Instruction::Unrecognized) => Some(StopReason::UnrecognizedOpcode(self.pc)),
            Ok(instr) => {
                self.execute(instr);
                None
            },
        }
    }

    /// Run decode-execute cycles until the machine stops or the explicit
    /// step limit is exhausted, and report why it stopped. The limit is the
    /// machine's only resource bound: `Some(reason)` means the machine
    /// stopped of its own accord, with the reason the final state dictates;
    /// `None` means it took exactly `max_steps` running steps and is still
    /// running, so a caller that wants an unbounded run calls again. Either
    /// way the final state is reached from the initial one by running steps
    /// alone, and memory is never written.
    #[verifier::loop_isolation(false)]
    pub fn run(&mut self, max_steps: usize) -> (r: Option<StopReason>)
        requires
            old(self).wf(),
        ensures
            final(self).wf(),
            final(self)@.mem == old(self)@.mem,
            reaches(old(self)@, final(self)@),
            match r {
                Some(reason) => stop_state(final(self)@, reason),
                None => steps_to(old(self)@, final(self)@, max_steps as nat),
            },
    {
        let mut steps: usize = 0;
        assert(steps_to(old(self)@, self@, 0));
        while steps < max_steps
            invariant
                self.wf(),
                steps <= max_steps,
                self@.mem == old(self)@.mem,
                steps_to(old(self)@, self@, steps as nat),
            decreases max_steps - steps,
        {
            let ghost pre = self@;
            match self.exec() {
                Some(reason) => {
                    proof {
                        lemma_steps_to_reaches(old(self)@, self@, steps as nat);
                    }
                    return Some(reason);
                },
                None => {
                    proof {
                        lemma_steps_to_extend(old(self)@, pre, self@, steps as nat);
                    }
                    steps = steps + 1;
                },
            }
        }
        proof {
            lemma_steps_to_reaches(old(self)@, self@, steps as nat);
        }
        None
    }

    /// Read one register of the file.
    pub fn register(&self, index: usize) -> (value: u8)
        requires
            self.wf(),
            index < REG_COUNT,
        ensures
            value == self@.regs[index as int],
    {
        self.registers[index]
    }

    /// Read the program counter.
    pub fn program_counter(&self) -> (addr: usize)
        ensures
            addr == self@.pc,
    {
        self.pc
    }
}

} // verus!
