//! The register machine whose programs ride inside a payload envelope.
//!
//! A program is a byte string of variable-length instructions: each starts
//! with an opcode byte, and a malformed or truncated instruction ends the
//! program at that point.  The machine itself steps one instruction at a
//! time; the one effect it cannot carry out itself — the indirect call an
//! allowed `Call` asks for — is handed back to the caller as the address
//! to jump to.

use vstd::bytes::{spec_u64_from_le_bytes, u64_from_le_bytes};
use vstd::prelude::*;
use vstd::slice::slice_subrange;

verus! {

/// Opcode of a register load.
pub const OPCODE_MOV: u8 = 0x01;

/// Opcode of a wrapping register add.
pub const OPCODE_ADD: u8 = 0x02;

/// Opcode of a compare-and-jump.
pub const OPCODE_JEQ: u8 = 0x03;

/// Opcode of an indirect call.
pub const OPCODE_CALL: u8 = 0x04;

/// Opcode of a no-op.
pub const OPCODE_NOP: u8 = 0x00;

/// The register and comparison value whose match arms the machine for
/// indirect calls.
pub const CALL_GATE_REG: usize = 0;

/// The comparison value of the arming jump.
pub const CALL_GATE_VAL: u64 = 3826;

/// One decoded instruction.
#[derive(Clone, Copy, Debug, PartialEq, Eq, Structural)]
pub enum Instruction {
    /// Load a value into a register.
    Mov { reg: usize, val: u64 },
    /// Add a value to a register, wrapping.
    Add { reg: usize, val: u64 },
    /// Jump when a register holds the compared value.
    Jeq { reg: usize, cmp: u64, jmp: usize },
    /// Call the code at an address, when the machine is armed.
    Call { addr: usize },
    /// Do nothing.
    Nop,
}

/// The program encoded from `pc` on: instructions peeled off the byte
/// string until its end, an unknown opcode, or a truncated instruction.
pub open spec fn spec_parse_program(bytes: Seq<u8>, pc: int) -> Seq<Instruction>
    decreases bytes.len() - pc,
{
    if pc < 0 || pc >= bytes.len() {
        Seq::empty()
    } else if bytes[pc] == OPCODE_MOV {
        if pc + 10 <= bytes.len() {
            seq![
                Instruction::Mov {
                    reg: bytes[pc + 1] as usize,
                    val: spec_u64_from_le_bytes(bytes.subrange(pc + 2, pc + 10)),
                },
            ] + spec_parse_program(bytes, pc + 10)
        } else {
            Seq::empty()
        }
    } else if bytes[pc] == OPCODE_ADD {
        if pc + 10 <= bytes.len() {
            seq![
                Instruction::Add {
                    reg: bytes[pc + 1] as usize,
                    val: spec_u64_from_le_bytes(bytes.subrange(pc + 2, pc + 10)),
                },
            ] + spec_parse_program(bytes, pc + 10)
        } else {
            Seq::empty()
        }
    } else if bytes[pc] == OPCODE_JEQ {
        if pc + 11 <= bytes.len() {
            seq![
                Instruction::Jeq {
                    reg: bytes[pc + 1] as usize,
                    cmp: spec_u64_from_le_bytes(bytes.subrange(pc + 2, pc + 10)),
                    jmp: bytes[pc + 10] as usize,
                },
            ] + spec_parse_program(bytes, pc + 11)
        } else {
            Seq::empty()
        }
    } else if bytes[pc] == OPCODE_CALL {
        if pc + 9 <= bytes.len() {
            seq![
                Instruction::Call {
                    addr: spec_u64_from_le_bytes(bytes.subrange(pc + 1, pc + 9)) as usize,
                },
            ] + spec_parse_program(bytes, pc + 9)
        } else {
            Seq::empty()
        }
    } else if bytes[pc] == OPCODE_NOP {
        seq![Instruction::Nop] + spec_parse_program(bytes, pc + 1)
    } else {
        Seq::empty()
    }
}

/// Decodes a program from its byte string, instruction by instruction,
/// stopping at the end, at an unknown opcode, or at a truncated
/// instruction.
pub fn parse_program(bytes: &[u8]) -> (r: Vec<Instruction>)
    ensures
        r@ == spec_parse_program(bytes@, 0),
{
    let mut program: Vec<Instruction> = Vec::new();
    let mut pc: usize = 0;
    while pc < bytes.len()
        invariant_except_break
            pc <= bytes.len(),
            spec_parse_program(bytes@, 0) == program@ + spec_parse_program(bytes@, pc as int),
        ensures
            spec_parse_program(bytes@, 0) == program@ + spec_parse_program(bytes@, pc as int),
            spec_parse_program(bytes@, pc as int) == Seq::<Instruction>::empty(),
        decreases bytes.len() - pc,
    {
        let ghost pre = program@;
        let ghost opc = pc as int;
        let op = bytes[pc];
        if op == OPCODE_MOV {
            if bytes.len() - pc < 10 {
                assert(spec_parse_program(bytes@, pc as int) =~= Seq::<Instruction>::empty());
                break ;
            }
            let reg = bytes[pc + 1] as usize;
            let val = u64_from_le_bytes(slice_subrange(bytes, pc + 2, pc + 10));
            program.push(Instruction::Mov { reg, val });
            pc = pc + 10;
        } else if op == OPCODE_ADD {
            if bytes.len() - pc < 10 {
                assert(spec_parse_program(bytes@, pc as int) =~= Seq::<Instruction>::empty());
                break ;
            }
            let reg = bytes[pc + 1] as usize;
            let val = u64_from_le_bytes(slice_subrange(bytes, pc + 2, pc + 10));
            program.push(Instruction::Add { reg, val });
            pc = pc + 10;
        } else if op == OPCODE_JEQ {
            if bytes.len() - pc < 11 {
                assert(spec_parse_program(bytes@, pc as int) =~= Seq::<Instruction>::empty());
                break ;
            }
            let reg = bytes[pc + 1] as usize;
            let cmp = u64_from_le_bytes(slice_subrange(bytes, pc + 2, pc + 10));
            let jmp = bytes[pc + 10] as usize;
            program.push(Instruction::Jeq { reg, cmp, jmp });
            pc = pc + 11;
        } else if op == OPCODE_CALL {
            if bytes.len() - pc < 9 {
                assert(spec_parse_program(bytes@, pc as int) =~= Seq::<Instruction>::empty());
                break ;
            }
            let addr_word = u64_from_le_bytes(slice_subrange(bytes, pc + 1, pc + 9));
            let addr = addr_word as usize;
            program.push(Instruction::Call { addr });
            pc = pc + 9;
        } else if op == OPCODE_NOP {
            program.push(Instruction::Nop);
            pc = pc + 1;
        } else {
            assert(spec_parse_program(bytes@, pc as int) =~= Seq::<Instruction>::empty());
            break ;
        }
        proof {
            assert(spec_parse_program(bytes@, 0) == pre + spec_parse_program(bytes@, opc));
            assert(pre + spec_parse_program(bytes@, opc) =~= program@ + spec_parse_program(
                bytes@,
                pc as int,
            ));
        }
    }
    proof {
        assert(program@ + Seq::<Instruction>::empty() =~= program@);
    }
    program
}

/// The running machine: its registers, its position in the program, and
/// whether the call gate has been opened.
pub struct VmState {
    registers: Vec<u64>,
    pc: usize,
    call_allowed: bool,
}

impl VmState {
    /// The registers.
    pub closed spec fn spec_registers(self) -> Seq<u64> {
        self.registers@
    }

    /// The position of the next instruction.
    pub closed spec fn spec_pc(self) -> int {
        self.pc as int
    }

    /// Whether the call gate has been opened.
    pub closed spec fn spec_call_allowed(self) -> bool {
        self.call_allowed
    }

    /// A machine with the given number of zeroed registers, at the start
    /// of the program, with the call gate closed.
    pub fn new(reg_count: usize) -> (r: VmState)
        ensures
            r.spec_registers() == Seq::new(reg_count as nat, |i: int| 0u64),
            r.spec_pc() == 0,
            !r.spec_call_allowed(),
    {
        let mut registers: Vec<u64> = Vec::new();
        let mut k: usize = 0;
        while k < reg_count
            invariant
                k <= reg_count,
                registers@ == Seq::new(k as nat, |i: int| 0u64),
            decreases reg_count - k,
        {
            registers.push(0);
            proof {
                assert(registers@ =~= Seq::new((k + 1) as nat, |i: int| 0u64));
            }
            k = k + 1;
        }
        VmState { registers, pc: 0, call_allowed: false }
    }

    /// The value of a register, or `None` past the register file.
    pub fn register(&self, i: usize) -> (r: Option<u64>)
        ensures
            r == if i < self.spec_registers().len() {
                Some(self.spec_registers()[i as int])
            } else {
                None::<u64>
            },
    {
        if i < self.registers.len() {
            Some(self.registers[i])
        } else {
            None
        }
    }

    /// The position of the next instruction.
    pub fn position(&self) -> (r: usize)
        ensures
            r == self.spec_pc(),
    {
        self.pc
    }

    /// Whether the machine still stands on an instruction of the program.
    pub fn running(&self, program: &Vec<Instruction>) -> (r: bool)
        ensures
            r == (self.spec_pc() < program@.len()),
    {
        self.pc < program.len()
    }

    /// Executes the instruction under the program counter.  A load or an
    /// add touches its register only when the register exists; the arming
    /// jump opens the call gate; a `Call` never jumps itself — when the
    /// gate is open, the address is handed back for the caller to call.
    pub fn step(&mut self, program: &Vec<Instruction>) -> (r: Option<usize>)
        requires
            old(self).spec_pc() < program@.len(),
        ensures
            ({
                let regs = old(self).spec_registers();
                let pc = old(self).spec_pc();
                match program@[pc] {
                    Instruction::Mov { reg, val } => {
                        &&& r is None
                        &&& final(self).spec_pc() == pc + 1
                        &&& final(self).spec_call_allowed() == old(self).spec_call_allowed()
                        &&& final(self).spec_registers() == if reg < regs.len() {
                            regs.update(reg as int, val)
                        } else {
                            regs
                        }
                    },
                    Instruction::Add { reg, val } => {
                        &&& r is None
                        &&& final(self).spec_pc() == pc + 1
                        &&& final(self).spec_call_allowed() == old(self).spec_call_allowed()
                        &&& final(self).spec_registers() == if reg < regs.len() {
                            regs.update(reg as int, ((regs[reg as int] + val) % 0x1_0000_0000_0000_0000) as u64)
                        } else {
                            regs
                        }
                    },
                    Instruction::Jeq { reg, cmp, jmp } => {
                        &&& r is None
                        &&& final(self).spec_registers() == regs
                        &&& if reg < regs.len() && regs[reg as int] == cmp {
                            &&& final(self).spec_pc() == jmp
                            &&& final(self).spec_call_allowed() == (old(self).spec_call_allowed()
                                || (reg == CALL_GATE_REG && cmp == CALL_GATE_VAL))
                        } else {
                            &&& final(self).spec_pc() == pc + 1
                            &&& final(self).spec_call_allowed() == old(self).spec_call_allowed()
                        }
                    },
                    Instruction::Call { addr } => {
                        &&& final(self).spec_registers() == regs
                        &&& final(self).spec_pc() == pc + 1
                        &&& final(self).spec_call_allowed() == old(self).spec_call_allowed()
                        &&& r == if old(self).spec_call_allowed() {
                            Some(addr)
                        } else {
                            None::<usize>
                        }
                    },
                    Instruction::Nop => {
                        &&& r is None
                        &&& final(self).spec_registers() == regs
                        &&& final(self).spec_pc() == pc + 1
                        &&& final(self).spec_call_allowed() == old(self).spec_call_allowed()
                    },
                }
            }),
    {
        let program_len = program.len();
        assert(self.pc < program_len);
        let instruction = program[self.pc];
        match instruction {
            Instruction::Mov { reg, val } => {
                if reg < self.registers.len() {
                    self.registers.set(reg, val);
                }
                self.pc = self.pc + 1;
                None
            },
            Instruction::Add { reg, val } => {
                if reg < self.registers.len() {
                    let current = self.registers[reg];
                    self.registers.set(reg, current.wrapping_add(val));
                }
                self.pc = self.pc + 1;
                None
            },
            Instruction::Jeq { reg, cmp, jmp } => {
                if reg < self.registers.len() && self.registers[reg] == cmp {
                    if reg == CALL_GATE_REG && cmp == CALL_GATE_VAL {
                        self.call_allowed = true;
                    }
                    self.pc = jmp;
                } else {
                    self.pc = self.pc + 1;
                }
                None
            },
            Instruction::Call { addr } => {
                self.pc = self.pc + 1;
                if self.call_allowed {
                    Some(addr)
                } else {
                    None
                }
            },
            Instruction::Nop => {
                self.pc = self.pc + 1;
                None
            },
        }
    }
}

} // verus!
