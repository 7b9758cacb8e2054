//! The execution engine: fetch an opcode at `pc`, decode it, fetch the
//! operand per addressing mode, run the arithmetic operation against the
//! register file, and compute the next program counter. All program-counter
//! arithmetic wraps modulo 2^16: the address space has no edge.

use vstd::prelude::*;

use crate::bus::Bus;
use crate::instruction::{spec_decode, ArithmeticTarget, Instruction};
use crate::register::{pair, FlagsRegister, Registers};

verus! {

/// A failure of one fetch-decode-execute cycle. Neither kind advances `pc`
/// or touches any state: the cycle stops rather than guessing.
#[derive(Clone, Copy, Debug, PartialEq, Eq)]
pub enum CpuError {
    /// The opcode byte has no entry in the decode table; it and the address
    /// it was fetched from identify the failure.
    UnknownOpcode { opcode: u8, address: u16 },
    /// The instruction decoded, but its operation has no execution logic yet.
    Unimplemented { instruction: Instruction },
}

/// The CPU: register file, program counter, stack pointer, and memory bus.
pub struct Cpu {
    pub registers: Registers,
    pub pc: u16,
    pub sp: u16,
    pub bus: Bus,
}

/// 16-bit address arithmetic: addition wrapping silently at the end of the
/// address space.
pub open spec fn wrap_add16(x: u16, y: u16) -> u16 {
    ((x + y) % 0x10000) as u16
}

/// Result and flags of the add operation: the sum modulo 256; `carry` iff
/// the 8-bit addition overflowed, `half_carry` iff the low nibbles alone
/// carried out of bit 3, `zero` iff the result is zero, `subtraction` false.
pub open spec fn spec_add(a: u8, value: u8) -> (u8, FlagsRegister) {
    let result = ((a + value) % 256) as u8;
    (
        result,
        FlagsRegister {
            zero: result == 0,
            subtraction: false,
            half_carry: a % 16 + value % 16 > 15,
            carry: a + value > 255,
        },
    )
}

/// Result and flags of add-with-carry: the incoming carry is first folded
/// into the operand (wrapping, recording that overflow), then the folded
/// intermediate is added to the accumulator (recording that overflow too).
/// `carry` is the disjunction of the two overflows, and `half_carry` is
/// computed against the already-folded intermediate, not the raw operand.
pub open spec fn spec_addc(a: u8, value: u8, carry_in: bool) -> (u8, FlagsRegister) {
    let intermediate = ((value + (if carry_in {
        1int
    } else {
        0int
    })) % 256) as u8;
    let first_overflow = value + (if carry_in {
        1int
    } else {
        0int
    }) > 255;
    let result = ((a + intermediate) % 256) as u8;
    (
        result,
        FlagsRegister {
            zero: result == 0,
            subtraction: false,
            half_carry: a % 16 + intermediate % 16 > 15,
            carry: first_overflow || (a + intermediate > 255),
        },
    )
}

/// Where the right-hand operand of an arithmetic instruction comes from:
/// a named register, the bus byte addressed by the `hl` pair, or the
/// immediate byte just past the opcode.
pub open spec fn operand(cpu: Cpu, target: ArithmeticTarget) -> u8 {
    match target {
        ArithmeticTarget::A => cpu.registers.a,
        ArithmeticTarget::B => cpu.registers.b,
        ArithmeticTarget::C => cpu.registers.c,
        ArithmeticTarget::D => cpu.registers.d,
        ArithmeticTarget::E => cpu.registers.e,
        ArithmeticTarget::H => cpu.registers.h,
        ArithmeticTarget::L => cpu.registers.l,
        ArithmeticTarget::HL => cpu.bus@[pair(cpu.registers.h, cpu.registers.l) as int],
        ArithmeticTarget::D8 => cpu.bus@[wrap_add16(cpu.pc, 1) as int],
    }
}

/// How many bytes the instruction occupies: two for the immediate form
/// (opcode plus operand byte), one for every other form.
pub open spec fn instruction_len(target: ArithmeticTarget) -> u16 {
    match target {
        ArithmeticTarget::D8 => 2,
        _ => 1,
    }
}

/// The program counter after an instruction with the given operand source,
/// wrapping at the end of the address space.
pub open spec fn next_pc(pc: u16, target: ArithmeticTarget) -> u16 {
    wrap_add16(pc, instruction_len(target))
}

/// The CPU after an arithmetic result is committed: the result byte in the
/// accumulator, the new flags in `f`, everything else untouched.
pub open spec fn commit_result(cpu: Cpu, result_flags: (u8, FlagsRegister)) -> Cpu {
    Cpu { registers: Registers { a: result_flags.0, f: result_flags.1, ..cpu.registers }, ..cpu }
}

/// What executing one decoded instruction does: the CPU afterwards, and
/// either the next program counter or the failure. Add and add-with-carry
/// fetch their operand, commit result and flags, and advance past the
/// instruction; the operations whose execution logic is not yet present
/// change nothing and report themselves unimplemented.
pub open spec fn spec_execute(cpu: Cpu, instruction: Instruction) -> (Cpu, Result<
    u16,
    CpuError,
>) {
    match instruction {
        Instruction::ADD(target) => (
            commit_result(cpu, spec_add(cpu.registers.a, operand(cpu, target))),
            Ok(next_pc(cpu.pc, target)),
        ),
        Instruction::ADDC(target) => (
            commit_result(
                cpu,
                spec_addc(cpu.registers.a, operand(cpu, target), cpu.registers.f.carry),
            ),
            Ok(next_pc(cpu.pc, target)),
        ),
        Instruction::SUB(_) => (cpu, Err(CpuError::Unimplemented { instruction })),
        Instruction::SBC(_) => (cpu, Err(CpuError::Unimplemented { instruction })),
    }
}

/// What one full cycle does: fetch the opcode byte at `pc`, decode it, and
/// on success execute and commit the returned program counter. A byte with
/// no table entry, or an operation without execution logic, leaves the CPU
/// exactly as it was and reports the failure.
pub open spec fn spec_step(cpu: Cpu) -> (Cpu, Result<(), CpuError>) {
    let opcode = cpu.bus@[cpu.pc as int];
    match spec_decode(opcode) {
        None => (cpu, Err(CpuError::UnknownOpcode { opcode, address: cpu.pc })),
        Some(instruction) => {
            let executed = spec_execute(cpu, instruction);
            match executed.1 {
                Ok(next) => (Cpu { pc: next, ..executed.0 }, Ok(())),
                Err(e) => (executed.0, Err(e)),
            }
        },
    }
}

impl Cpu {
    /// A CPU is well formed when its bus covers the whole address space.
    pub open spec fn wf(&self) -> bool {
        self.bus.wf()
    }

    /// A CPU in its power-on state: every register and flag zero, `pc` and
    /// `sp` zero, every bus byte zero.
    pub fn new() -> (r: Cpu)
        ensures
            r.wf(),
            r.registers == (Registers {
                a: 0u8,
                b: 0u8,
                c: 0u8,
                d: 0u8,
                e: 0u8,
                h: 0u8,
                l: 0u8,
                f: FlagsRegister { zero: false, subtraction: false, half_carry: false, carry: false },
            }),
            r.pc == 0,
            r.sp == 0,
            forall|i: int| 0 <= i < 0x10000 ==> r.bus@[i] == 0,
    {
        Cpu { registers: Registers::new(), pc: 0x0000, sp: 0x0000, bus: Bus::new() }
    }

    /// Fetch the right-hand operand for the given addressing mode.
    fn operand_value(&self, target: ArithmeticTarget) -> (r: u8)
        requires
            self.wf(),
        ensures
            r == operand(*self, target),
    {
        match target {
            ArithmeticTarget::A => self.registers.a,
            ArithmeticTarget::B => self.registers.b,
            ArithmeticTarget::C => self.registers.c,
            ArithmeticTarget::D => self.registers.d,
            ArithmeticTarget::E => self.registers.e,
            ArithmeticTarget::H => self.registers.h,
            ArithmeticTarget::L => self.registers.l,
            ArithmeticTarget::HL => self.bus.read_byte(self.registers.read_hl()),
            ArithmeticTarget::D8 => self.bus.read_byte(self.pc.wrapping_add(1)),
        }
    }

    /// The program counter advanced past the current instruction.
    fn advanced_pc(&self, target: ArithmeticTarget) -> (r: u16)
        ensures
            r == next_pc(self.pc, target),
    {
        match target {
            ArithmeticTarget::D8 => self.pc.wrapping_add(2),
            _ => self.pc.wrapping_add(1),
        }
    }

    /// One fetch-decode-execute cycle: on success the returned program
    /// counter is committed into `pc`; on failure nothing changes.
    pub fn run(&mut self) -> (r: Result<(), CpuError>)
        requires
            old(self).wf(),
        ensures
            final(self).wf(),
            *final(self) == spec_step(*old(self)).0,
            r == spec_step(*old(self)).1,
    {
        let opcode = self.bus.read_byte(self.pc);
        match Instruction::from_byte(opcode) {
            None => Err(CpuError::UnknownOpcode { opcode, address: self.pc }),
            Some(instruction) => match self.execute(instruction) {
                Ok(next) => {
                    self.pc = next;
                    Ok(())
                },
                Err(e) => Err(e),
            },
        }
    }

    /// Execute one decoded instruction against the register file and the
    /// bus, returning the next program counter; `pc` itself is left for the
    /// caller to commit. Operations without execution logic change nothing
    /// and return the unimplemented error.
    pub fn execute(&mut self, instruction: Instruction) -> (r: Result<u16, CpuError>)
        requires
            old(self).wf(),
        ensures
            final(self).wf(),
            *final(self) == spec_execute(*old(self), instruction).0,
            r == spec_execute(*old(self), instruction).1,
    {
        match instruction {
            Instruction::ADD(target) => {
                let value = self.operand_value(target);
                let new_value = self.add(value);
                self.registers.a = new_value;
                Ok(self.advanced_pc(target))
            },
            Instruction::ADDC(target) => {
                let value = self.operand_value(target);
                let new_value = self.addc(value);
                self.registers.a = new_value;
                Ok(self.advanced_pc(target))
            },
            Instruction::SUB(_) => Err(CpuError::Unimplemented { instruction }),
            Instruction::SBC(_) => Err(CpuError::Unimplemented { instruction }),
        }
    }

    /// The add operation: returns the wrapped sum of the accumulator and the
    /// operand and sets the four flags; the accumulator itself is written by
    /// the caller.
    pub fn add(&mut self, value: u8) -> (r: u8)
        ensures
            r == spec_add(old(self).registers.a, value).0,
            *final(self) == (Cpu {
                registers: Registers {
                    f: spec_add(old(self).registers.a, value).1,
                    ..old(self).registers
                },
                ..*old(self)
            }),
    {
        let a = self.registers.a;
        let sum: u16 = a as u16 + value as u16;
        let new_value: u8 = (sum % 256) as u8;
        self.registers.f.zero = new_value == 0;
        self.registers.f.subtraction = false;
        self.registers.f.carry = sum > 0xFF;
        self.registers.f.half_carry = a % 16 + value % 16 > 0xF;
        new_value
    }

    /// The add-with-carry operation: folds the incoming carry flag into the
    /// operand first, then adds the folded intermediate to the accumulator;
    /// flags as `spec_addc` states. The accumulator is written by the caller.
    pub fn addc(&mut self, value: u8) -> (r: u8)
        ensures
            r == spec_addc(old(self).registers.a, value, old(self).registers.f.carry).0,
            *final(self) == (Cpu {
                registers: Registers {
                    f: spec_addc(old(self).registers.a, value, old(self).registers.f.carry).1,
                    ..old(self).registers
                },
                ..*old(self)
            }),
    {
        let a = self.registers.a;
        let carry_bit: u8 = if self.registers.f.carry {
            1
        } else {
            0
        };
        let intermediate_sum: u16 = value as u16 + carry_bit as u16;
        let intermediate: u8 = (intermediate_sum % 256) as u8;
        let sum: u16 = a as u16 + intermediate as u16;
        let new_value: u8 = (sum % 256) as u8;
        self.registers.f.zero = new_value == 0;
        self.registers.f.subtraction = false;
        self.registers.f.carry = intermediate_sum > 0xFF || sum > 0xFF;
        self.registers.f.half_carry = a % 16 + intermediate % 16 > 0xF;
        new_value
    }
}

} // verus!
