//! The fetch-decode-execute engine.
//!
//! One `step` reads the opcode at the program counter (consulting the
//! extended opcode table when the prefix sentinel is fetched first), decodes
//! it, executes the instruction's effect on the registers, flags and bus, and
//! stores the instruction's next program-counter value.  An opcode with no
//! table entry is reported and leaves the whole state untouched, so the
//! condition is inspectable and does not corrupt anything.
//!
//! Operand bytes are fetched at addresses that wrap around the top of the
//! 64 KiB address space, so a step is total: it never leaves the bus.

use vstd::prelude::*;

use crate::flags::FlagsRegister;
use crate::instruction::Instruction;
use crate::instruction::JumpTest;
use crate::instruction::Target;
use crate::instruction::spec_from_byte;
use crate::instruction::spec_supported;
use crate::mmu::Mmu;
use crate::registers::Registers;
use crate::registers::spec_get8;
use crate::registers::spec_initial_registers;
use crate::registers::spec_pair;
use crate::registers::spec_set8;
use crate::registers::spec_set_bc;
use crate::registers::spec_set_de;
use crate::registers::spec_set_hl;

verus! {

/// The sentinel byte that switches decoding to the extended opcode table.
pub const PREFIXED_OPCODE: u8 = 0xCB;

/// The processor: the register file, the program counter, the stack pointer
/// and the interrupt-master-enable flag.
#[derive(Debug, Clone, Copy, PartialEq, Eq, Structural)]
pub struct Cpu {
    pub registers: Registers,
    pub pc: u16,
    pub sp: u16,
    pub ime: bool,
}

/// What one step of the engine did: either it executed a decoded
/// instruction, or the fetched opcode byte had no table entry and the step
/// left the processor and the bus untouched.
#[derive(Debug, Clone, Copy, PartialEq, Eq, Structural)]
pub enum StepOutcome {
    Executed,
    UnknownOpcode(u8),
}

/// The byte the bus holds at the address.
pub open spec fn spec_mem_at(mem: Seq<u8>, address: u16) -> u8 {
    mem[address as int]
}

/// Whether the high bit of the value is set: the bit a left rotation evicts.
pub open spec fn spec_msb_set(value: u8) -> bool {
    (value & 0x80) >> 7 == 1
}

/// Whether the low bit of the value is set: the bit a right rotation evicts.
pub open spec fn spec_lsb_set(value: u8) -> bool {
    value & 1 == 1
}

/// Rotate left circular: the evicted high bit wraps into the low position.
pub open spec fn spec_rlc_value(value: u8) -> u8 {
    (value << 1) | ((value & 0x80) >> 7)
}

/// Rotate right circular: the evicted low bit wraps into the high position.
pub open spec fn spec_rrc_value(value: u8) -> u8 {
    (value >> 1) | ((value & 1) << 7)
}

/// Rotate left through carry: the previous carry enters the low position.
pub open spec fn spec_rl_value(value: u8, carry: bool) -> u8 {
    (value << 1) | (if carry { 1u8 } else { 0u8 })
}

/// Rotate right through carry: the previous carry enters the high position.
pub open spec fn spec_rr_value(value: u8, carry: bool) -> u8 {
    (value >> 1) | ((if carry { 1u8 } else { 0u8 }) << 7)
}

/// The register file after an 8-bit accumulator addition: wrapping sum into
/// A; zero from the result, subtract cleared, carry on 8-bit overflow,
/// half-carry when the low nibbles sum past 0xF.
pub open spec fn spec_add(regs: Registers, value: u8) -> Registers {
    let new_value = regs.a.wrapping_add(value);
    Registers {
        a: new_value,
        f: FlagsRegister {
            zero: new_value == 0,
            subtract: false,
            half_carry: (regs.a & 0xF) + (value & 0xF) > 0xF,
            carry: regs.a + value > 0xFF,
        },
        ..regs
    }
}

/// The register file after an 8-bit increment: wraps on overflow, zero from
/// the result, subtract cleared, half-carry when the low nibble was 0xF;
/// the carry flag is left as it was.
pub open spec fn spec_inc8(regs: Registers, target: Target) -> Registers {
    let value = spec_get8(regs, target);
    let new_value = value.wrapping_add(1);
    let updated = spec_set8(regs, target, new_value);
    Registers {
        f: FlagsRegister {
            zero: new_value == 0,
            subtract: false,
            half_carry: (value & 0xF) + 1 > 0xF,
            carry: regs.f.carry,
        },
        ..updated
    }
}

/// The processor after a rotate of the selected register: the register takes
/// the rotated value, carry takes the evicted bit, and the zero flag is
/// recomputed from the result — except for the accumulator, whose rotate
/// leaves the zero flag untouched (a hardware quirk this model preserves).
pub open spec fn spec_apply_rotate(cpu: Cpu, target: Target, new_value: u8, new_carry: bool) -> Cpu {
    let updated = spec_set8(cpu.registers, target, new_value);
    let with_carry = FlagsRegister { carry: new_carry, ..cpu.registers.f };
    let new_flags = if target == Target::A {
        with_carry
    } else {
        FlagsRegister { zero: new_value == 0, ..with_carry }
    };
    Cpu { registers: Registers { f: new_flags, ..updated }, ..cpu }
}

/// Whether the jump condition holds under the given flags.
pub open spec fn spec_jump_taken(test: JumpTest, flags: FlagsRegister) -> bool {
    match test {
        JumpTest::NotZero => !flags.zero,
        JumpTest::Zero => flags.zero,
        JumpTest::NotCarry => !flags.carry,
        JumpTest::Carry => flags.carry,
        JumpTest::Always => true,
    }
}

/// The effect of executing one decoded instruction: the processor afterwards
/// (program counter untouched), the bus afterwards, and the instruction's
/// next program-counter value.
pub open spec fn spec_execute(cpu: Cpu, mem: Seq<u8>, instruction: Instruction) -> (Cpu, Seq<u8>, u16) {
    let pc = cpu.pc;
    let regs = cpu.registers;
    match instruction {
        Instruction::Nop => (cpu, mem, pc.wrapping_add(1)),
        Instruction::Halt => (cpu, mem, pc.wrapping_add(1)),
        Instruction::Load(_) => (
            Cpu {
                sp: spec_pair(
                    spec_mem_at(mem, pc.wrapping_add(2)),
                    spec_mem_at(mem, pc.wrapping_add(1)),
                ),
                ..cpu
            },
            mem,
            pc.wrapping_add(3),
        ),
        Instruction::LoadN8(target) => if target == Target::HL {
            (
                cpu,
                mem.update(
                    spec_pair(regs.h, regs.l) as int,
                    spec_mem_at(mem, pc.wrapping_add(1)),
                ),
                pc.wrapping_add(2),
            )
        } else {
            (
                Cpu {
                    registers: spec_set8(regs, target, spec_mem_at(mem, pc.wrapping_add(1))),
                    ..cpu
                },
                mem,
                pc.wrapping_add(2),
            )
        },
        Instruction::LoadHC => (cpu, mem.update(0xFF00 + regs.c, regs.a), pc.wrapping_add(1)),
        Instruction::LoadHA => (
            Cpu {
                registers: Registers { a: spec_mem_at(mem, (0xFF00 + regs.c) as u16), ..regs },
                ..cpu
            },
            mem,
            pc.wrapping_add(1),
        ),
        Instruction::Inc(target) => match target {
            Target::BC => (
                Cpu {
                    registers: spec_set_bc(regs, spec_pair(regs.b, regs.c).wrapping_add(1)),
                    ..cpu
                },
                mem,
                pc.wrapping_add(1),
            ),
            Target::DE => (
                Cpu {
                    registers: spec_set_de(regs, spec_pair(regs.d, regs.e).wrapping_add(1)),
                    ..cpu
                },
                mem,
                pc.wrapping_add(1),
            ),
            Target::HL => (
                Cpu {
                    registers: spec_set_hl(regs, spec_pair(regs.h, regs.l).wrapping_add(1)),
                    ..cpu
                },
                mem,
                pc.wrapping_add(1),
            ),
            Target::SP => (Cpu { sp: cpu.sp.wrapping_add(1), ..cpu }, mem, pc.wrapping_add(1)),
            _ => (Cpu { registers: spec_inc8(regs, target), ..cpu }, mem, pc.wrapping_add(1)),
        },
        Instruction::IncHl => (
            Cpu {
                registers: spec_set_hl(regs, spec_pair(regs.h, regs.l).wrapping_add(1)),
                ..cpu
            },
            mem,
            pc.wrapping_add(1),
        ),
        Instruction::Add(target) => (
            Cpu { registers: spec_add(regs, spec_get8(regs, target)), ..cpu },
            mem,
            pc.wrapping_add(1),
        ),
        Instruction::AddHl => {
            let hl = spec_pair(regs.h, regs.l);
            let new_value = hl.wrapping_add(hl);
            let updated = spec_set_hl(regs, new_value);
            (
                Cpu {
                    registers: Registers {
                        f: FlagsRegister {
                            zero: new_value == 0,
                            subtract: false,
                            half_carry: (hl & 0xFFF) + (hl & 0xFFF) > 0xFFF,
                            carry: hl + hl > 0xFFFF,
                        },
                        ..updated
                    },
                    ..cpu
                },
                mem,
                pc.wrapping_add(1),
            )
        },
        Instruction::Jump(test) => if !spec_jump_taken(test, regs.f) {
            (cpu, mem, pc.wrapping_add(3))
        } else {
            (
                cpu,
                mem,
                spec_pair(
                    spec_mem_at(mem, pc.wrapping_add(2)),
                    spec_mem_at(mem, pc.wrapping_add(1)),
                ),
            )
        },
        Instruction::JumpHl => (cpu, mem, spec_pair(regs.h, regs.l)),
        Instruction::RotateLeftCircular(target) => {
            let value = spec_get8(regs, target);
            (
                spec_apply_rotate(cpu, target, spec_rlc_value(value), spec_msb_set(value)),
                mem,
                pc.wrapping_add(1),
            )
        },
        Instruction::RotateRightCircular(target) => {
            let value = spec_get8(regs, target);
            (
                spec_apply_rotate(cpu, target, spec_rrc_value(value), spec_lsb_set(value)),
                mem,
                pc.wrapping_add(1),
            )
        },
        Instruction::RotateLeft(target) => {
            let value = spec_get8(regs, target);
            (
                spec_apply_rotate(cpu, target, spec_rl_value(value, regs.f.carry), spec_msb_set(value)),
                mem,
                pc.wrapping_add(1),
            )
        },
        Instruction::RotateRight(target) => {
            let value = spec_get8(regs, target);
            (
                spec_apply_rotate(cpu, target, spec_rr_value(value, regs.f.carry), spec_lsb_set(value)),
                mem,
                pc.wrapping_add(1),
            )
        },
        Instruction::LoadIntoMemory => (
            cpu,
            mem.update(
                spec_pair(
                    spec_mem_at(mem, pc.wrapping_add(2)),
                    spec_mem_at(mem, pc.wrapping_add(1)),
                ) as int,
                regs.a,
            ),
            pc.wrapping_add(3),
        ),
        Instruction::DisableInterrupt => (Cpu { ime: false, ..cpu }, mem, pc.wrapping_add(1)),
        Instruction::EnableInterrupts => (Cpu { ime: true, ..cpu }, mem, pc.wrapping_add(1)),
        Instruction::Restart(address) => {
            let sp1 = cpu.sp.wrapping_sub(1);
            let pushed_high = mem.update(sp1 as int, (cpu.pc >> 8) as u8);
            let sp2 = sp1.wrapping_sub(1);
            let pushed_low = pushed_high.update(sp2 as int, (cpu.pc & 0xFF) as u8);
            (Cpu { sp: sp2, ..cpu }, pushed_low, address)
        },
    }
}

/// Whether the opcode fetch at the program counter hits the prefix sentinel.
pub open spec fn spec_fetch_prefixed(cpu: Cpu, mem: Seq<u8>) -> bool {
    spec_mem_at(mem, cpu.pc) == PREFIXED_OPCODE
}

/// The opcode byte a step decodes: the byte at the program counter, or the
/// byte after it when the prefix sentinel was fetched first.
pub open spec fn spec_fetch_opcode(cpu: Cpu, mem: Seq<u8>) -> u8 {
    if spec_fetch_prefixed(cpu, mem) {
        spec_mem_at(mem, cpu.pc.wrapping_add(1))
    } else {
        spec_mem_at(mem, cpu.pc)
    }
}

/// Whether the opcode a step fetches has no entry in its table.
pub open spec fn spec_step_unknown(cpu: Cpu, mem: Seq<u8>) -> bool {
    spec_from_byte(spec_fetch_opcode(cpu, mem), spec_fetch_prefixed(cpu, mem)) is None
}

/// The processor and bus after one step: unchanged when the opcode has no
/// table entry, otherwise the executed instruction's effect with the program
/// counter stored.
pub open spec fn spec_step_state(cpu: Cpu, mem: Seq<u8>) -> (Cpu, Seq<u8>) {
    match spec_from_byte(spec_fetch_opcode(cpu, mem), spec_fetch_prefixed(cpu, mem)) {
        Option::None => (cpu, mem),
        Option::Some(instruction) => {
            let effect = spec_execute(cpu, mem, instruction);
            (Cpu { pc: effect.2, ..effect.0 }, effect.1)
        },
    }
}

/// The processor and bus after the given number of steps.
pub open spec fn spec_run(cpu: Cpu, mem: Seq<u8>, steps: nat) -> (Cpu, Seq<u8>)
    decreases steps,
{
    if steps == 0 {
        (cpu, mem)
    } else {
        let stepped = spec_step_state(cpu, mem);
        spec_run(stepped.0, stepped.1, (steps - 1) as nat)
    }
}

/// How many of the given number of steps fetch an opcode with no table entry.
pub open spec fn spec_unknown_count(cpu: Cpu, mem: Seq<u8>, steps: nat) -> nat
    decreases steps,
{
    if steps == 0 {
        0
    } else {
        let stepped = spec_step_state(cpu, mem);
        (if spec_step_unknown(cpu, mem) {
            1nat
        } else {
            0nat
        }) + spec_unknown_count(stepped.0, stepped.1, (steps - 1) as nat)
    }
}

/// The low nibble of a byte never exceeds 0xF.
proof fn lemma_low_nibble_bound(value: u8)
    ensures
        value & 0xF <= 0xF,
{
    assert(value & 0xF <= 0xF) by (bit_vector);
}

/// The low twelve bits of a word never exceed 0xFFF.
proof fn lemma_low_twelve_bound(value: u16)
    ensures
        value & 0xFFF <= 0xFFF,
{
    assert(value & 0xFFF <= 0xFFF) by (bit_vector);
}

impl Cpu {
    /// The processor at power-on: registers cleared, execution starting at
    /// 0x100, the stack pointer at the top of RAM, interrupts disabled.
    pub fn new() -> (cpu: Self)
        ensures
            cpu.registers == spec_initial_registers(),
            cpu.pc == 0x100u16,
            cpu.sp == 0xFFFEu16,
            cpu.ime == false,
    {
        Cpu { registers: Registers::new(), pc: 0x100, sp: 0xFFFE, ime: false }
    }

    /// One fetch-decode-execute step.
    ///
    /// When the fetched opcode (after following the prefix sentinel, whose
    /// second byte is read without advancing the program counter) has no
    /// table entry, the step reports it and leaves the processor and the bus
    /// byte-for-byte unchanged: the engine cannot know the instruction's
    /// length, so it does not advance.
    pub fn step(&mut self, mmu: &mut Mmu) -> (outcome: StepOutcome)
        requires
            old(mmu).wf(),
        ensures
            final(mmu).wf(),
            *final(self) == spec_step_state(*old(self), old(mmu)@).0,
            final(mmu)@ == spec_step_state(*old(self), old(mmu)@).1,
            outcome == (if spec_step_unknown(*old(self), old(mmu)@) {
                StepOutcome::UnknownOpcode(spec_fetch_opcode(*old(self), old(mmu)@))
            } else {
                StepOutcome::Executed
            }),
            spec_step_unknown(*old(self), old(mmu)@) ==> *final(self) == *old(self)
                && final(mmu)@ == old(mmu)@,
    {
        let mut instruction_byte = mmu.read_byte(self.pc);
        let prefixed = instruction_byte == PREFIXED_OPCODE;
        if prefixed {
            instruction_byte = mmu.read_byte(self.pc.wrapping_add(1));
        }

        match Instruction::from_byte(instruction_byte, prefixed) {
            Some(instruction) => {
                let next_pc = self.execute_instruction(mmu, instruction);
                self.pc = next_pc;
                StepOutcome::Executed
            },
            None => StepOutcome::UnknownOpcode(instruction_byte),
        }
    }

    /// Executes one decoded instruction: performs its effect on the
    /// registers, flags and bus, and returns the instruction's next
    /// program-counter value (which the caller stores).  The program counter
    /// itself is not modified here.
    #[verifier::rlimit(100)]
    pub fn execute_instruction(&mut self, mmu: &mut Mmu, instruction: Instruction) -> (next_pc: u16)
        requires
            old(mmu).wf(),
            spec_supported(instruction),
        ensures
            final(mmu).wf(),
            *final(self) == spec_execute(*old(self), old(mmu)@, instruction).0,
            final(mmu)@ == spec_execute(*old(self), old(mmu)@, instruction).1,
            next_pc == spec_execute(*old(self), old(mmu)@, instruction).2,
    {
        match instruction {
            Instruction::Nop => self.pc.wrapping_add(1),
            Instruction::Halt => self.pc.wrapping_add(1),
            Instruction::Load(target) => {
                match target {
                    Target::SP => {
                        let most_significant_byte = mmu.read_byte(self.pc.wrapping_add(2)) as u16;
                        let least_significant_byte = mmu.read_byte(self.pc.wrapping_add(1)) as u16;
                        self.sp = (most_significant_byte << 8) | least_significant_byte;
                    },
                    _ => {},
                }
                self.pc.wrapping_add(3)
            },
            Instruction::LoadN8(target) => {
                match target {
                    Target::HL => {
                        let value = mmu.read_byte(self.pc.wrapping_add(1));
                        let address = self.registers.get_hl();
                        mmu.set_byte(address, value);
                    },
                    _ => {
                        let value = mmu.read_byte(self.pc.wrapping_add(1));
                        self.registers.set8(target, value);
                    },
                }
                self.pc.wrapping_add(2)
            },
            Instruction::LoadHC => {
                mmu.set_byte(0xFF00 + self.registers.c as u16, self.registers.a);
                self.pc.wrapping_add(1)
            },
            Instruction::LoadHA => {
                self.registers.a = mmu.read_byte(0xFF00 + self.registers.c as u16);
                self.pc.wrapping_add(1)
            },
            Instruction::Inc(target) => {
                match target {
                    Target::BC => {
                        let value = self.registers.get_bc();
                        self.registers.set_bc(value.wrapping_add(1));
                    },
                    Target::DE => {
                        let value = self.registers.get_de();
                        self.registers.set_de(value.wrapping_add(1));
                    },
                    Target::HL => {
                        let value = self.registers.get_hl();
                        self.registers.set_hl(value.wrapping_add(1));
                    },
                    Target::SP => {
                        self.sp = self.sp.wrapping_add(1);
                    },
                    _ => {
                        let value = self.registers.get8(target);
                        let new_value = value.wrapping_add(1);
                        self.registers.set8(target, new_value);
                        self.registers.f.zero = new_value == 0;
                        self.registers.f.subtract = false;
                        proof {
                            lemma_low_nibble_bound(value);
                        }
                        self.registers.f.half_carry = (value & 0xF) + 1 > 0xF;
                    },
                }
                self.pc.wrapping_add(1)
            },
            Instruction::IncHl => {
                let value = self.registers.get_hl();
                self.registers.set_hl(value.wrapping_add(1));
                self.pc.wrapping_add(1)
            },
            Instruction::Add(target) => {
                let value = self.registers.get8(target);
                self.add(value);
                self.pc.wrapping_add(1)
            },
            Instruction::AddHl => {
                let hl = self.registers.get_hl();
                let new_value = hl.wrapping_add(hl);
                self.registers.f.zero = new_value == 0;
                self.registers.f.subtract = false;
                self.registers.f.carry = (hl as u32) + (hl as u32) > 0xFFFF;
                proof {
                    lemma_low_twelve_bound(hl);
                }
                self.registers.f.half_carry = (hl & 0xFFF) + (hl & 0xFFF) > 0xFFF;
                self.registers.set_hl(new_value);
                self.pc.wrapping_add(1)
            },
            Instruction::Jump(test) => {
                let should_jump = match test {
                    JumpTest::NotZero => !self.registers.f.zero,
                    JumpTest::Zero => self.registers.f.zero,
                    JumpTest::NotCarry => !self.registers.f.carry,
                    JumpTest::Carry => self.registers.f.carry,
                    JumpTest::Always => true,
                };

                if !should_jump {
                    self.pc.wrapping_add(3)
                } else {
                    let most_significant_byte = mmu.read_byte(self.pc.wrapping_add(2)) as u16;
                    let least_significant_byte = mmu.read_byte(self.pc.wrapping_add(1)) as u16;
                    (most_significant_byte << 8) | least_significant_byte
                }
            },
            Instruction::JumpHl => self.registers.get_hl(),
            Instruction::RotateLeftCircular(target) => {
                let value = self.registers.get8(target);
                let msb = (value & 0b1000_0000) >> 7;
                let new_value = (value << 1) | msb;
                self.registers.set8(target, new_value);
                self.registers.f.carry = msb == 1;
                match target {
                    Target::A => {},
                    _ => {
                        self.registers.f.zero = new_value == 0;
                    },
                }
                self.pc.wrapping_add(1)
            },
            Instruction::RotateRightCircular(target) => {
                let value = self.registers.get8(target);
                let lsb = value & 0b0000_0001;
                let new_value = (value >> 1) | (lsb << 7);
                self.registers.set8(target, new_value);
                self.registers.f.carry = lsb == 1;
                match target {
                    Target::A => {},
                    _ => {
                        self.registers.f.zero = new_value == 0;
                    },
                }
                self.pc.wrapping_add(1)
            },
            Instruction::RotateLeft(target) => {
                let carry_in: u8 = if self.registers.f.carry { 1 } else { 0 };
                let value = self.registers.get8(target);
                let msb = (value & 0b1000_0000) >> 7;
                let new_value = (value << 1) | carry_in;
                self.registers.set8(target, new_value);
                self.registers.f.carry = msb == 1;
                match target {
                    Target::A => {},
                    _ => {
                        self.registers.f.zero = new_value == 0;
                    },
                }
                self.pc.wrapping_add(1)
            },
            Instruction::RotateRight(target) => {
                let carry_in: u8 = if self.registers.f.carry { 1 } else { 0 };
                let value = self.registers.get8(target);
                let lsb = value & 0b0000_0001;
                let new_value = (value >> 1) | (carry_in << 7);
                self.registers.set8(target, new_value);
                self.registers.f.carry = lsb == 1;
                match target {
                    Target::A => {},
                    _ => {
                        self.registers.f.zero = new_value == 0;
                    },
                }
                self.pc.wrapping_add(1)
            },
            Instruction::LoadIntoMemory => {
                let low = mmu.read_byte(self.pc.wrapping_add(1)) as u16;
                let high = mmu.read_byte(self.pc.wrapping_add(2)) as u16;
                let address = (high << 8) | low;
                mmu.set_byte(address, self.registers.a);
                self.pc.wrapping_add(3)
            },
            Instruction::DisableInterrupt => {
                self.ime = false;
                self.pc.wrapping_add(1)
            },
            Instruction::EnableInterrupts => {
                self.ime = true;
                self.pc.wrapping_add(1)
            },
            Instruction::Restart(address) => {
                self.sp = self.sp.wrapping_sub(1);
                mmu.set_byte(self.sp, (self.pc >> 8) as u8);
                self.sp = self.sp.wrapping_sub(1);
                mmu.set_byte(self.sp, (self.pc & 0xFF) as u8);
                address
            },
        }
    }

    /// Adds a value to the accumulator: wrapping sum, zero from the result,
    /// subtract cleared, carry on 8-bit overflow, half-carry when the low
    /// nibbles of the two operands sum past 0xF.
    pub fn add(&mut self, value: u8)
        ensures
            *final(self) == (Cpu { registers: spec_add(old(self).registers, value), ..*old(self) }),
    {
        let a = self.registers.a;
        let new_value = a.wrapping_add(value);
        self.registers.f.zero = new_value == 0;
        self.registers.f.subtract = false;
        self.registers.f.carry = (a as u16) + (value as u16) > 0xFF;
        proof {
            lemma_low_nibble_bound(a);
            lemma_low_nibble_bound(value);
        }
        self.registers.f.half_carry = (a & 0xF) + (value & 0xF) > 0xF;
        self.registers.a = new_value;
    }
}

} // verus!
