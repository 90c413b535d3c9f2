use vstd::prelude::*;

use crate::errors::EmuError;
use crate::flags::{
    flags_of_byte, spec_carry_add, spec_carry_sub, spec_half_carry_add, spec_half_carry_sub,
    spec_zero, RegF,
};
use crate::memory::Memory;
use crate::step::{
    exec_op_00_1f, exec_op_20_3f, exec_op_40_bf, exec_op_c0_ff, rel_target, step_spec,
    INTERRUPT_LATCH, LATCH_CLEAR, LATCH_SET,
};
use crate::words::{pair16, word_hi, word_lo};

verus! {

/// The CPU register file: program counter, stack pointer, accumulator with
/// the flag unit, and three register pairs of independently addressable
/// 8-bit halves. Every 8-bit operation wraps modulo 256 and every 16-bit
/// operation wraps modulo 65536; no register operation can fault.
#[derive(Clone, Copy, Debug, PartialEq, Eq, Structural)]
pub struct Cpu {
    /// A step counter for the host driver; the dispatcher never touches it.
    pub clock: u8,
    /// Program counter.
    pub pc: u16,
    /// Stack pointer: always the next free slot below the logical top.
    pub sp: u16,
    /// Accumulator.
    pub a: u8,
    /// The condition flags, the other half of the AF pair.
    pub f: RegF,
    /// High half of the BC pair.
    pub b: u8,
    /// Low half of the BC pair.
    pub c: u8,
    /// High half of the DE pair.
    pub d: u8,
    /// Low half of the DE pair.
    pub e: u8,
    /// High half of the HL pair.
    pub h: u8,
    /// Low half of the HL pair.
    pub l: u8,
}

impl Cpu {
    /// The documented reset state: execution starts at 0x0100 with the stack
    /// at 0xFFFE; every other register holds zero.
    pub open spec fn initial() -> Cpu {
        Cpu {
            clock: 0,
            pc: 0x0100,
            sp: 0xFFFE,
            a: 0,
            f: RegF { z: false, n: false, h: false, c: false },
            b: 0,
            c: 0,
            d: 0,
            e: 0,
            h: 0,
            l: 0,
        }
    }

    /// The BC pair read as one 16-bit value.
    pub open spec fn bc(self) -> u16 {
        pair16(self.b, self.c)
    }

    /// The DE pair read as one 16-bit value.
    pub open spec fn de(self) -> u16 {
        pair16(self.d, self.e)
    }

    /// The HL pair read as one 16-bit value.
    pub open spec fn hl(self) -> u16 {
        pair16(self.h, self.l)
    }

    /// A CPU in the documented reset state.
    pub fn new() -> (cpu: Cpu)
        ensures
            cpu == Cpu::initial(),
    {
        Cpu {
            clock: 0,
            pc: 0x0100,
            sp: 0xFFFE,
            a: 0,
            f: RegF::clear(),
            b: 0,
            c: 0,
            d: 0,
            e: 0,
            h: 0,
            l: 0,
        }
    }

    /// Compose two register halves into the 16-bit value of their pair,
    /// high half times 256 plus low half.
    pub fn read_reg_16(&self, reg_hi: u8, reg_lo: u8) -> (r: u16)
        ensures
            r == pair16(reg_hi, reg_lo),
    {
        (reg_hi as u16) * 0x100 + (reg_lo as u16)
    }

    /// Write the AF pair: the high byte goes to the accumulator, the high
    /// nibble of the low byte to the flags.
    pub fn write_af(&mut self, data: u16)
        ensures
            *final(self) == (Cpu {
                a: word_hi(data),
                f: flags_of_byte(word_lo(data)),
                ..*old(self)
            }),
    {
        self.a = (data / 0x100) as u8;
        self.f.write((data % 0x100) as u8);
    }

    /// Write the BC pair from one 16-bit value.
    pub fn write_bc(&mut self, data: u16)
        ensures
            *final(self) == (Cpu { b: word_hi(data), c: word_lo(data), ..*old(self) }),
    {
        self.b = (data / 0x100) as u8;
        self.c = (data % 0x100) as u8;
    }

    /// Write the DE pair from one 16-bit value.
    pub fn write_de(&mut self, data: u16)
        ensures
            *final(self) == (Cpu { d: word_hi(data), e: word_lo(data), ..*old(self) }),
    {
        self.d = (data / 0x100) as u8;
        self.e = (data % 0x100) as u8;
    }

    /// Write the HL pair from one 16-bit value.
    pub fn write_hl(&mut self, data: u16)
        ensures
            *final(self) == (Cpu { h: word_hi(data), l: word_lo(data), ..*old(self) }),
    {
        self.h = (data / 0x100) as u8;
        self.l = (data % 0x100) as u8;
    }

    /// Rotate a value left through the carry flag: the old carry becomes bit
    /// 0 of the result, bit 7 of the value becomes the new carry. Negative
    /// and half-carry are cleared; zero is left for the caller, whose
    /// documented pattern decides it.
    pub fn rotate_left(&mut self, value: u8) -> (r: u8)
        ensures
            r == spec_rotate_left(value, old(self).f.c),
            *final(self) == (Cpu {
                f: RegF { n: false, h: false, c: value >= 0x80, ..old(self).f },
                ..*old(self)
            }),
    {
        let mut result: u8 = value.wrapping_mul(2);
        if self.f.c {
            result = result + 1;
        }
        self.f.c = value >= 0x80;
        self.f.n = false;
        self.f.h = false;
        result
    }

    /// True iff an 8-bit result is zero.
    pub fn zero(&self, val: u8) -> (r: bool)
        ensures
            r == spec_zero(val),
    {
        val == 0
    }

    /// True iff adding the low nibbles of `lhs` and `rhs` carries out of
    /// bit 3.
    pub fn half_carry_addition(&self, lhs: u8, rhs: u8) -> (r: bool)
        ensures
            r == spec_half_carry_add(lhs, rhs),
    {
        lhs % 16 + rhs % 16 > 15
    }

    /// True iff subtracting the low nibble of `rhs` from that of `lhs`
    /// borrows out of bit 4.
    pub fn half_carry_subtraction(&self, lhs: u8, rhs: u8) -> (r: bool)
        ensures
            r == spec_half_carry_sub(lhs, rhs),
    {
        lhs % 16 < rhs % 16
    }

    /// True iff the unsigned 16-bit sum `lhs + rhs` exceeds 0xFF.
    pub fn carry(&self, lhs: u8, rhs: u8) -> (r: bool)
        ensures
            r == spec_carry_add(lhs, rhs),
    {
        lhs as u16 + rhs as u16 > 0xFF
    }

    /// True iff the unsigned 8-bit subtraction `lhs - rhs` borrows.
    pub fn carry_subtraction(&self, lhs: u8, rhs: u8) -> (r: bool)
        ensures
            r == spec_carry_sub(lhs, rhs),
    {
        lhs < rhs
    }

    /// One step of the fetch-decode-execute loop: fetch the opcode at the
    /// program counter, decode it against the primary table (and the
    /// extended table behind the CB prefix), execute it, and advance the
    /// program counter by exactly the bytes consumed. The whole effect is
    /// the step model `step_spec`; on a fault the machine is left exactly as
    /// it was, so a host can report the fault with full CPU-state context.
    pub fn process(&mut self, memory: &mut Memory) -> (r: Result<(), EmuError>)
        requires
            old(memory).wf(),
        ensures
            final(memory).wf(),
            final(memory).rom@ == old(memory).rom@,
            match step_spec(*old(self), old(memory).contents@, old(memory).rom@) {
                Ok(out) => r == Ok::<(), EmuError>(()) && *final(self) == out.0
                    && final(memory).contents@ == out.1,
                Err(e) => r == Err::<(), EmuError>(e) && *final(self) == *old(self)
                    && final(memory).contents@ == old(memory).contents@,
            },
    {
        let opcode = match memory.read_address(self.pc) {
            Ok(v) => v,
            Err(e) => {
                return Err(e);
            },
        };
        if opcode < 0x20 {
            self.op_00_1f(memory, opcode)
        } else if opcode < 0x40 {
            self.op_20_3f(memory, opcode)
        } else if opcode < 0xC0 {
            self.op_40_bf(memory, opcode)
        } else {
            self.op_c0_ff(memory, opcode)
        }
    }

    /// Execute an instruction of the first table quarter, opcodes 0x00
    /// through 0x1F.
    #[verifier::rlimit(100)]
    #[verifier::spinoff_prover]
    fn op_00_1f(&mut self, memory: &mut Memory, op: u8) -> (r: Result<(), EmuError>)
        requires
            old(memory).wf(),
            op < 0x20,
        ensures
            final(memory).wf(),
            final(memory).rom@ == old(memory).rom@,
            match exec_op_00_1f(*old(self), old(memory).contents@, old(memory).rom@, op) {
                Ok(out) => r == Ok::<(), EmuError>(()) && *final(self) == out.0
                    && final(memory).contents@ == out.1,
                Err(e) => r == Err::<(), EmuError>(e) && *final(self) == *old(self)
                    && final(memory).contents@ == old(memory).contents@,
            },
    {
        proof {
            reveal(exec_op_00_1f);
        }
        match op {
            // NOP
            0x00 => {
                self.pc = self.pc.wrapping_add(1);
                Ok(())
            },
            // LD BC, d16
            0x01 => {
                let data = match memory.read_16(self.pc.wrapping_add(1)) {
                    Ok(v) => v,
                    Err(e) => {
                        return Err(e);
                    },
                };
                self.write_bc(data);
                self.pc = self.pc.wrapping_add(3);
                Ok(())
            },
            // LD (BC), A
            0x02 => {
                let addr = self.read_reg_16(self.b, self.c);
                match memory.write_address(addr, self.a) {
                    Ok(()) => {},
                    Err(e) => {
                        return Err(e);
                    },
                }
                self.pc = self.pc.wrapping_add(1);
                Ok(())
            },
            // INC BC
            0x03 => {
                let data = self.read_reg_16(self.b, self.c).wrapping_add(1);
                self.write_bc(data);
                self.pc = self.pc.wrapping_add(1);
                Ok(())
            },
            // INC B: Z 0 H -
            0x04 => {
                let val = self.b;
                self.f.z = self.zero(val.wrapping_add(1));
                self.f.n = false;
                self.f.h = self.half_carry_addition(val, 1);
                self.b = val.wrapping_add(1);
                self.pc = self.pc.wrapping_add(1);
                Ok(())
            },
            // DEC B: Z 1 H -
            0x05 => {
                let val = self.b;
                self.f.z = self.zero(val.wrapping_sub(1));
                self.f.n = true;
                self.f.h = self.half_carry_subtraction(val, 1);
                self.b = val.wrapping_sub(1);
                self.pc = self.pc.wrapping_add(1);
                Ok(())
            },
            // LD B, d8
            0x06 => {
                let data = match memory.read_address(self.pc.wrapping_add(1)) {
                    Ok(v) => v,
                    Err(e) => {
                        return Err(e);
                    },
                };
                self.b = data;
                self.pc = self.pc.wrapping_add(2);
                Ok(())
            },
            // DEC BC
            0x0B => {
                let data = self.read_reg_16(self.b, self.c).wrapping_sub(1);
                self.write_bc(data);
                self.pc = self.pc.wrapping_add(1);
                Ok(())
            },
            // INC C: Z 0 H -
            0x0C => {
                let val = self.c;
                self.f.z = self.zero(val.wrapping_add(1));
                self.f.n = false;
                self.f.h = self.half_carry_addition(val, 1);
                self.c = val.wrapping_add(1);
                self.pc = self.pc.wrapping_add(1);
                Ok(())
            },
            // DEC C: Z 1 H -
            0x0D => {
                let val = self.c;
                self.f.z = self.zero(val.wrapping_sub(1));
                self.f.n = true;
                self.f.h = self.half_carry_subtraction(val, 1);
                self.c = val.wrapping_sub(1);
                self.pc = self.pc.wrapping_add(1);
                Ok(())
            },
            // LD C, d8
            0x0E => {
                let data = match memory.read_address(self.pc.wrapping_add(1)) {
                    Ok(v) => v,
                    Err(e) => {
                        return Err(e);
                    },
                };
                self.c = data;
                self.pc = self.pc.wrapping_add(2);
                Ok(())
            },
            // LD DE, d16
            0x11 => {
                let data = match memory.read_16(self.pc.wrapping_add(1)) {
                    Ok(v) => v,
                    Err(e) => {
                        return Err(e);
                    },
                };
                self.write_de(data);
                self.pc = self.pc.wrapping_add(3);
                Ok(())
            },
            // INC DE
            0x13 => {
                let data = self.read_reg_16(self.d, self.e).wrapping_add(1);
                self.write_de(data);
                self.pc = self.pc.wrapping_add(1);
                Ok(())
            },
            // DEC D: Z 1 H -
            0x15 => {
                let val = self.d;
                self.f.z = self.zero(val.wrapping_sub(1));
                self.f.n = true;
                self.f.h = self.half_carry_subtraction(val, 1);
                self.d = val.wrapping_sub(1);
                self.pc = self.pc.wrapping_add(1);
                Ok(())
            },
            // LD D, d8
            0x16 => {
                let data = match memory.read_address(self.pc.wrapping_add(1)) {
                    Ok(v) => v,
                    Err(e) => {
                        return Err(e);
                    },
                };
                self.d = data;
                self.pc = self.pc.wrapping_add(2);
                Ok(())
            },
            // RLA: 0 0 0 C
            0x17 => {
                let val = self.a;
                self.a = self.rotate_left(val);
                self.f.z = false;
                self.pc = self.pc.wrapping_add(1);
                Ok(())
            },
            // JR r8
            0x18 => {
                let off = match memory.read_address(self.pc.wrapping_add(1)) {
                    Ok(v) => v,
                    Err(e) => {
                        return Err(e);
                    },
                };
                self.pc = rel_jump(self.pc, off);
                Ok(())
            },
            // LD A, (DE)
            0x1A => {
                let addr = self.read_reg_16(self.d, self.e);
                let data = match memory.read_address(addr) {
                    Ok(v) => v,
                    Err(e) => {
                        return Err(e);
                    },
                };
                self.a = data;
                self.pc = self.pc.wrapping_add(1);
                Ok(())
            },
            // DEC E: Z 1 H -
            0x1D => {
                let val = self.e;
                self.f.z = self.zero(val.wrapping_sub(1));
                self.f.n = true;
                self.f.h = self.half_carry_subtraction(val, 1);
                self.e = val.wrapping_sub(1);
                self.pc = self.pc.wrapping_add(1);
                Ok(())
            },
            // LD E, d8
            0x1E => {
                let data = match memory.read_address(self.pc.wrapping_add(1)) {
                    Ok(v) => v,
                    Err(e) => {
                        return Err(e);
                    },
                };
                self.e = data;
                self.pc = self.pc.wrapping_add(2);
                Ok(())
            },
            _ => Err(EmuError::Decode { opcode: op, extended: false, pc: self.pc }),
        }
    }

    /// Execute an instruction of the second table quarter, opcodes 0x20
    /// through 0x3F.
    #[verifier::rlimit(100)]
    #[verifier::spinoff_prover]
    fn op_20_3f(&mut self, memory: &mut Memory, op: u8) -> (r: Result<(), EmuError>)
        requires
            old(memory).wf(),
            0x20 <= op < 0x40,
        ensures
            final(memory).wf(),
            final(memory).rom@ == old(memory).rom@,
            match exec_op_20_3f(*old(self), old(memory).contents@, old(memory).rom@, op) {
                Ok(out) => r == Ok::<(), EmuError>(()) && *final(self) == out.0
                    && final(memory).contents@ == out.1,
                Err(e) => r == Err::<(), EmuError>(e) && *final(self) == *old(self)
                    && final(memory).contents@ == old(memory).contents@,
            },
    {
        proof {
            reveal(exec_op_20_3f);
        }
        match op {
            // JR NZ, r8
            0x20 => {
                if !self.f.z {
                    let off = match memory.read_address(self.pc.wrapping_add(1)) {
                        Ok(v) => v,
                        Err(e) => {
                            return Err(e);
                        },
                    };
                    self.pc = rel_jump(self.pc, off);
                } else {
                    self.pc = self.pc.wrapping_add(2);
                }
                Ok(())
            },
            // LD HL, d16
            0x21 => {
                let data = match memory.read_16(self.pc.wrapping_add(1)) {
                    Ok(v) => v,
                    Err(e) => {
                        return Err(e);
                    },
                };
                self.write_hl(data);
                self.pc = self.pc.wrapping_add(3);
                Ok(())
            },
            // LD (HL+), A
            0x22 => {
                let addr = self.read_reg_16(self.h, self.l);
                match memory.write_address(addr, self.a) {
                    Ok(()) => {},
                    Err(e) => {
                        return Err(e);
                    },
                }
                self.write_hl(addr.wrapping_add(1));
                self.pc = self.pc.wrapping_add(1);
                Ok(())
            },
            // INC HL
            0x23 => {
                let data = self.read_reg_16(self.h, self.l).wrapping_add(1);
                self.write_hl(data);
                self.pc = self.pc.wrapping_add(1);
                Ok(())
            },
            // INC H: Z 0 H -
            0x24 => {
                let val = self.h;
                self.f.z = self.zero(val.wrapping_add(1));
                self.f.n = false;
                self.f.h = self.half_carry_addition(val, 1);
                self.h = val.wrapping_add(1);
                self.pc = self.pc.wrapping_add(1);
                Ok(())
            },
            // JR Z, r8
            0x28 => {
                if self.f.z {
                    let off = match memory.read_address(self.pc.wrapping_add(1)) {
                        Ok(v) => v,
                        Err(e) => {
                            return Err(e);
                        },
                    };
                    self.pc = rel_jump(self.pc, off);
                } else {
                    self.pc = self.pc.wrapping_add(2);
                }
                Ok(())
            },
            // LD A, (HL+)
            0x2A => {
                let addr = self.read_reg_16(self.h, self.l);
                let data = match memory.read_address(addr) {
                    Ok(v) => v,
                    Err(e) => {
                        return Err(e);
                    },
                };
                self.a = data;
                self.write_hl(addr.wrapping_add(1));
                self.pc = self.pc.wrapping_add(1);
                Ok(())
            },
            // LD L, d8
            0x2E => {
                let data = match memory.read_address(self.pc.wrapping_add(1)) {
                    Ok(v) => v,
                    Err(e) => {
                        return Err(e);
                    },
                };
                self.l = data;
                self.pc = self.pc.wrapping_add(2);
                Ok(())
            },
            // CPL: - 1 1 -
            0x2F => {
                self.a = !self.a;
                self.f.n = true;
                self.f.h = true;
                self.pc = self.pc.wrapping_add(1);
                Ok(())
            },
            // LD SP, d16
            0x31 => {
                let data = match memory.read_16(self.pc.wrapping_add(1)) {
                    Ok(v) => v,
                    Err(e) => {
                        return Err(e);
                    },
                };
                self.sp = data;
                self.pc = self.pc.wrapping_add(3);
                Ok(())
            },
            // LD (HL-), A
            0x32 => {
                let addr = self.read_reg_16(self.h, self.l);
                match memory.write_address(addr, self.a) {
                    Ok(()) => {},
                    Err(e) => {
                        return Err(e);
                    },
                }
                self.write_hl(addr.wrapping_sub(1));
                self.pc = self.pc.wrapping_add(1);
                Ok(())
            },
            // INC (HL): Z 0 H -
            0x34 => {
                let addr = self.read_reg_16(self.h, self.l);
                let val = match memory.read_address(addr) {
                    Ok(v) => v,
                    Err(e) => {
                        return Err(e);
                    },
                };
                match memory.write_address(addr, val.wrapping_add(1)) {
                    Ok(()) => {},
                    Err(e) => {
                        return Err(e);
                    },
                }
                self.f.z = self.zero(val.wrapping_add(1));
                self.f.n = false;
                self.f.h = self.half_carry_addition(val, 1);
                self.pc = self.pc.wrapping_add(1);
                Ok(())
            },
            // LD (HL), d8
            0x36 => {
                let data = match memory.read_address(self.pc.wrapping_add(1)) {
                    Ok(v) => v,
                    Err(e) => {
                        return Err(e);
                    },
                };
                let addr = self.read_reg_16(self.h, self.l);
                match memory.write_address(addr, data) {
                    Ok(()) => {},
                    Err(e) => {
                        return Err(e);
                    },
                }
                self.pc = self.pc.wrapping_add(2);
                Ok(())
            },
            // INC A: Z 0 H -
            0x3C => {
                let val = self.a;
                self.f.z = self.zero(val.wrapping_add(1));
                self.f.n = false;
                self.f.h = self.half_carry_addition(val, 1);
                self.a = val.wrapping_add(1);
                self.pc = self.pc.wrapping_add(1);
                Ok(())
            },
            // DEC A: Z 1 H -
            0x3D => {
                let val = self.a;
                self.f.z = self.zero(val.wrapping_sub(1));
                self.f.n = true;
                self.f.h = self.half_carry_subtraction(val, 1);
                self.a = val.wrapping_sub(1);
                self.pc = self.pc.wrapping_add(1);
                Ok(())
            },
            // LD A, d8
            0x3E => {
                let data = match memory.read_address(self.pc.wrapping_add(1)) {
                    Ok(v) => v,
                    Err(e) => {
                        return Err(e);
                    },
                };
                self.a = data;
                self.pc = self.pc.wrapping_add(2);
                Ok(())
            },
            _ => Err(EmuError::Decode { opcode: op, extended: false, pc: self.pc }),
        }
    }

    /// Execute an instruction of the middle table half, opcodes 0x40
    /// through 0xBF.
    #[verifier::rlimit(100)]
    #[verifier::spinoff_prover]
    fn op_40_bf(&mut self, memory: &mut Memory, op: u8) -> (r: Result<(), EmuError>)
        requires
            old(memory).wf(),
            0x40 <= op < 0xC0,
        ensures
            final(memory).wf(),
            final(memory).rom@ == old(memory).rom@,
            match exec_op_40_bf(*old(self), old(memory).contents@, old(memory).rom@, op) {
                Ok(out) => r == Ok::<(), EmuError>(()) && *final(self) == out.0
                    && final(memory).contents@ == out.1,
                Err(e) => r == Err::<(), EmuError>(e) && *final(self) == *old(self)
                    && final(memory).contents@ == old(memory).contents@,
            },
    {
        proof {
            reveal(exec_op_40_bf);
        }
        match op {
            // LD C, A
            0x4F => {
                self.c = self.a;
                self.pc = self.pc.wrapping_add(1);
                Ok(())
            },
            // LD D, A
            0x57 => {
                self.d = self.a;
                self.pc = self.pc.wrapping_add(1);
                Ok(())
            },
            // LD H, A
            0x67 => {
                self.h = self.a;
                self.pc = self.pc.wrapping_add(1);
                Ok(())
            },
            // LD (HL), A
            0x77 => {
                let addr = self.read_reg_16(self.h, self.l);
                match memory.write_address(addr, self.a) {
                    Ok(()) => {},
                    Err(e) => {
                        return Err(e);
                    },
                }
                self.pc = self.pc.wrapping_add(1);
                Ok(())
            },
            // LD A, B
            0x78 => {
                self.a = self.b;
                self.pc = self.pc.wrapping_add(1);
                Ok(())
            },
            // LD A, E
            0x7B => {
                self.a = self.e;
                self.pc = self.pc.wrapping_add(1);
                Ok(())
            },
            // LD A, H
            0x7C => {
                self.a = self.h;
                self.pc = self.pc.wrapping_add(1);
                Ok(())
            },
            // LD A, L
            0x7D => {
                self.a = self.l;
                self.pc = self.pc.wrapping_add(1);
                Ok(())
            },
            // ADD A, B: Z 0 H C
            0x80 => {
                let val = self.b;
                self.f.z = self.zero(self.a.wrapping_add(val));
                self.f.n = false;
                self.f.h = self.half_carry_addition(self.a, val);
                self.f.c = self.carry(self.a, val);
                self.a = self.a.wrapping_add(val);
                self.pc = self.pc.wrapping_add(1);
                Ok(())
            },
            // ADD A, (HL): Z 0 H C
            0x86 => {
                let addr = self.read_reg_16(self.h, self.l);
                let val = match memory.read_address(addr) {
                    Ok(v) => v,
                    Err(e) => {
                        return Err(e);
                    },
                };
                self.f.z = self.zero(self.a.wrapping_add(val));
                self.f.n = false;
                self.f.h = self.half_carry_addition(self.a, val);
                self.f.c = self.carry(self.a, val);
                self.a = self.a.wrapping_add(val);
                self.pc = self.pc.wrapping_add(1);
                Ok(())
            },
            // SUB B: Z 1 H C
            0x90 => {
                let val = self.b;
                self.f.z = self.zero(self.a.wrapping_sub(val));
                self.f.n = true;
                self.f.h = self.half_carry_subtraction(self.a, val);
                self.f.c = self.carry_subtraction(self.a, val);
                self.a = self.a.wrapping_sub(val);
                self.pc = self.pc.wrapping_add(1);
                Ok(())
            },
            // XOR A: Z 0 0 0
            0xAF => {
                self.a = 0x00;
                self.f.z = true;
                self.f.n = false;
                self.f.h = false;
                self.f.c = false;
                self.pc = self.pc.wrapping_add(1);
                Ok(())
            },
            // OR B: Z 0 0 0
            0xB0 => {
                let data = self.a | self.b;
                self.a = data;
                self.f.z = self.zero(data);
                self.f.n = false;
                self.f.h = false;
                self.f.c = false;
                self.pc = self.pc.wrapping_add(1);
                Ok(())
            },
            // OR C: Z 0 0 0
            0xB1 => {
                let data = self.a | self.c;
                self.a = data;
                self.f.z = self.zero(data);
                self.f.n = false;
                self.f.h = false;
                self.f.c = false;
                self.pc = self.pc.wrapping_add(1);
                Ok(())
            },
            // CP (HL): Z 1 H C
            0xBE => {
                let addr = self.read_reg_16(self.h, self.l);
                let data = match memory.read_address(addr) {
                    Ok(v) => v,
                    Err(e) => {
                        return Err(e);
                    },
                };
                self.f.z = self.zero(self.a.wrapping_sub(data));
                self.f.n = true;
                self.f.h = self.half_carry_subtraction(self.a, data);
                self.f.c = self.carry_subtraction(self.a, data);
                self.pc = self.pc.wrapping_add(1);
                Ok(())
            },
            // CP A: Z 1 H C, compared against itself
            0xBF => {
                let val = self.a;
                self.f.z = self.zero(val.wrapping_sub(val));
                self.f.n = true;
                self.f.h = self.half_carry_subtraction(val, val);
                self.f.c = self.carry_subtraction(val, val);
                self.pc = self.pc.wrapping_add(1);
                Ok(())
            },
            _ => Err(EmuError::Decode { opcode: op, extended: false, pc: self.pc }),
        }
    }

    /// Execute an instruction of the last table quarter, opcodes 0xC0
    /// through 0xFF, including the extended table behind the CB prefix.
    #[verifier::rlimit(100)]
    #[verifier::spinoff_prover]
    fn op_c0_ff(&mut self, memory: &mut Memory, op: u8) -> (r: Result<(), EmuError>)
        requires
            old(memory).wf(),
            0xC0 <= op,
        ensures
            final(memory).wf(),
            final(memory).rom@ == old(memory).rom@,
            match exec_op_c0_ff(*old(self), old(memory).contents@, old(memory).rom@, op) {
                Ok(out) => r == Ok::<(), EmuError>(()) && *final(self) == out.0
                    && final(memory).contents@ == out.1,
                Err(e) => r == Err::<(), EmuError>(e) && *final(self) == *old(self)
                    && final(memory).contents@ == old(memory).contents@,
            },
    {
        proof {
            reveal(exec_op_c0_ff);
        }
        match op {
            // POP BC
            0xC1 => {
                let data = match memory.read_16(self.sp) {
                    Ok(v) => v,
                    Err(e) => {
                        return Err(e);
                    },
                };
                self.write_bc(data);
                self.sp = self.sp.wrapping_add(2);
                self.pc = self.pc.wrapping_add(1);
                Ok(())
            },
            // JP a16
            0xC3 => {
                let addr = match memory.read_16(self.pc.wrapping_add(1)) {
                    Ok(v) => v,
                    Err(e) => {
                        return Err(e);
                    },
                };
                self.pc = addr;
                Ok(())
            },
            // PUSH BC
            0xC5 => {
                let new_sp = self.sp.wrapping_sub(2);
                let data = self.read_reg_16(self.b, self.c);
                match memory.write_16(new_sp, data) {
                    Ok(()) => {},
                    Err(e) => {
                        return Err(e);
                    },
                }
                self.sp = new_sp;
                self.pc = self.pc.wrapping_add(1);
                Ok(())
            },
            // RET
            0xC9 => {
                let data = match memory.read_16(self.sp) {
                    Ok(v) => v,
                    Err(e) => {
                        return Err(e);
                    },
                };
                self.pc = data;
                self.sp = self.sp.wrapping_add(2);
                Ok(())
            },
            // PREFIX CB
            0xCB => {
                let inst = match memory.read_address(self.pc.wrapping_add(1)) {
                    Ok(v) => v,
                    Err(e) => {
                        return Err(e);
                    },
                };
                match inst {
                    // RL C: Z 0 0 C
                    0x11 => {
                        let val = self.c;
                        let result = self.rotate_left(val);
                        self.c = result;
                        self.f.z = self.zero(result);
                        self.pc = self.pc.wrapping_add(2);
                        Ok(())
                    },
                    // BIT 7, H: Z 0 1 -
                    0x7C => {
                        self.f.z = self.h < 0x80;
                        self.f.n = false;
                        self.f.h = true;
                        self.pc = self.pc.wrapping_add(2);
                        Ok(())
                    },
                    _ => Err(EmuError::Decode { opcode: inst, extended: true, pc: self.pc }),
                }
            },
            // CALL a16
            0xCD => {
                let addr = match memory.read_16(self.pc.wrapping_add(1)) {
                    Ok(v) => v,
                    Err(e) => {
                        return Err(e);
                    },
                };
                let new_sp = self.sp.wrapping_sub(2);
                match memory.write_16(new_sp, self.pc.wrapping_add(3)) {
                    Ok(()) => {},
                    Err(e) => {
                        return Err(e);
                    },
                }
                self.sp = new_sp;
                self.pc = addr;
                Ok(())
            },
            // RETI: return, then set the interrupt-enable latch
            0xD9 => {
                let data = match memory.read_16(self.sp) {
                    Ok(v) => v,
                    Err(e) => {
                        return Err(e);
                    },
                };
                match memory.write_address(INTERRUPT_LATCH, LATCH_SET) {
                    Ok(()) => {},
                    Err(e) => {
                        return Err(e);
                    },
                }
                self.pc = data;
                self.sp = self.sp.wrapping_add(2);
                Ok(())
            },
            // LDH (a8), A
            0xE0 => {
                let n = match memory.read_address(self.pc.wrapping_add(1)) {
                    Ok(v) => v,
                    Err(e) => {
                        return Err(e);
                    },
                };
                let addr = 0xFF00u16 + n as u16;
                match memory.write_address(addr, self.a) {
                    Ok(()) => {},
                    Err(e) => {
                        return Err(e);
                    },
                }
                self.pc = self.pc.wrapping_add(2);
                Ok(())
            },
            // POP HL
            0xE1 => {
                let data = match memory.read_16(self.sp) {
                    Ok(v) => v,
                    Err(e) => {
                        return Err(e);
                    },
                };
                self.write_hl(data);
                self.sp = self.sp.wrapping_add(2);
                self.pc = self.pc.wrapping_add(1);
                Ok(())
            },
            // LD (C), A
            0xE2 => {
                let addr = 0xFF00u16 + self.c as u16;
                match memory.write_address(addr, self.a) {
                    Ok(()) => {},
                    Err(e) => {
                        return Err(e);
                    },
                }
                self.pc = self.pc.wrapping_add(1);
                Ok(())
            },
            // LD (a16), A
            0xEA => {
                let addr = match memory.read_16(self.pc.wrapping_add(1)) {
                    Ok(v) => v,
                    Err(e) => {
                        return Err(e);
                    },
                };
                match memory.write_address(addr, self.a) {
                    Ok(()) => {},
                    Err(e) => {
                        return Err(e);
                    },
                }
                self.pc = self.pc.wrapping_add(3);
                Ok(())
            },
            // XOR d8: Z 0 0 0
            0xEE => {
                let data = match memory.read_address(self.pc.wrapping_add(1)) {
                    Ok(v) => v,
                    Err(e) => {
                        return Err(e);
                    },
                };
                let result = self.a ^ data;
                self.a = result;
                self.f.z = self.zero(result);
                self.f.n = false;
                self.f.h = false;
                self.f.c = false;
                self.pc = self.pc.wrapping_add(2);
                Ok(())
            },
            // LDH A, (a8)
            0xF0 => {
                let n = match memory.read_address(self.pc.wrapping_add(1)) {
                    Ok(v) => v,
                    Err(e) => {
                        return Err(e);
                    },
                };
                let addr = 0xFF00u16 + n as u16;
                let data = match memory.read_address(addr) {
                    Ok(v) => v,
                    Err(e) => {
                        return Err(e);
                    },
                };
                self.a = data;
                self.pc = self.pc.wrapping_add(2);
                Ok(())
            },
            // POP AF: the low nibble of the flag byte is discarded
            0xF1 => {
                let data = match memory.read_16(self.sp) {
                    Ok(v) => v,
                    Err(e) => {
                        return Err(e);
                    },
                };
                self.write_af(data);
                self.sp = self.sp.wrapping_add(2);
                self.pc = self.pc.wrapping_add(1);
                Ok(())
            },
            // DI: clear the interrupt-enable latch
            0xF3 => {
                match memory.write_address(INTERRUPT_LATCH, LATCH_CLEAR) {
                    Ok(()) => {},
                    Err(e) => {
                        return Err(e);
                    },
                }
                self.pc = self.pc.wrapping_add(1);
                Ok(())
            },
            // EI: set the interrupt-enable latch
            0xFB => {
                match memory.write_address(INTERRUPT_LATCH, LATCH_SET) {
                    Ok(()) => {},
                    Err(e) => {
                        return Err(e);
                    },
                }
                self.pc = self.pc.wrapping_add(1);
                Ok(())
            },
            // CP d8: Z 1 H C
            0xFE => {
                let data = match memory.read_address(self.pc.wrapping_add(1)) {
                    Ok(v) => v,
                    Err(e) => {
                        return Err(e);
                    },
                };
                self.f.z = self.zero(self.a.wrapping_sub(data));
                self.f.n = true;
                self.f.h = self.half_carry_subtraction(self.a, data);
                self.f.c = self.carry_subtraction(self.a, data);
                self.pc = self.pc.wrapping_add(2);
                Ok(())
            },
            _ => Err(EmuError::Decode { opcode: op, extended: false, pc: self.pc }),
        }
    }
}

/// The executable counterpart of `rel_target`: the relative-jump target,
/// computed with the same wrapping steps the model takes.
fn rel_jump(pc: u16, off: u8) -> (t: u16)
    ensures
        t == rel_target(pc, off),
{
    let base = pc.wrapping_add(2);
    if off < 0x80 {
        base.wrapping_add(off as u16)
    } else {
        base.wrapping_add(off as u16).wrapping_sub(0x100)
    }
}

impl Default for Cpu {
    /// The documented reset state, so a host can write
    /// `let cpu: Cpu = Default::default();`.
    fn default() -> (cpu: Cpu)
        ensures
            cpu == Cpu::initial(),
    {
        Cpu::new()
    }
}

/// A value rotated left through the carry flag: shifted left one bit with
/// the old carry as the new bit 0.
pub open spec fn spec_rotate_left(value: u8, carry_in: bool) -> u8 {
    (2 * value % 0x100 + if carry_in {
        1int
    } else {
        0int
    }) as u8
}

} // verus!
