use vstd::prelude::*;

use crate::cpu::{spec_rotate_left, Cpu};
use crate::errors::EmuError;
use crate::flags::{
    flags_of_byte, spec_carry_add, spec_carry_sub, spec_half_carry_add, spec_half_carry_sub,
    spec_zero, RegF,
};
use crate::memory::{mem_read, mem_read16, mem_stored, mem_write, mem_write16};
use crate::words::{word_hi, word_lo, wrap16};

verus! {

/// The escape opcode selecting the extended instruction table.
pub const CB_PREFIX: u8 = 0xCB;

/// The address of the interrupt-enable latch.
pub const INTERRUPT_LATCH: u16 = 0xFFFF;

/// The latch value written by EI and RETI.
pub const LATCH_SET: u8 = 0xFF;

/// The latch value written by DI.
pub const LATCH_CLEAR: u8 = 0x00;

/// The target of a relative jump issued as a 2-byte instruction at `pc`:
/// the address immediately after the instruction plus the signed offset,
/// wrapping around the address space. `lemma_rel_target_signed` states this
/// arithmetically.
pub open spec fn rel_target(pc: u16, off: u8) -> u16 {
    if off < 0x80 {
        pc.wrapping_add(2).wrapping_add(off as u16)
    } else {
        pc.wrapping_add(2).wrapping_add(off as u16).wrapping_sub(0x100)
    }
}

/// The relative-jump target is the address after the instruction plus the
/// offset read as a two's-complement signed byte, modulo the address space.
pub proof fn lemma_rel_target_signed(pc: u16, off: u8)
    ensures
        rel_target(pc, off) == wrap16(
            pc + 2 + (if off < 0x80 {
                off as int
            } else {
                off - 0x100
            }),
        ),
{
}

/// The flags after an 8-bit increment of `v`: Z 0 H -.
pub open spec fn inc_flags(f: RegF, v: u8) -> RegF {
    RegF { z: spec_zero(v.wrapping_add(1)), n: false, h: spec_half_carry_add(v, 1), c: f.c }
}

/// The flags after an 8-bit decrement of `v`: Z 1 H -.
pub open spec fn dec_flags(f: RegF, v: u8) -> RegF {
    RegF { z: spec_zero(v.wrapping_sub(1)), n: true, h: spec_half_carry_sub(v, 1), c: f.c }
}

/// The flags after adding `v` to the accumulator `a`: Z 0 H C.
pub open spec fn add_flags(a: u8, v: u8) -> RegF {
    RegF {
        z: spec_zero(a.wrapping_add(v)),
        n: false,
        h: spec_half_carry_add(a, v),
        c: spec_carry_add(a, v),
    }
}

/// The flags after subtracting or comparing `v` against the accumulator
/// `a`: Z 1 H C.
pub open spec fn sub_flags(a: u8, v: u8) -> RegF {
    RegF {
        z: spec_zero(a.wrapping_sub(v)),
        n: true,
        h: spec_half_carry_sub(a, v),
        c: spec_carry_sub(a, v),
    }
}

/// The flags after a bitwise accumulator operation: Z 0 0 0.
pub open spec fn logic_flags(result: u8) -> RegF {
    RegF { z: spec_zero(result), n: false, h: false, c: false }
}

/// One step of the dispatcher: fetch the opcode at the program counter,
/// decode and execute it. The result is the machine after the step — the
/// register file and the bus storage — or the fault that stops the run; a
/// fault leaves the machine as it was.
pub open spec fn step_spec(cpu: Cpu, contents: Seq<u8>, rom: Seq<u8>) -> Result<
    (Cpu, Seq<u8>),
    EmuError,
> {
    match mem_read(contents, rom, cpu.pc) {
        Err(e) => Err(e),
        Ok(op) => exec_op(cpu, contents, rom, op),
    }
}

/// The effect of one primary-table instruction on the machine, given the
/// fetched opcode. Every instruction advances the program counter by
/// exactly the bytes it consumed; jump, call and return instructions set it
/// explicitly instead. The table is split by opcode range so each part can
/// be reasoned about on its own.
pub open spec fn exec_op(cpu: Cpu, contents: Seq<u8>, rom: Seq<u8>, op: u8) -> Result<
    (Cpu, Seq<u8>),
    EmuError,
> {
    if op < 0x20 {
        exec_op_00_1f(cpu, contents, rom, op)
    } else if op < 0x40 {
        exec_op_20_3f(cpu, contents, rom, op)
    } else if op < 0xC0 {
        exec_op_40_bf(cpu, contents, rom, op)
    } else {
        exec_op_c0_ff(cpu, contents, rom, op)
    }
}

/// The instructions of the first table quarter, opcodes 0x00 through 0x1F.
#[verifier::opaque]
pub open spec fn exec_op_00_1f(cpu: Cpu, contents: Seq<u8>, rom: Seq<u8>, op: u8) -> Result<
    (Cpu, Seq<u8>),
    EmuError,
> {
    if op == 0x00 {
        // NOP
        Ok((Cpu { pc: cpu.pc.wrapping_add(1), ..cpu }, contents))
    } else if op == 0x01 {
        // LD BC,d16
        match mem_read16(contents, rom, cpu.pc.wrapping_add(1)) {
            Err(e) => Err(e),
            Ok(v) => Ok(
                (Cpu { b: word_hi(v), c: word_lo(v), pc: cpu.pc.wrapping_add(3), ..cpu }, contents),
            ),
        }
    } else if op == 0x02 {
        // LD (BC),A
        match mem_write(contents, cpu.bc(), cpu.a) {
            Err(e) => Err(e),
            Ok(c) => Ok((Cpu { pc: cpu.pc.wrapping_add(1), ..cpu }, c)),
        }
    } else if op == 0x03 {
        // INC BC
        let v = cpu.bc().wrapping_add(1);
        Ok((Cpu { b: word_hi(v), c: word_lo(v), pc: cpu.pc.wrapping_add(1), ..cpu }, contents))
    } else if op == 0x04 {
        // INC B
        Ok(
            (
                Cpu {
                    b: cpu.b.wrapping_add(1),
                    f: inc_flags(cpu.f, cpu.b),
                    pc: cpu.pc.wrapping_add(1),
                    ..cpu
                },
                contents,
            ),
        )
    } else if op == 0x05 {
        // DEC B
        Ok(
            (
                Cpu {
                    b: cpu.b.wrapping_sub(1),
                    f: dec_flags(cpu.f, cpu.b),
                    pc: cpu.pc.wrapping_add(1),
                    ..cpu
                },
                contents,
            ),
        )
    } else if op == 0x06 {
        // LD B,d8
        match mem_read(contents, rom, cpu.pc.wrapping_add(1)) {
            Err(e) => Err(e),
            Ok(v) => Ok((Cpu { b: v, pc: cpu.pc.wrapping_add(2), ..cpu }, contents)),
        }
    } else if op == 0x0B {
        // DEC BC
        let v = cpu.bc().wrapping_sub(1);
        Ok((Cpu { b: word_hi(v), c: word_lo(v), pc: cpu.pc.wrapping_add(1), ..cpu }, contents))
    } else if op == 0x0C {
        // INC C
        Ok(
            (
                Cpu {
                    c: cpu.c.wrapping_add(1),
                    f: inc_flags(cpu.f, cpu.c),
                    pc: cpu.pc.wrapping_add(1),
                    ..cpu
                },
                contents,
            ),
        )
    } else if op == 0x0D {
        // DEC C
        Ok(
            (
                Cpu {
                    c: cpu.c.wrapping_sub(1),
                    f: dec_flags(cpu.f, cpu.c),
                    pc: cpu.pc.wrapping_add(1),
                    ..cpu
                },
                contents,
            ),
        )
    } else if op == 0x0E {
        // LD C,d8
        match mem_read(contents, rom, cpu.pc.wrapping_add(1)) {
            Err(e) => Err(e),
            Ok(v) => Ok((Cpu { c: v, pc: cpu.pc.wrapping_add(2), ..cpu }, contents)),
        }
    } else if op == 0x11 {
        // LD DE,d16
        match mem_read16(contents, rom, cpu.pc.wrapping_add(1)) {
            Err(e) => Err(e),
            Ok(v) => Ok(
                (Cpu { d: word_hi(v), e: word_lo(v), pc: cpu.pc.wrapping_add(3), ..cpu }, contents),
            ),
        }
    } else if op == 0x13 {
        // INC DE
        let v = cpu.de().wrapping_add(1);
        Ok((Cpu { d: word_hi(v), e: word_lo(v), pc: cpu.pc.wrapping_add(1), ..cpu }, contents))
    } else if op == 0x15 {
        // DEC D
        Ok(
            (
                Cpu {
                    d: cpu.d.wrapping_sub(1),
                    f: dec_flags(cpu.f, cpu.d),
                    pc: cpu.pc.wrapping_add(1),
                    ..cpu
                },
                contents,
            ),
        )
    } else if op == 0x16 {
        // LD D,d8
        match mem_read(contents, rom, cpu.pc.wrapping_add(1)) {
            Err(e) => Err(e),
            Ok(v) => Ok((Cpu { d: v, pc: cpu.pc.wrapping_add(2), ..cpu }, contents)),
        }
    } else if op == 0x17 {
        // RLA: 0 0 0 C
        Ok(
            (
                Cpu {
                    a: spec_rotate_left(cpu.a, cpu.f.c),
                    f: RegF { z: false, n: false, h: false, c: cpu.a >= 0x80 },
                    pc: cpu.pc.wrapping_add(1),
                    ..cpu
                },
                contents,
            ),
        )
    } else if op == 0x18 {
        // JR r8
        match mem_read(contents, rom, cpu.pc.wrapping_add(1)) {
            Err(e) => Err(e),
            Ok(off) => Ok((Cpu { pc: rel_target(cpu.pc, off), ..cpu }, contents)),
        }
    } else if op == 0x1A {
        // LD A,(DE)
        match mem_read(contents, rom, cpu.de()) {
            Err(e) => Err(e),
            Ok(v) => Ok((Cpu { a: v, pc: cpu.pc.wrapping_add(1), ..cpu }, contents)),
        }
    } else if op == 0x1D {
        // DEC E
        Ok(
            (
                Cpu {
                    e: cpu.e.wrapping_sub(1),
                    f: dec_flags(cpu.f, cpu.e),
                    pc: cpu.pc.wrapping_add(1),
                    ..cpu
                },
                contents,
            ),
        )
    } else if op == 0x1E {
        // LD E,d8
        match mem_read(contents, rom, cpu.pc.wrapping_add(1)) {
            Err(e) => Err(e),
            Ok(v) => Ok((Cpu { e: v, pc: cpu.pc.wrapping_add(2), ..cpu }, contents)),
        }
    } else {
        Err(EmuError::Decode { opcode: op, extended: false, pc: cpu.pc })
    }
}

/// The instructions of the second table quarter, opcodes 0x20 through 0x3F.
#[verifier::opaque]
pub open spec fn exec_op_20_3f(cpu: Cpu, contents: Seq<u8>, rom: Seq<u8>, op: u8) -> Result<
    (Cpu, Seq<u8>),
    EmuError,
> {
    if op == 0x20 {
        // JR NZ,r8
        if !cpu.f.z {
            match mem_read(contents, rom, cpu.pc.wrapping_add(1)) {
                Err(e) => Err(e),
                Ok(off) => Ok((Cpu { pc: rel_target(cpu.pc, off), ..cpu }, contents)),
            }
        } else {
            Ok((Cpu { pc: cpu.pc.wrapping_add(2), ..cpu }, contents))
        }
    } else if op == 0x21 {
        // LD HL,d16
        match mem_read16(contents, rom, cpu.pc.wrapping_add(1)) {
            Err(e) => Err(e),
            Ok(v) => Ok(
                (Cpu { h: word_hi(v), l: word_lo(v), pc: cpu.pc.wrapping_add(3), ..cpu }, contents),
            ),
        }
    } else if op == 0x22 {
        // LD (HL+),A
        match mem_write(contents, cpu.hl(), cpu.a) {
            Err(e) => Err(e),
            Ok(c) => {
                let v = cpu.hl().wrapping_add(1);
                Ok((Cpu { h: word_hi(v), l: word_lo(v), pc: cpu.pc.wrapping_add(1), ..cpu }, c))
            },
        }
    } else if op == 0x23 {
        // INC HL
        let v = cpu.hl().wrapping_add(1);
        Ok((Cpu { h: word_hi(v), l: word_lo(v), pc: cpu.pc.wrapping_add(1), ..cpu }, contents))
    } else if op == 0x24 {
        // INC H
        Ok(
            (
                Cpu {
                    h: cpu.h.wrapping_add(1),
                    f: inc_flags(cpu.f, cpu.h),
                    pc: cpu.pc.wrapping_add(1),
                    ..cpu
                },
                contents,
            ),
        )
    } else if op == 0x28 {
        // JR Z,r8
        if cpu.f.z {
            match mem_read(contents, rom, cpu.pc.wrapping_add(1)) {
                Err(e) => Err(e),
                Ok(off) => Ok((Cpu { pc: rel_target(cpu.pc, off), ..cpu }, contents)),
            }
        } else {
            Ok((Cpu { pc: cpu.pc.wrapping_add(2), ..cpu }, contents))
        }
    } else if op == 0x2A {
        // LD A,(HL+)
        match mem_read(contents, rom, cpu.hl()) {
            Err(e) => Err(e),
            Ok(v) => {
                let w = cpu.hl().wrapping_add(1);
                Ok(
                    (
                        Cpu { a: v, h: word_hi(w), l: word_lo(w), pc: cpu.pc.wrapping_add(1), ..cpu },
                        contents,
                    ),
                )
            },
        }
    } else if op == 0x2E {
        // LD L,d8
        match mem_read(contents, rom, cpu.pc.wrapping_add(1)) {
            Err(e) => Err(e),
            Ok(v) => Ok((Cpu { l: v, pc: cpu.pc.wrapping_add(2), ..cpu }, contents)),
        }
    } else if op == 0x2F {
        // CPL: - 1 1 -
        Ok(
            (
                Cpu {
                    a: !cpu.a,
                    f: RegF { n: true, h: true, ..cpu.f },
                    pc: cpu.pc.wrapping_add(1),
                    ..cpu
                },
                contents,
            ),
        )
    } else if op == 0x31 {
        // LD SP,d16
        match mem_read16(contents, rom, cpu.pc.wrapping_add(1)) {
            Err(e) => Err(e),
            Ok(v) => Ok((Cpu { sp: v, pc: cpu.pc.wrapping_add(3), ..cpu }, contents)),
        }
    } else if op == 0x32 {
        // LD (HL-),A
        match mem_write(contents, cpu.hl(), cpu.a) {
            Err(e) => Err(e),
            Ok(c) => {
                let v = cpu.hl().wrapping_sub(1);
                Ok((Cpu { h: word_hi(v), l: word_lo(v), pc: cpu.pc.wrapping_add(1), ..cpu }, c))
            },
        }
    } else if op == 0x34 {
        // INC (HL): Z 0 H -
        match mem_read(contents, rom, cpu.hl()) {
            Err(e) => Err(e),
            Ok(v) => match mem_write(contents, cpu.hl(), v.wrapping_add(1)) {
                Err(e) => Err(e),
                Ok(c) => Ok(
                    (Cpu { f: inc_flags(cpu.f, v), pc: cpu.pc.wrapping_add(1), ..cpu }, c),
                ),
            },
        }
    } else if op == 0x36 {
        // LD (HL),d8
        match mem_read(contents, rom, cpu.pc.wrapping_add(1)) {
            Err(e) => Err(e),
            Ok(v) => match mem_write(contents, cpu.hl(), v) {
                Err(e) => Err(e),
                Ok(c) => Ok((Cpu { pc: cpu.pc.wrapping_add(2), ..cpu }, c)),
            },
        }
    } else if op == 0x3C {
        // INC A
        Ok(
            (
                Cpu {
                    a: cpu.a.wrapping_add(1),
                    f: inc_flags(cpu.f, cpu.a),
                    pc: cpu.pc.wrapping_add(1),
                    ..cpu
                },
                contents,
            ),
        )
    } else if op == 0x3D {
        // DEC A
        Ok(
            (
                Cpu {
                    a: cpu.a.wrapping_sub(1),
                    f: dec_flags(cpu.f, cpu.a),
                    pc: cpu.pc.wrapping_add(1),
                    ..cpu
                },
                contents,
            ),
        )
    } else if op == 0x3E {
        // LD A,d8
        match mem_read(contents, rom, cpu.pc.wrapping_add(1)) {
            Err(e) => Err(e),
            Ok(v) => Ok((Cpu { a: v, pc: cpu.pc.wrapping_add(2), ..cpu }, contents)),
        }
    } else {
        Err(EmuError::Decode { opcode: op, extended: false, pc: cpu.pc })
    }
}

/// The instructions of the middle table half, opcodes 0x40 through 0xBF:
/// register loads and 8-bit arithmetic.
#[verifier::opaque]
pub open spec fn exec_op_40_bf(cpu: Cpu, contents: Seq<u8>, rom: Seq<u8>, op: u8) -> Result<
    (Cpu, Seq<u8>),
    EmuError,
> {
    if op == 0x4F {
        // LD C,A
        Ok((Cpu { c: cpu.a, pc: cpu.pc.wrapping_add(1), ..cpu }, contents))
    } else if op == 0x57 {
        // LD D,A
        Ok((Cpu { d: cpu.a, pc: cpu.pc.wrapping_add(1), ..cpu }, contents))
    } else if op == 0x67 {
        // LD H,A
        Ok((Cpu { h: cpu.a, pc: cpu.pc.wrapping_add(1), ..cpu }, contents))
    } else if op == 0x77 {
        // LD (HL),A
        match mem_write(contents, cpu.hl(), cpu.a) {
            Err(e) => Err(e),
            Ok(c) => Ok((Cpu { pc: cpu.pc.wrapping_add(1), ..cpu }, c)),
        }
    } else if op == 0x78 {
        // LD A,B
        Ok((Cpu { a: cpu.b, pc: cpu.pc.wrapping_add(1), ..cpu }, contents))
    } else if op == 0x7B {
        // LD A,E
        Ok((Cpu { a: cpu.e, pc: cpu.pc.wrapping_add(1), ..cpu }, contents))
    } else if op == 0x7C {
        // LD A,H
        Ok((Cpu { a: cpu.h, pc: cpu.pc.wrapping_add(1), ..cpu }, contents))
    } else if op == 0x7D {
        // LD A,L
        Ok((Cpu { a: cpu.l, pc: cpu.pc.wrapping_add(1), ..cpu }, contents))
    } else if op == 0x80 {
        // ADD A,B: Z 0 H C
        Ok(
            (
                Cpu {
                    a: cpu.a.wrapping_add(cpu.b),
                    f: add_flags(cpu.a, cpu.b),
                    pc: cpu.pc.wrapping_add(1),
                    ..cpu
                },
                contents,
            ),
        )
    } else if op == 0x86 {
        // ADD A,(HL): Z 0 H C
        match mem_read(contents, rom, cpu.hl()) {
            Err(e) => Err(e),
            Ok(v) => Ok(
                (
                    Cpu {
                        a: cpu.a.wrapping_add(v),
                        f: add_flags(cpu.a, v),
                        pc: cpu.pc.wrapping_add(1),
                        ..cpu
                    },
                    contents,
                ),
            ),
        }
    } else if op == 0x90 {
        // SUB B: Z 1 H C
        Ok(
            (
                Cpu {
                    a: cpu.a.wrapping_sub(cpu.b),
                    f: sub_flags(cpu.a, cpu.b),
                    pc: cpu.pc.wrapping_add(1),
                    ..cpu
                },
                contents,
            ),
        )
    } else if op == 0xAF {
        // XOR A: Z 0 0 0, and the accumulator clears itself
        Ok((Cpu { a: 0, f: logic_flags(0), pc: cpu.pc.wrapping_add(1), ..cpu }, contents))
    } else if op == 0xB0 {
        // OR B: Z 0 0 0
        Ok(
            (
                Cpu {
                    a: cpu.a | cpu.b,
                    f: logic_flags(cpu.a | cpu.b),
                    pc: cpu.pc.wrapping_add(1),
                    ..cpu
                },
                contents,
            ),
        )
    } else if op == 0xB1 {
        // OR C: Z 0 0 0
        Ok(
            (
                Cpu {
                    a: cpu.a | cpu.c,
                    f: logic_flags(cpu.a | cpu.c),
                    pc: cpu.pc.wrapping_add(1),
                    ..cpu
                },
                contents,
            ),
        )
    } else if op == 0xBE {
        // CP (HL): Z 1 H C
        match mem_read(contents, rom, cpu.hl()) {
            Err(e) => Err(e),
            Ok(v) => Ok(
                (Cpu { f: sub_flags(cpu.a, v), pc: cpu.pc.wrapping_add(1), ..cpu }, contents),
            ),
        }
    } else if op == 0xBF {
        // CP A: the accumulator compared against itself
        Ok(
            (
                Cpu { f: sub_flags(cpu.a, cpu.a), pc: cpu.pc.wrapping_add(1), ..cpu },
                contents,
            ),
        )
    } else {
        Err(EmuError::Decode { opcode: op, extended: false, pc: cpu.pc })
    }
}

/// The instructions of the last table quarter, opcodes 0xC0 through 0xFF:
/// stack, jump, call and return instructions, the IO page loads, the
/// interrupt latch, and the extended table behind the CB prefix.
#[verifier::opaque]
pub open spec fn exec_op_c0_ff(cpu: Cpu, contents: Seq<u8>, rom: Seq<u8>, op: u8) -> Result<
    (Cpu, Seq<u8>),
    EmuError,
> {
    if op == 0xC1 {
        // POP BC
        match mem_read16(contents, rom, cpu.sp) {
            Err(e) => Err(e),
            Ok(v) => Ok(
                (
                    Cpu {
                        b: word_hi(v),
                        c: word_lo(v),
                        sp: cpu.sp.wrapping_add(2),
                        pc: cpu.pc.wrapping_add(1),
                        ..cpu
                    },
                    contents,
                ),
            ),
        }
    } else if op == 0xC3 {
        // JP a16
        match mem_read16(contents, rom, cpu.pc.wrapping_add(1)) {
            Err(e) => Err(e),
            Ok(v) => Ok((Cpu { pc: v, ..cpu }, contents)),
        }
    } else if op == 0xC5 {
        // PUSH BC
        match mem_write16(contents, cpu.sp.wrapping_sub(2), cpu.bc()) {
            Err(e) => Err(e),
            Ok(c) => Ok(
                (Cpu { sp: cpu.sp.wrapping_sub(2), pc: cpu.pc.wrapping_add(1), ..cpu }, c),
            ),
        }
    } else if op == 0xC9 {
        // RET
        match mem_read16(contents, rom, cpu.sp) {
            Err(e) => Err(e),
            Ok(v) => Ok((Cpu { pc: v, sp: cpu.sp.wrapping_add(2), ..cpu }, contents)),
        }
    } else if op == CB_PREFIX {
        match mem_read(contents, rom, cpu.pc.wrapping_add(1)) {
            Err(e) => Err(e),
            Ok(ext) => exec_extended(cpu, contents, ext),
        }
    } else if op == 0xCD {
        // CALL a16
        match mem_read16(contents, rom, cpu.pc.wrapping_add(1)) {
            Err(e) => Err(e),
            Ok(target) => match mem_write16(
                contents,
                cpu.sp.wrapping_sub(2),
                cpu.pc.wrapping_add(3),
            ) {
                Err(e) => Err(e),
                Ok(c) => Ok((Cpu { pc: target, sp: cpu.sp.wrapping_sub(2), ..cpu }, c)),
            },
        }
    } else if op == 0xD9 {
        // RETI: return, then set the interrupt-enable latch
        match mem_read16(contents, rom, cpu.sp) {
            Err(e) => Err(e),
            Ok(v) => Ok(
                (
                    Cpu { pc: v, sp: cpu.sp.wrapping_add(2), ..cpu },
                    mem_stored(contents, INTERRUPT_LATCH, LATCH_SET),
                ),
            ),
        }
    } else if op == 0xE0 {
        // LDH (a8),A: write A into the IO page
        match mem_read(contents, rom, cpu.pc.wrapping_add(1)) {
            Err(e) => Err(e),
            Ok(n) => Ok(
                (
                    Cpu { pc: cpu.pc.wrapping_add(2), ..cpu },
                    mem_stored(contents, (0xFF00 + n) as u16, cpu.a),
                ),
            ),
        }
    } else if op == 0xE1 {
        // POP HL
        match mem_read16(contents, rom, cpu.sp) {
            Err(e) => Err(e),
            Ok(v) => Ok(
                (
                    Cpu {
                        h: word_hi(v),
                        l: word_lo(v),
                        sp: cpu.sp.wrapping_add(2),
                        pc: cpu.pc.wrapping_add(1),
                        ..cpu
                    },
                    contents,
                ),
            ),
        }
    } else if op == 0xE2 {
        // LD (C),A: write A into the IO page, indexed by C
        Ok(
            (
                Cpu { pc: cpu.pc.wrapping_add(1), ..cpu },
                mem_stored(contents, (0xFF00 + cpu.c) as u16, cpu.a),
            ),
        )
    } else if op == 0xEA {
        // LD (a16),A
        match mem_read16(contents, rom, cpu.pc.wrapping_add(1)) {
            Err(e) => Err(e),
            Ok(target) => match mem_write(contents, target, cpu.a) {
                Err(e) => Err(e),
                Ok(c) => Ok((Cpu { pc: cpu.pc.wrapping_add(3), ..cpu }, c)),
            },
        }
    } else if op == 0xEE {
        // XOR d8: Z 0 0 0
        match mem_read(contents, rom, cpu.pc.wrapping_add(1)) {
            Err(e) => Err(e),
            Ok(v) => Ok(
                (
                    Cpu {
                        a: cpu.a ^ v,
                        f: logic_flags(cpu.a ^ v),
                        pc: cpu.pc.wrapping_add(2),
                        ..cpu
                    },
                    contents,
                ),
            ),
        }
    } else if op == 0xF0 {
        // LDH A,(a8): read A from the IO page
        match mem_read(contents, rom, cpu.pc.wrapping_add(1)) {
            Err(e) => Err(e),
            Ok(n) => match mem_read(contents, rom, (0xFF00 + n) as u16) {
                Err(e) => Err(e),
                Ok(v) => Ok((Cpu { a: v, pc: cpu.pc.wrapping_add(2), ..cpu }, contents)),
            },
        }
    } else if op == 0xF1 {
        // POP AF: the low nibble of the flag byte is discarded
        match mem_read16(contents, rom, cpu.sp) {
            Err(e) => Err(e),
            Ok(v) => Ok(
                (
                    Cpu {
                        a: word_hi(v),
                        f: flags_of_byte(word_lo(v)),
                        sp: cpu.sp.wrapping_add(2),
                        pc: cpu.pc.wrapping_add(1),
                        ..cpu
                    },
                    contents,
                ),
            ),
        }
    } else if op == 0xF3 {
        // DI: clear the interrupt-enable latch
        Ok(
            (
                Cpu { pc: cpu.pc.wrapping_add(1), ..cpu },
                mem_stored(contents, INTERRUPT_LATCH, LATCH_CLEAR),
            ),
        )
    } else if op == 0xFB {
        // EI: set the interrupt-enable latch
        Ok(
            (
                Cpu { pc: cpu.pc.wrapping_add(1), ..cpu },
                mem_stored(contents, INTERRUPT_LATCH, LATCH_SET),
            ),
        )
    } else if op == 0xFE {
        // CP d8: Z 1 H C
        match mem_read(contents, rom, cpu.pc.wrapping_add(1)) {
            Err(e) => Err(e),
            Ok(v) => Ok(
                (Cpu { f: sub_flags(cpu.a, v), pc: cpu.pc.wrapping_add(2), ..cpu }, contents),
            ),
        }
    } else {
        Err(EmuError::Decode { opcode: op, extended: false, pc: cpu.pc })
    }
}

/// The effect of one extended-table instruction, given the byte that
/// followed the CB prefix. The program counter has consumed both bytes.
pub open spec fn exec_extended(cpu: Cpu, contents: Seq<u8>, ext: u8) -> Result<
    (Cpu, Seq<u8>),
    EmuError,
> {
    if ext == 0x11 {
        // RL C: Z 0 0 C
        let v = spec_rotate_left(cpu.c, cpu.f.c);
        Ok(
            (
                Cpu {
                    c: v,
                    f: RegF { z: spec_zero(v), n: false, h: false, c: cpu.c >= 0x80 },
                    pc: cpu.pc.wrapping_add(2),
                    ..cpu
                },
                contents,
            ),
        )
    } else if ext == 0x7C {
        // BIT 7,H: Z 0 1 -
        Ok(
            (
                Cpu {
                    f: RegF { z: cpu.h < 0x80, n: false, h: true, c: cpu.f.c },
                    pc: cpu.pc.wrapping_add(2),
                    ..cpu
                },
                contents,
            ),
        )
    } else {
        Err(EmuError::Decode { opcode: ext, extended: true, pc: cpu.pc })
    }
}

} // verus!
