use vstd::prelude::*;

use crate::cpu::Cpu;
use crate::errors::EmuError;
use crate::memory::{
    mem_read, mem_read16, mem_stored16, mem_write16, writable, ADDRESS_SPACE,
};
use crate::step::{exec_op_c0_ff, step_spec};
use crate::words::{lemma_pair_split, lemma_split_pair};

verus! {

/// Writing a little-endian word and reading it back yields the word
/// written, for any writable pair of addresses and any 16-bit value; the
/// cartridge image plays no part in a writable region.
pub proof fn lemma_word_round_trip(contents: Seq<u8>, rom: Seq<u8>, addr: u16, val: u16)
    requires
        contents.len() == ADDRESS_SPACE,
        writable(addr),
        writable(addr.wrapping_add(1)),
    ensures
        mem_write16(contents, addr, val) == Ok::<Seq<u8>, EmuError>(
            mem_stored16(contents, addr, val),
        ),
        mem_read16(mem_stored16(contents, addr, val), rom, addr) == Ok::<u16, EmuError>(val),
{
    lemma_pair_split(val);
}

/// A call followed by the return it reaches restores the program counter to
/// the instruction following the call, restores the stack pointer to its
/// pre-call value, and leaves memory as the call left it.
pub proof fn lemma_call_then_return(
    cpu0: Cpu,
    mem0: Seq<u8>,
    rom: Seq<u8>,
    cpu1: Cpu,
    mem1: Seq<u8>,
    cpu2: Cpu,
    mem2: Seq<u8>,
)
    requires
        mem0.len() == ADDRESS_SPACE,
        mem_read(mem0, rom, cpu0.pc) == Ok::<u8, EmuError>(0xCD),
        step_spec(cpu0, mem0, rom) == Ok::<(Cpu, Seq<u8>), EmuError>((cpu1, mem1)),
        mem_read(mem1, rom, cpu1.pc) == Ok::<u8, EmuError>(0xC9),
        step_spec(cpu1, mem1, rom) == Ok::<(Cpu, Seq<u8>), EmuError>((cpu2, mem2)),
    ensures
        cpu2.pc == cpu0.pc.wrapping_add(3),
        cpu2.sp == cpu0.sp,
        mem2 == mem1,
{
    reveal(exec_op_c0_ff);
    lemma_pair_split(cpu0.pc.wrapping_add(3));
}

/// Pushing a register pair and popping it back is idempotent: the pair and
/// the stack pointer return to their pre-push values, and the pop writes
/// nothing.
pub proof fn lemma_push_then_pop(
    cpu0: Cpu,
    mem0: Seq<u8>,
    rom: Seq<u8>,
    cpu1: Cpu,
    mem1: Seq<u8>,
    cpu2: Cpu,
    mem2: Seq<u8>,
)
    requires
        mem0.len() == ADDRESS_SPACE,
        mem_read(mem0, rom, cpu0.pc) == Ok::<u8, EmuError>(0xC5),
        step_spec(cpu0, mem0, rom) == Ok::<(Cpu, Seq<u8>), EmuError>((cpu1, mem1)),
        mem_read(mem1, rom, cpu1.pc) == Ok::<u8, EmuError>(0xC1),
        step_spec(cpu1, mem1, rom) == Ok::<(Cpu, Seq<u8>), EmuError>((cpu2, mem2)),
    ensures
        cpu2.b == cpu0.b,
        cpu2.c == cpu0.c,
        cpu2.sp == cpu0.sp,
        mem2 == mem1,
{
    reveal(exec_op_c0_ff);
    lemma_split_pair(cpu0.b, cpu0.c);
}

} // verus!
