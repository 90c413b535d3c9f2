use vstd::prelude::*;

verus! {

/// A fatal fault of the emulated machine. Every variant carries what a host
/// needs to report the fault; the CPU and the bus are left as they were just
/// before the faulting instruction, so the full machine state can be read
/// alongside.
#[derive(Clone, Copy, Debug, PartialEq, Eq, Structural)]
pub enum EmuError {
    /// The opcode at `pc` is absent from its table. `extended` is true when
    /// the missing entry is in the CB-prefixed table; `opcode` is then the
    /// byte that followed the prefix.
    Decode { opcode: u8, extended: bool, pc: u16 },
    /// A write touched an address outside every writable region.
    Address { addr: u16 },
    /// A read of the cartridge region fell beyond the end of the loaded
    /// image.
    Config { addr: u16 },
}

} // verus!
