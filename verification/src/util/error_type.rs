use vstd::prelude::*;

verus! {

/// What can go wrong while the machine is set up.
#[derive(Debug, Clone, Copy, PartialEq, Eq, Structural)]
pub enum Errors {
    /// A boot program that is not exactly 256 bytes long.
    BootRomSize,
    /// A cartridge image that does not fit the 32 KiB of flat cartridge space.
    CartridgeTooLarge,
    /// A block of bytes that would reach past the end of the address space.
    OutOfBusMemory,
    /// An instruction table that does not hold one usable entry per opcode.
    InstructionTable,
}

} // verus!
