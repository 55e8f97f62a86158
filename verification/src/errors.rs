use vstd::prelude::*;

verus! {

/// The structured fault values of the emulation core. Every fatal condition
/// is surfaced as one of these rather than as a process abort, so a host can
/// attribute a failure to a specific address or opcode byte.
#[derive(Debug, PartialEq, Eq, Clone, Copy, Structural)]
pub enum EmuError {
    /// A fetched byte had no entry in the opcode table. The opcode table
    /// covers all 256 byte values, so the engine is proved never to produce
    /// this; the variant remains so hosts can treat the fault space as closed.
    UnknownOpcode(u8),
    /// Address resolution was requested for an implied/accumulator operand.
    /// The engine excludes this statically (it is a programming error, never
    /// reachable from input data); the variant remains for hosts.
    InvalidAddressingModeUse,
    /// A store targeted cartridge ROM, which is read-only by hardware
    /// contract. Carries the offending address.
    RomWriteAttempt(u16),
}

/// The only fault a store instruction can surface: a write into ROM.
pub open spec fn rom_fault_only<T>(r: Result<T, EmuError>) -> bool {
    &&& !(r matches Err(EmuError::UnknownOpcode(_)))
    &&& !(r matches Err(EmuError::InvalidAddressingModeUse))
}

} // verus!
