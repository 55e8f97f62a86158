use vstd::prelude::*;

verus! {

/// How the four logical nametables fold onto the PPU's two physical 2KB
/// banks. Four-screen needs mapper RAM and is declared but unimplemented:
/// accesses to its upper banks read back a default value.
#[derive(Debug, PartialEq, Eq, Clone, Copy, Structural)]
#[allow(non_camel_case_types)]
pub enum Mirroring {
    VERTICAL,
    HORIZONTAL,
    FOUR_SCREEN,
}

/// A parsed cartridge: immutable once loaded. Header parsing is an external
/// collaborator; this library consumes the raw buffers.
pub struct Rom {
    pub prg_rom: Vec<u8>,
    pub chr_rom: Vec<u8>,
    pub mapper: u8,
    pub screen_mirroring: Mirroring,
}

impl Rom {
    /// The bus mirrors a single 16KB PRG bank into both halves of the 32KB
    /// window; a 32KB image fills it directly.
    pub open spec fn prg_wf(&self) -> bool {
        self.prg_rom@.len() == 0x4000 || self.prg_rom@.len() == 0x8000
    }
}

} // verus!
