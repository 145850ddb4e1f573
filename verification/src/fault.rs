//! Fatal execution faults. Each one halts the run loop and carries the
//! diagnostic context the embedding caller needs; non-fatal out-of-range
//! bus accesses never raise one (reads yield 0, writes are dropped).

use vstd::prelude::*;

verus! {

/// A condition that stops instruction execution.
#[derive(Clone, Copy, Debug, PartialEq, Eq, Structural)]
pub enum Fault {
    /// A read reached the PPU register window 0x2000-0x3FFF, which this
    /// core leaves to an external collaborator and treats as unimplemented
    /// rather than silently dropping.
    PpuRead { address: u16 },
    /// A write reached the PPU register window 0x2000-0x3FFF.
    PpuWrite { address: u16 },
    /// A write reached the cartridge ROM window 0x8000-0xFFFF; ROM is not
    /// writable, so this almost always marks a core logic bug and is never
    /// swallowed.
    RomWrite { address: u16 },
    /// The fetched byte has no entry in the instruction table.
    UnrecognizedOpcode { opcode: u8, address: u16 },
}

impl Fault {
    /// Short diagnostic name of the fault kind.
    pub fn kind_name(&self) -> (r: &'static str)
        ensures
            (*self matches Fault::PpuRead { .. } ==> r@ == "PPU register window read"@),
            (*self matches Fault::PpuWrite { .. } ==> r@ == "PPU register window write"@),
            (*self matches Fault::RomWrite { .. } ==> r@ == "write to cartridge ROM space"@),
            (*self matches Fault::UnrecognizedOpcode { .. } ==> r@ == "unrecognized opcode"@),
    {
        match self {
            Fault::PpuRead { .. } => "PPU register window read",
            Fault::PpuWrite { .. } => "PPU register window write",
            Fault::RomWrite { .. } => "write to cartridge ROM space",
            Fault::UnrecognizedOpcode { .. } => "unrecognized opcode",
        }
    }
}

} // verus!
