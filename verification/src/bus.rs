//! The memory-mapped bus: 2KB of internal RAM plus the loaded cartridge.
//! Every CPU memory access decodes a 16-bit address into one of four
//! regions:
//!
//! | Range           | Behaviour                                          |
//! |-----------------|----------------------------------------------------|
//! | 0x0000-0x1FFF   | Internal RAM, mirrored every 0x0800 bytes          |
//! | 0x2000-0x3FFF   | PPU register window: fatal, left unimplemented     |
//! | 0x8000-0xFFFF   | Cartridge PRG ROM; a 16KB ROM mirrors its one bank |
//! | everything else | Out of range: reads give 0, writes are dropped     |
//!
//! One refinement serves embedded programs: a dedicated reset-vector
//! cell which, once set, answers reads of the two vector bytes
//! 0xFFFC-0xFFFD in place of the cartridge ROM. Writes to the ROM
//! window stay fatal in every case.

use vstd::prelude::*;

use crate::cartridge::Cartridge;
use crate::fault::Fault;
use crate::word::{lo_byte, hi_byte, word, make_word, word_lo, word_hi};

verus! {

/// The PRG ROM length the bus can serve: exactly one 16KB bank (which is
/// then mirrored over the upper half of the window) or at least the full
/// 32KB window.
pub open spec fn prg_addressable(len: int) -> bool {
    len == 0x4000 || len >= 0x8000
}

/// Executable check for the same condition, for embedders validating a
/// cartridge before building a bus over it.
pub fn prg_addressable_len(len: usize) -> (r: bool)
    ensures
        r == prg_addressable(len as int),
{
    len == 0x4000 || len >= 0x8000
}

/// The address lies in the PPU register window, which this core treats as
/// unimplemented: accesses there are fatal, never silently dropped.
pub open spec fn in_ppu_window(address: u16) -> bool {
    0x2000 <= address < 0x4000
}

/// Physical RAM index behind a mirrored RAM-window address.
pub open spec fn ram_index(address: u16) -> int {
    (address & 0x07FF) as int
}

/// Index into the PRG ROM bytes behind a ROM-window address: a single
/// 16KB bank is mirrored by masking with 0xBFFF before the final
/// 0x7FFF mask.
pub open spec fn rom_index(prg_len: int, address: u16) -> int {
    if prg_len == 0x4000 {
        ((address & 0xBFFF) & 0x7FFF) as int
    } else {
        (address & 0x7FFF) as int
    }
}

/// The value a read yields for every address outside the PPU window:
/// mirrored RAM, 0 for out-of-range addresses, PRG ROM bytes above
/// 0x8000. (The PPU-window branch of this total function is never
/// exposed: the executable read faults there.)
pub open spec fn region_read(ram: Seq<u8>, prg: Seq<u8>, address: u16) -> u8 {
    if address < 0x2000 {
        ram[ram_index(address)]
    } else if address < 0x8000 {
        0
    } else {
        prg[rom_index(prg.len() as int, address)]
    }
}

/// The byte a bus read actually yields at `address`: the decode table's
/// value, except that once an embedded program has pointed the reset
/// vector somewhere, the two vector bytes 0xFFFC-0xFFFD are served from
/// that cell instead of the cartridge ROM.
pub open spec fn decoded_read(
    ram: Seq<u8>,
    prg: Seq<u8>,
    vector: Option<u16>,
    address: u16,
) -> u8 {
    match vector {
        Some(v) => if address == 0xFFFC {
            lo_byte(v)
        } else if address == 0xFFFD {
            hi_byte(v)
        } else {
            region_read(ram, prg, address)
        },
        None => region_read(ram, prg, address),
    }
}

/// A data write to `address` succeeds: it lands in RAM or is dropped as
/// out-of-range; PPU-window and ROM-window writes are fatal.
pub open spec fn write_ok(address: u16) -> bool {
    address < 0x2000 || (0x4000 <= address < 0x8000)
}

/// The exact outcome of a one-byte write to `address`.
pub open spec fn write_outcome(address: u16) -> Result<(), Fault> {
    if address < 0x2000 {
        Ok(())
    } else if in_ppu_window(address) {
        Err(Fault::PpuWrite { address })
    } else if address < 0x8000 {
        Ok(())
    } else {
        Err(Fault::RomWrite { address })
    }
}

/// RAM contents after a data write to `address`: updated behind the
/// mirror for RAM-window addresses, untouched when the write was dropped.
pub open spec fn ram_after_write(ram: Seq<u8>, address: u16, data: u8) -> Seq<u8> {
    if address < 0x2000 {
        ram.update(ram_index(address), data)
    } else {
        ram
    }
}

/// Mask facts for the RAM window: the mirror index is stable under
/// re-masking and always inside the 2KB RAM.
proof fn lemma_ram_mask(address: u16)
    by (bit_vector)
    ensures
        address & 0x07FF < 0x800,
        (address & 0x07FF) & 0x07FF == address & 0x07FF,
        address < 0x2000 ==> (address & 0x07FF) < 0x2000,
{
}

/// Mask facts for the ROM window: both the mirrored and the direct index
/// stay inside the addressable PRG ROM lengths.
proof fn lemma_rom_mask(address: u16)
    by (bit_vector)
    ensures
        (address & 0xBFFF) & 0x7FFF < 0x4000,
        address & 0x7FFF < 0x8000,
{
}

/// The bus. It owns the RAM and the cartridge outright; no other entity
/// reads or writes memory except through `read` and `write`.
pub struct Bus {
    pub cpu_vram: Vec<u8>,
    pub cartridge: Cartridge,
    /// Reset-vector cell for embedded programs: when set, reads of
    /// 0xFFFC-0xFFFD are served from here instead of the (immutable)
    /// cartridge ROM. The cartridge path never sets it.
    pub reset_vector: Option<u16>,
}

impl Bus {
    /// RAM has its fixed 2KB size and the PRG ROM one of the lengths the
    /// decoder can serve.
    pub open spec fn wf(self) -> bool {
        &&& self.cpu_vram@.len() == 0x800
        &&& prg_addressable(self.cartridge.prg_rom@.len() as int)
    }

    /// What `read` returns: a fault inside the PPU window, otherwise the
    /// decoded byte.
    pub open spec fn read_result(self, address: u16) -> Result<u8, Fault> {
        if in_ppu_window(address) {
            Err(Fault::PpuRead { address })
        } else {
            Ok(decoded_read(self.cpu_vram@, self.cartridge.prg_rom@, self.reset_vector, address))
        }
    }

    /// Builds a bus over a loaded cartridge, with RAM zeroed.
    pub fn new(cartridge: Cartridge) -> (r: Bus)
        ensures
            r.cartridge == cartridge,
            r.cpu_vram@.len() == 0x800,
            forall|i: int| 0 <= i < 0x800 ==> r.cpu_vram@[i] == 0,
            r.reset_vector is None,
            prg_addressable(cartridge.prg_rom@.len() as int) ==> r.wf(),
    {
        let mut cpu_vram: Vec<u8> = Vec::new();
        let mut i: usize = 0;
        while i < 0x800
            invariant
                i <= 0x800,
                cpu_vram@.len() == i,
                forall|j: int| 0 <= j < i ==> cpu_vram@[j] == 0,
            decreases 0x800 - i,
        {
            cpu_vram.push(0x00);
            i = i + 1;
        }
        Bus { cpu_vram, cartridge, reset_vector: None }
    }

    /// Points the reset vector at an embedded program: afterwards the
    /// two vector bytes read back as `target`, while the cartridge ROM
    /// itself stays immutable and unwritable and every other address
    /// keeps the decode table's behavior.
    pub fn set_reset_vector(&mut self, target: u16)
        ensures
            final(self).cpu_vram@ == old(self).cpu_vram@,
            final(self).cartridge == old(self).cartridge,
            final(self).reset_vector == Some(target),
    {
        self.reset_vector = Some(target);
    }

    /// One byte at `address`, per the decode table.
    pub fn read(&self, address: u16) -> (r: Result<u8, Fault>)
        requires
            self.wf(),
        ensures
            r == self.read_result(address),
    {
        proof {
            lemma_ram_mask(address);
            lemma_rom_mask(address);
        }
        if address == 0xFFFC || address == 0xFFFD {
            if let Some(v) = self.reset_vector {
                return Ok(
                    if address == 0xFFFC {
                        crate::word::word_lo(v)
                    } else {
                        crate::word::word_hi(v)
                    },
                );
            }
        }
        if address < 0x2000 {
            Ok(self.cpu_vram[(address & 0x07FF) as usize])
        } else if address < 0x4000 {
            Err(Fault::PpuRead { address })
        } else if address < 0x8000 {
            // Out-of-range access: non-fatal, reads as 0.
            Ok(0)
        } else {
            let index = if self.cartridge.prg_rom.len() == 0x4000 {
                (address & 0xBFFF) & 0x7FFF
            } else {
                address & 0x7FFF
            };
            Ok(self.cartridge.prg_rom[index as usize])
        }
    }

    /// Stores one byte at `address`: RAM writes land behind the mirror,
    /// PPU-window and ROM-window writes are fatal, out-of-range writes
    /// are dropped. The cartridge is never touched.
    pub fn write(&mut self, address: u16, data: u8) -> (r: Result<(), Fault>)
        requires
            old(self).wf(),
        ensures
            final(self).wf(),
            final(self).cartridge == old(self).cartridge,
            final(self).reset_vector == old(self).reset_vector,
            r == write_outcome(address),
            address < 0x2000 ==> r is Ok && final(self).cpu_vram@ == old(self).cpu_vram@.update(
                ram_index(address),
                data,
            ),
            in_ppu_window(address) ==> r == Err::<(), Fault>(Fault::PpuWrite { address }) && final(self).cpu_vram@ == old(self).cpu_vram@,
            0x4000 <= address < 0x8000 ==> r is Ok && final(self).cpu_vram@ == old(self).cpu_vram@,
            address >= 0x8000 ==> r == Err::<(), Fault>(Fault::RomWrite { address }) && final(self).cpu_vram@
                == old(self).cpu_vram@,
    {
        proof {
            lemma_ram_mask(address);
        }
        if address < 0x2000 {
            self.cpu_vram.set((address & 0x07FF) as usize, data);
            Ok(())
        } else if address < 0x4000 {
            Err(Fault::PpuWrite { address })
        } else if address < 0x8000 {
            // Out-of-range access: non-fatal, the write is dropped.
            Ok(())
        } else {
            Err(Fault::RomWrite { address })
        }
    }

    /// 16-bit little-endian read: low byte at `address`, high byte at the
    /// wrapping successor address.
    pub fn read_u16(&self, address: u16) -> (r: Result<u16, Fault>)
        requires
            self.wf(),
        ensures
            !in_ppu_window(address) && !in_ppu_window(address.wrapping_add(1)) ==> r == Ok::<u16, Fault>(
                word(
                    decoded_read(self.cpu_vram@, self.cartridge.prg_rom@, self.reset_vector, address),
                    decoded_read(
                        self.cpu_vram@,
                        self.cartridge.prg_rom@,
                        self.reset_vector,
                        address.wrapping_add(1),
                    ),
                ),
            ),
            in_ppu_window(address) ==> r == Err::<u16, Fault>(Fault::PpuRead { address }),
            !in_ppu_window(address) && in_ppu_window(address.wrapping_add(1)) ==> r == Err::<u16, Fault>(
                Fault::PpuRead { address: address.wrapping_add(1) },
            ),
    {
        let lo = match self.read(address) {
            Ok(v) => v,
            Err(f) => {
                return Err(f);
            },
        };
        let hi = match self.read(address.wrapping_add(1)) {
            Ok(v) => v,
            Err(f) => {
                return Err(f);
            },
        };
        Ok(make_word(lo, hi))
    }

    /// 16-bit little-endian write: low byte at `address` first, then the
    /// high byte at the wrapping successor address.
    pub fn write_u16(&mut self, address: u16, data: u16) -> (r: Result<(), Fault>)
        requires
            old(self).wf(),
        ensures
            final(self).wf(),
            final(self).cartridge == old(self).cartridge,
            final(self).reset_vector == old(self).reset_vector,
            ({
                // Strictly two 8-bit writes: the low byte's outcome first,
                // then - only if the low byte landed or was dropped - the
                // high byte's outcome at the wrapping successor address.
                let next = address.wrapping_add(1);
                match write_outcome(address) {
                    Err(f) => r == Err::<(), Fault>(f) && final(self).cpu_vram@ == old(
                        self,
                    ).cpu_vram@,
                    Ok(_) => {
                        let ram1 = ram_after_write(old(self).cpu_vram@, address, lo_byte(data));
                        match write_outcome(next) {
                            Err(f) => r == Err::<(), Fault>(f) && final(self).cpu_vram@ == ram1,
                            Ok(_) => r is Ok && final(self).cpu_vram@ == ram_after_write(
                                ram1,
                                next,
                                hi_byte(data),
                            ),
                        }
                    },
                }
            }),
    {
        let lo = word_lo(data);
        let hi = word_hi(data);
        match self.write(address, lo) {
            Ok(_) => {},
            Err(f) => {
                return Err(f);
            },
        }
        match self.write(address.wrapping_add(1), hi) {
            Ok(_) => {},
            Err(f) => {
                return Err(f);
            },
        }
        Ok(())
    }
}

/// RAM mirroring round-trip: after a write lands at the physical index
/// behind `address`, reading `address` and reading `address & 0x07FF`
/// both yield the written byte, for every address in the RAM window.
pub proof fn lemma_ram_mirroring(
    ram: Seq<u8>,
    prg: Seq<u8>,
    vector: Option<u16>,
    address: u16,
    data: u8,
)
    requires
        ram.len() == 0x800,
        address < 0x2000,
    ensures
        decoded_read(ram.update(ram_index(address), data), prg, vector, address) == data,
        decoded_read(ram.update(ram_index(address), data), prg, vector, address) == decoded_read(
            ram.update(ram_index(address), data),
            prg,
            vector,
            (address & 0x07FF) as u16,
        ),
{
    lemma_ram_mask(address);
    assert(((address & 0x07FF) as u16) & 0x07FF == address & 0x07FF) by (bit_vector);
}

/// Bank mirroring round-trip for a 16KB PRG ROM: the upper half of the
/// ROM window reads the same bytes as the lower half.
pub proof fn lemma_rom_bank_mirroring(ram: Seq<u8>, prg: Seq<u8>, vector: Option<u16>, k: u16)
    requires
        prg.len() == 0x4000,
        k < 0x4000,
        vector is None,
    ensures
        decoded_read(ram, prg, vector, (0x8000 + k) as u16) == prg[k as int],
        decoded_read(ram, prg, vector, (0xC000 + k) as u16) == prg[k as int],
{
    assert(k < 0x4000 ==> (((0x8000 + k) as u16) & 0xBFFF) & 0x7FFF == k) by (bit_vector);
    assert(k < 0x4000 ==> (((0xC000 + k) as u16) & 0xBFFF) & 0x7FFF == k) by (bit_vector);
}

} // verus!
