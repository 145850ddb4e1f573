//! iNES cartridge images: parsing a raw byte image into mapper number,
//! nametable mirroring mode and the PRG/CHR ROM payloads.
//!
//! Layout of an image: a 16-byte header (4 magic bytes, PRG ROM size in 16KB
//! units at byte 4, CHR ROM size in 8KB units at byte 5, flag bytes 6 and 7),
//! then an optional 512-byte trainer block, then the PRG ROM bytes, then the
//! CHR ROM bytes.

use vstd::prelude::*;

verus! {

/// How the cartridge maps the PPU nametables: several address ranges
/// aliasing the same physical storage.
#[derive(Clone, Copy, Debug, PartialEq, Eq, Structural)]
pub enum Mirroring {
    Horizontal,
    Vertical,
    FourScreen,
}

/// A parsed cartridge. Immutable after load: the loader either produces a
/// fully valid value or fails, and nothing in the core ever writes to it.
#[derive(Debug)]
pub struct Cartridge {
    pub mapper: u8,
    pub prg_rom: Vec<u8>,
    pub chr_rom: Vec<u8>,
    pub nametable_mirroring: Mirroring,
}

/// The image is at least one header long and starts with the iNES magic
/// sequence 4E 45 53 1A.
pub open spec fn magic_ok(raw: Seq<u8>) -> bool {
    &&& raw.len() >= 16
    &&& raw[0] == 0x4E
    &&& raw[1] == 0x45
    &&& raw[2] == 0x53
    &&& raw[3] == 0x1A
}

/// Bits 2-3 of header byte 7 are the NES-2.0 marker; this loader only
/// accepts images with the marker clear.
pub open spec fn nes2_clear(raw: Seq<u8>) -> bool {
    (raw[7] >> 2) & 0x03 == 0
}

/// Header byte 6, bit 2: a 512-byte trainer block follows the header.
pub open spec fn trainer_present(raw: Seq<u8>) -> bool {
    raw[6] & 0x04 == 0x04
}

/// Offset of the first PRG ROM byte in the raw image: the 16-byte header,
/// shifted a further 512 bytes when a trainer block is present.
pub open spec fn prg_rom_start(raw: Seq<u8>) -> int {
    if trainer_present(raw) {
        528int
    } else {
        16int
    }
}

/// PRG ROM byte count: header byte 4 counts 16KB units.
pub open spec fn prg_rom_size(raw: Seq<u8>) -> int {
    (raw[4] as int) * 16384
}

/// CHR ROM byte count: header byte 5 counts 8KB units.
pub open spec fn chr_rom_size(raw: Seq<u8>) -> int {
    (raw[5] as int) * 8192
}

/// The raw image holds every byte the header declares; an undersized image
/// is rejected rather than silently truncated.
pub open spec fn image_complete(raw: Seq<u8>) -> bool {
    raw.len() >= prg_rom_start(raw) + prg_rom_size(raw) + chr_rom_size(raw)
}

/// Mirroring resolution from header byte 6: the four-screen bit (bit 3)
/// takes priority over the vertical bit (bit 0).
pub open spec fn resolve_mirroring(byte6: u8) -> Mirroring {
    if byte6 & 0x08 == 0x08 {
        Mirroring::FourScreen
    } else if byte6 & 0x01 == 0x01 {
        Mirroring::Vertical
    } else {
        Mirroring::Horizontal
    }
}

/// Mapper number: low nibble from the high nibble of byte 6, high nibble
/// from the high nibble of byte 7.
pub open spec fn mapper_of(raw: Seq<u8>) -> u8 {
    (raw[7] & 0xF0) | (raw[6] >> 4)
}

/// The single relation the loader establishes: `c` is exactly the cartridge
/// described by the valid image `raw`.
pub open spec fn loads_to(raw: Seq<u8>, c: Cartridge) -> bool {
    &&& magic_ok(raw)
    &&& nes2_clear(raw)
    &&& image_complete(raw)
    &&& c.mapper == mapper_of(raw)
    &&& c.nametable_mirroring == resolve_mirroring(raw[6])
    &&& c.prg_rom@ == raw.subrange(prg_rom_start(raw), prg_rom_start(raw) + prg_rom_size(raw))
    &&& c.chr_rom@ == raw.subrange(
        prg_rom_start(raw) + prg_rom_size(raw),
        prg_rom_start(raw) + prg_rom_size(raw) + chr_rom_size(raw),
    )
}

/// Copies `v[start .. start + len]` into a fresh vector.
fn copy_range(v: &Vec<u8>, start: usize, len: usize) -> (r: Vec<u8>)
    requires
        start + len <= v.len(),
    ensures
        r@ == v@.subrange(start as int, start as int + len as int),
{
    let mut r: Vec<u8> = Vec::new();
    assert(r@ =~= v@.subrange(start as int, start as int));
    let mut i: usize = 0;
    while i < len
        invariant
            start + len <= v.len(),
            i <= len,
            r@ == v@.subrange(start as int, start as int + i as int),
        decreases len - i,
    {
        r.push(v[start + i]);
        i = i + 1;
        assert(r@ =~= v@.subrange(start as int, start as int + i as int));
    }
    r
}

impl Cartridge {
    /// Parses a raw iNES image. Either a fully valid cartridge is produced
    /// or a typed failure; no partial value is ever observable.
    pub fn new(raw: &Vec<u8>) -> (r: Result<Cartridge, String>)
        ensures
            r is Ok <==> magic_ok(raw@) && nes2_clear(raw@) && image_complete(raw@),
            (r matches Ok(c) ==> loads_to(raw@, c)),
            !magic_ok(raw@) ==> (r matches Err(m) && m@ == "File is not in iNES file format"@),
            magic_ok(raw@) && !nes2_clear(raw@) ==> (r matches Err(m) && m@
                == "NES 2.0 format is not supported"@),
            magic_ok(raw@) && nes2_clear(raw@) && !image_complete(raw@) ==> (r matches Err(m)
                && m@ == "File is shorter than its iNES header declares"@),
    {
        if raw.len() < 16 || !(raw[0] == 0x4E && raw[1] == 0x45 && raw[2] == 0x53 && raw[3] == 0x1A)
        {
            return Err("File is not in iNES file format".to_owned());
        }
        if (raw[7] >> 2) & 0x03 != 0 {
            return Err("NES 2.0 format is not supported".to_owned());
        }

        let mapper = (raw[7] & 0xF0) | (raw[6] >> 4);

        let mirroring = if raw[6] & 0x08 == 0x08 {
            Mirroring::FourScreen
        } else if raw[6] & 0x01 == 0x01 {
            Mirroring::Vertical
        } else {
            Mirroring::Horizontal
        };

        let has_trainer = raw[6] & 0x04 == 0x04;

        let prg_rom_start: usize = if has_trainer { 16 + 512 } else { 16 };
        let prg_rom_size: usize = (raw[4] as usize) * 16384;
        let chr_rom_start: usize = prg_rom_start + prg_rom_size;
        let chr_rom_size: usize = (raw[5] as usize) * 8192;

        if raw.len() < chr_rom_start + chr_rom_size {
            return Err("File is shorter than its iNES header declares".to_owned());
        }

        let prg_rom = copy_range(raw, prg_rom_start, prg_rom_size);
        let chr_rom = copy_range(raw, chr_rom_start, chr_rom_size);

        Ok(Cartridge { mapper, prg_rom, chr_rom, nametable_mirroring: mirroring })
    }
}

/// The loaded ROM slices have exactly the lengths the header declares:
/// 16384 bytes per PRG unit and 8192 bytes per CHR unit.
pub proof fn lemma_rom_slice_lengths(raw: Seq<u8>, c: Cartridge)
    requires
        loads_to(raw, c),
    ensures
        c.prg_rom@.len() == 16384 * (raw[4] as int),
        c.chr_rom@.len() == 8192 * (raw[5] as int),
{
}

/// The mirroring truth table: the four-screen bit wins; otherwise the
/// vertical bit selects between Vertical and Horizontal.
pub proof fn lemma_mirroring_truth_table(byte6: u8)
    ensures
        byte6 & 0x08 == 0 && byte6 & 0x01 == 0 ==> resolve_mirroring(byte6)
            == Mirroring::Horizontal,
        byte6 & 0x08 == 0 && byte6 & 0x01 == 0x01 ==> resolve_mirroring(byte6)
            == Mirroring::Vertical,
        byte6 & 0x08 == 0x08 ==> resolve_mirroring(byte6) == Mirroring::FourScreen,
{
}

/// `raw` with the trainer flag raised in header byte 6 and a 512-byte
/// trainer block inserted between header and payload.
pub open spec fn with_trainer(raw: Seq<u8>, trainer: Seq<u8>) -> Seq<u8> {
    raw.subrange(0, 6) + seq![raw[6] | 0x04] + raw.subrange(7, 16) + trainer + raw.skip(16)
}

/// Inserting a trainer block shifts the PRG ROM start by exactly 512 bytes
/// and leaves the loaded PRG and CHR contents untouched.
pub proof fn lemma_trainer_block_only_shifts(raw: Seq<u8>, trainer: Seq<u8>, c0: Cartridge, c1: Cartridge)
    requires
        magic_ok(raw),
        !trainer_present(raw),
        trainer.len() == 512,
        loads_to(raw, c0),
        loads_to(with_trainer(raw, trainer), c1),
    ensures
        prg_rom_start(with_trainer(raw, trainer)) == prg_rom_start(raw) + 512,
        c1.prg_rom@ == c0.prg_rom@,
        c1.chr_rom@ == c0.chr_rom@,
{
    let raw2 = with_trainer(raw, trainer);
    let b6 = raw[6];
    assert((b6 | 0x04) & 0x04 == 0x04) by (bit_vector);
    assert(raw2[4] == raw[4]);
    assert(raw2[5] == raw[5]);
    assert(raw2[6] == raw[6] | 0x04);
    assert(trainer_present(raw2));
    let ps = prg_rom_size(raw);
    let cs = chr_rom_size(raw);
    assert forall|i: int| 16 + 512 <= i < raw2.len() implies raw2[i] == raw[i - 512] by {
    }
    assert(c1.prg_rom@ =~= c0.prg_rom@);
    assert(c1.chr_rom@ =~= c0.chr_rom@);
}

} // verus!
