use vstd::prelude::*;

use crate::memory_bus::{MemoryBanks, MemoryMap, copy_chunk, overlay, zeros};

verus! {

pub const ROM_BEGIN: usize = 0x0000;

pub const ROM_END: usize = 0x47FF;

pub const ROM_SIZE: usize = ROM_END - ROM_BEGIN + 1;

pub const WORKING_RAM_BEGIN: usize = 0x2000;

pub const WORKING_RAM_END: usize = 0x23FF;

pub const WORKING_RAM_SIZE: usize = WORKING_RAM_END - WORKING_RAM_BEGIN + 1;

pub const VIDEO_RAM_BEGIN: usize = 0x2400;

pub const VIDEO_RAM_END: usize = 0x3FFF;

pub const VIDEO_RAM_SIZE: usize = VIDEO_RAM_END - VIDEO_RAM_BEGIN + 1;

pub const RAM_MIRROR_BEGIN: usize = 0x4800;

pub const RAM_MIRROR_END: usize = 0x87FF;

/// Size of each ROM image (tn01 to tn04 and tn05-1).
pub const ROM_CHUNK_SIZE: usize = 0x800;

/// Where the fifth ROM image (tn05-1) is loaded.
pub const ROM_HIGH_CHUNK: usize = 0x4000;

/// The Balloon Bombers memory map: ROM from 0x0000 to 0x47FF, with the
/// working RAM at 0x2000, the video RAM at 0x2400, and a mirror of the
/// working RAM from 0x4800.
pub struct BalloonBombersMemory {
    rom: [u8; ROM_SIZE],
    working_ram: [u8; WORKING_RAM_SIZE],
    video_ram: [u8; VIDEO_RAM_SIZE],
}

impl View for BalloonBombersMemory {
    type V = MemoryBanks;

    closed spec fn view(&self) -> MemoryBanks {
        MemoryBanks { rom: self.rom@, working_ram: self.working_ram@, video_ram: self.video_ram@ }
    }
}

/// The ROM after loading the five images: tn01 to tn04 fill the 2K blocks
/// from 0x0000, tn05-1 the 2K block at 0x4000.
pub open spec fn rom_after_load(rom: Seq<u8>, roms: Seq<Vec<u8>>) -> Seq<u8> {
    let c = ROM_CHUNK_SIZE as int;
    overlay(
        overlay(
            overlay(overlay(overlay(rom, 0, roms[0]@, c), c, roms[1]@, c), 2 * c, roms[2]@, c),
            3 * c,
            roms[3]@,
            c,
        ),
        ROM_HIGH_CHUNK as int,
        roms[4]@,
        c,
    )
}

/// The byte that reading `addr` yields: the RAM regions take precedence
/// over the ROM that spans them.
pub open spec fn byte_at(m: MemoryBanks, addr: u16) -> u8 {
    let a = addr as int;
    if WORKING_RAM_BEGIN <= a <= WORKING_RAM_END {
        m.working_ram[a - WORKING_RAM_BEGIN]
    } else if VIDEO_RAM_BEGIN <= a <= VIDEO_RAM_END {
        m.video_ram[a - VIDEO_RAM_BEGIN]
    } else if a <= ROM_END {
        m.rom[a]
    } else {
        m.working_ram[a - RAM_MIRROR_BEGIN]
    }
}

/// The bytes that `read_slice(addr)` yields.
pub open spec fn slice_at(m: MemoryBanks, addr: u16) -> Seq<u8> {
    let a = addr as int;
    if WORKING_RAM_BEGIN <= a <= WORKING_RAM_END {
        m.working_ram.subrange(a - WORKING_RAM_BEGIN, WORKING_RAM_SIZE as int)
    } else if VIDEO_RAM_BEGIN <= a <= VIDEO_RAM_END {
        m.video_ram.subrange(a - VIDEO_RAM_BEGIN, VIDEO_RAM_SIZE as int)
    } else if a <= ROM_END {
        m.rom.subrange(a, ROM_END as int)
    } else {
        m.working_ram.subrange(a - RAM_MIRROR_BEGIN, WORKING_RAM_SIZE as int)
    }
}

/// The banks after a write of `val` to `addr`: only the working and video
/// RAM take writes.
pub open spec fn after_write(m: MemoryBanks, addr: u16, val: u8) -> MemoryBanks {
    let a = addr as int;
    if WORKING_RAM_BEGIN <= a <= WORKING_RAM_END {
        MemoryBanks { working_ram: m.working_ram.update(a - WORKING_RAM_BEGIN, val), ..m }
    } else if VIDEO_RAM_BEGIN <= a <= VIDEO_RAM_END {
        MemoryBanks { video_ram: m.video_ram.update(a - VIDEO_RAM_BEGIN, val), ..m }
    } else {
        m
    }
}

impl BalloonBombersMemory {
    /// Lengths of the banks.
    pub open spec fn wf_banks(m: MemoryBanks) -> bool {
        &&& m.rom.len() == ROM_SIZE
        &&& m.working_ram.len() == WORKING_RAM_SIZE
        &&& m.video_ram.len() == VIDEO_RAM_SIZE
    }

    /// Every memory map has banks of these lengths.
    pub proof fn lemma_banks_sized(&self)
        ensures
            Self::wf_banks(self@),
    {
    }

    /// A memory map with the five ROM images loaded and the RAM cleared.
    pub fn new(roms: &[Vec<u8>]) -> (r: Self)
        requires
            roms@.len() == 5,
        ensures
            Self::wf_banks(r@),
            r@.rom == rom_after_load(zeros(ROM_SIZE as nat), roms@),
            r@.working_ram == zeros(WORKING_RAM_SIZE as nat),
            r@.video_ram == zeros(VIDEO_RAM_SIZE as nat),
    {
        let buffer = [0; ROM_SIZE];
        let mut memory = Self {
            rom: buffer,
            working_ram: [0; WORKING_RAM_SIZE],
            video_ram: [0; VIDEO_RAM_SIZE],
        };
        proof {
            assert(memory.rom@ =~= zeros(ROM_SIZE as nat));
            assert(memory.working_ram@ =~= zeros(WORKING_RAM_SIZE as nat));
            assert(memory.video_ram@ =~= zeros(VIDEO_RAM_SIZE as nat));
        }
        memory.load_rom(roms);
        memory
    }
}

impl MemoryMap for BalloonBombersMemory {
    open spec fn accepts_roms(&self, roms: Seq<Vec<u8>>) -> bool {
        roms.len() == 5
    }

    open spec fn readable(&self, addr: u16) -> bool {
        (addr as int) < RAM_MIRROR_BEGIN + WORKING_RAM_SIZE
    }

    open spec fn sliceable(&self, addr: u16) -> bool {
        (addr as int) <= RAM_MIRROR_BEGIN + WORKING_RAM_SIZE
    }

    /// Load tn01, tn02, tn03 and tn04 into consecutive 2K blocks of the ROM
    /// and tn05-1 at 0x4000.
    fn load_rom(&mut self, roms: &[Vec<u8>])
        ensures
            final(self)@ == (MemoryBanks { rom: rom_after_load(old(self)@.rom, roms@), ..old(self)@ }),
            Self::wf_banks(final(self)@),
    {
        let mut addr: usize = 0;
        let mut k: usize = 0;
        while k < 4
            invariant
                roms@.len() == 5,
                addr == ROM_CHUNK_SIZE * k,
                k <= 4,
                self.working_ram@ == old(self).working_ram@,
                self.video_ram@ == old(self).video_ram@,
                self.rom@ == (if k == 0 {
                    old(self).rom@
                } else if k == 1 {
                    overlay(old(self).rom@, 0, roms@[0]@, 0x800)
                } else if k == 2 {
                    overlay(overlay(old(self).rom@, 0, roms@[0]@, 0x800), 0x800, roms@[1]@, 0x800)
                } else if k == 3 {
                    overlay(
                        overlay(overlay(old(self).rom@, 0, roms@[0]@, 0x800), 0x800, roms@[1]@, 0x800),
                        0x1000,
                        roms@[2]@,
                        0x800,
                    )
                } else {
                    overlay(
                        overlay(
                            overlay(overlay(old(self).rom@, 0, roms@[0]@, 0x800), 0x800, roms@[1]@, 0x800),
                            0x1000,
                            roms@[2]@,
                            0x800,
                        ),
                        0x1800,
                        roms@[3]@,
                        0x800,
                    )
                }),
            decreases 4 - k,
        {
            copy_chunk(&mut self.rom, addr, roms[k].as_slice(), ROM_CHUNK_SIZE);
            addr += ROM_CHUNK_SIZE;
            k += 1;
        }

        addr = ROM_HIGH_CHUNK;
        copy_chunk(&mut self.rom, addr, roms[4].as_slice(), ROM_CHUNK_SIZE);
    }

    /// The byte at `addr`; 0x4800 to 0x4BFF mirror the working RAM.
    fn read(&mut self, addr: u16) -> (r: u8)
        ensures
            r == byte_at(old(self)@, addr),
            final(self)@ == old(self)@,
    {
        let addr = addr as usize;
        if WORKING_RAM_BEGIN <= addr && addr <= WORKING_RAM_END {
            self.working_ram[addr - WORKING_RAM_BEGIN]
        } else if VIDEO_RAM_BEGIN <= addr && addr <= VIDEO_RAM_END {
            self.video_ram[addr - VIDEO_RAM_BEGIN]
        } else if addr <= ROM_END {
            self.rom[addr]
        } else {
            self.working_ram[addr - RAM_MIRROR_BEGIN]
        }
    }

    /// The bytes from `addr` to the end of its region.
    fn read_slice(&mut self, addr: u16) -> (r: &[u8])
        ensures
            r@ == slice_at(old(self)@, addr),
            Self::wf_banks(old(self)@),
    {
        let addr = addr as usize;
        if WORKING_RAM_BEGIN <= addr && addr <= WORKING_RAM_END {
            &self.working_ram.as_slice()[addr - WORKING_RAM_BEGIN..WORKING_RAM_SIZE]
        } else if VIDEO_RAM_BEGIN <= addr && addr <= VIDEO_RAM_END {
            &self.video_ram.as_slice()[addr - VIDEO_RAM_BEGIN..VIDEO_RAM_SIZE]
        } else if addr <= ROM_END {
            &self.rom.as_slice()[addr..ROM_END]
        } else {
            &self.working_ram.as_slice()[addr - RAM_MIRROR_BEGIN..WORKING_RAM_SIZE]
        }
    }

    /// Store `val` at `addr` if it is in the working or video RAM.
    fn write(&mut self, addr: u16, val: u8)
        ensures
            final(self)@ == after_write(old(self)@, addr, val),
            Self::wf_banks(final(self)@),
    {
        let addr = addr as usize;
        if WORKING_RAM_BEGIN <= addr && addr <= WORKING_RAM_END {
            self.working_ram[addr - WORKING_RAM_BEGIN] = val;
        } else if VIDEO_RAM_BEGIN <= addr && addr <= VIDEO_RAM_END {
            self.video_ram[addr - VIDEO_RAM_BEGIN] = val;
        }
    }
}

/// Reading a RAM address gives back what was last written there; writes
/// anywhere else (ROM and the mirror) change nothing; 0x4800 + k reads what
/// 0x2000 + k reads.
pub proof fn law_balloon_read_after_write(m: MemoryBanks, addr: u16, val: u8, k: u16)
    requires
        BalloonBombersMemory::wf_banks(m),
    ensures
        WORKING_RAM_BEGIN <= addr <= VIDEO_RAM_END ==> byte_at(after_write(m, addr, val), addr)
            == val,
        !(WORKING_RAM_BEGIN <= addr <= VIDEO_RAM_END) ==> after_write(m, addr, val) == m,
        k < WORKING_RAM_SIZE ==> byte_at(m, (RAM_MIRROR_BEGIN + k) as u16) == byte_at(
            m,
            (WORKING_RAM_BEGIN + k) as u16,
        ),
{
}

} // verus!
