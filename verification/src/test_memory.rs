use vstd::prelude::*;

use crate::memory_bus::{MemoryMap, copy_chunk, overlay, zeros};

verus! {

/// Where CP/M programs such as the CPU test ROMs are loaded.
pub const PROGRAM_START: usize = 0x100;

/// A flat 64K RAM, as used to run the CPU test ROMs.
#[derive(Clone)]
pub struct TestMemory {
    pub memory: [u8; 0x10000],
}

impl TestMemory {
    /// A cleared memory with the program `rom` loaded at 0x100.
    pub fn new(rom: &[u8]) -> (r: Self)
        requires
            rom@.len() + PROGRAM_START <= 0x10000,
        ensures
            r.memory@ == overlay(zeros(0x10000), PROGRAM_START as int, rom@, rom@.len() as int),
    {
        let mut buffer = [0; 0x10000];
        proof {
            assert(buffer@ =~= zeros(0x10000));
        }
        copy_chunk(&mut buffer, PROGRAM_START, rom, rom.len());
        Self { memory: buffer }
    }
}

impl MemoryMap for TestMemory {
    open spec fn accepts_roms(&self, roms: Seq<Vec<u8>>) -> bool {
        roms.len() == 1 && roms[0]@.len() + PROGRAM_START <= 0x10000
    }

    open spec fn readable(&self, addr: u16) -> bool {
        true
    }

    open spec fn sliceable(&self, addr: u16) -> bool {
        true
    }

    /// Copy the program into memory from 0x100.
    fn load_rom(&mut self, roms: &[Vec<u8>])
        ensures
            final(self).memory@ == overlay(
                old(self).memory@,
                PROGRAM_START as int,
                roms@[0]@,
                roms@[0]@.len() as int,
            ),
    {
        let rom = roms[0].as_slice();
        copy_chunk(&mut self.memory, PROGRAM_START, rom, rom.len());
    }

    fn read(&mut self, addr: u16) -> (r: u8)
        ensures
            r == old(self).memory@[addr as int],
            final(self).memory@ == old(self).memory@,
    {
        self.memory[addr as usize]
    }

    fn read_slice(&mut self, addr: u16) -> (r: &[u8])
        ensures
            r@ == old(self).memory@.subrange(addr as int, 0x10000),
    {
        &self.memory.as_slice()[addr as usize..0x10000]
    }

    fn write(&mut self, addr: u16, val: u8)
        ensures
            final(self).memory@ == old(self).memory@.update(addr as int, val),
    {
        self.memory[addr as usize] = val;
    }
}

} // verus!
