use vstd::prelude::*;

verus! {

/// A machine's memory map: where the processor's 16-bit addresses land in
/// ROM and RAM.
pub trait MemoryMap {
    /// The ROM images that `load_rom` accepts.
    spec fn accepts_roms(&self, roms: Seq<Vec<u8>>) -> bool;

    /// Reading `addr` lands in the map.
    spec fn readable(&self, addr: u16) -> bool;

    /// A slice can start at `addr`.
    spec fn sliceable(&self, addr: u16) -> bool;

    /// Copy the ROM images into the read-only part of the map.
    fn load_rom(&mut self, roms: &[Vec<u8>])
        requires
            old(self).accepts_roms(roms@),
    ;

    /// The byte at `addr`.
    fn read(&mut self, addr: u16) -> u8
        requires
            old(self).readable(addr),
    ;

    /// The bytes from `addr` to the end of the region that holds it.
    fn read_slice(&mut self, addr: u16) -> &[u8]
        requires
            old(self).sliceable(addr),
    ;

    /// Store `val` at `addr`; writes outside RAM are ignored.
    fn write(&mut self, addr: u16, val: u8);
}

/// `base` with the first `min(data.len(), limit)` bytes of `data` laid over
/// it from position `offset`.
pub open spec fn overlay(base: Seq<u8>, offset: int, data: Seq<u8>, limit: int) -> Seq<u8> {
    let n = if data.len() < limit { data.len() as int } else { limit };
    Seq::new(base.len(), |i: int| if offset <= i < offset + n { data[i - offset] } else { base[i] })
}

/// The contents of a ROM/RAM memory map: the ROM, the working RAM and the
/// video RAM.
pub struct MemoryBanks {
    pub rom: Seq<u8>,
    pub working_ram: Seq<u8>,
    pub video_ram: Seq<u8>,
}

/// A sequence of `n` zero bytes.
pub open spec fn zeros(n: nat) -> Seq<u8> {
    Seq::new(n, |i: int| 0u8)
}

/// Copy the first `min(data.len(), limit)` bytes of `data` into `dst` from
/// position `offset`.
pub fn copy_chunk(dst: &mut [u8], offset: usize, data: &[u8], limit: usize)
    requires
        offset + limit <= old(dst)@.len(),
    ensures
        final(dst)@ == overlay(old(dst)@, offset as int, data@, limit as int),
{
    let n = if data.len() < limit {
        data.len()
    } else {
        limit
    };
    let mut k: usize = 0;
    while k < n
        invariant
            n <= limit,
            n <= data@.len(),
            offset + limit <= dst@.len(),
            k <= n,
            dst@.len() == old(dst)@.len(),
            dst@.len() == dst.len(),
            forall|i: int|
                0 <= i < dst@.len() ==> #[trigger] dst@[i] == (if offset <= i < offset + k {
                    data@[i - offset]
                } else {
                    old(dst)@[i]
                }),
        decreases n - k,
    {
        dst[offset + k] = data[k];
        k = k + 1;
    }
    assert(dst@ =~= overlay(old(dst)@, offset as int, data@, limit as int));
}

} // verus!
