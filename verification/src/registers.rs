use vstd::prelude::*;

verus! {

/// The 8080's general purpose registers. B/C, D/E and H/L pair up into
/// 16-bit registers, the first of each pair being the high byte.
#[derive(Debug)]
pub struct Registers {
    pub a: u8,
    pub b: u8,
    pub c: u8,
    pub d: u8,
    pub e: u8,
    pub h: u8,
    pub l: u8,
}

/// The 16-bit value of a register pair with high byte `hi` and low byte `lo`.
pub open spec fn pair(hi: u8, lo: u8) -> u16 {
    (hi as int * 256 + lo as int) as u16
}

/// Combine two bytes into a 16-bit word, `hi` being the high byte.
pub fn join_bytes(hi: u8, lo: u8) -> (r: u16)
    ensures
        r == pair(hi, lo),
        r == hi as int * 256 + lo as int,
{
    assert(((hi as u16) << 8u16 | lo as u16) == hi as int * 256 + lo as int) by (bit_vector);
    (hi as u16) << 8u16 | lo as u16
}

/// The high byte of a 16-bit word.
pub fn high_byte(v: u16) -> (r: u8)
    ensures
        r == v as int / 256,
{
    (v / 256) as u8
}

/// The low byte of a 16-bit word.
pub fn low_byte(v: u16) -> (r: u8)
    ensures
        r == v as int % 256,
{
    (v % 256) as u8
}

impl Registers {
    /// All registers zero.
    pub open spec fn cleared() -> Registers {
        Registers { a: 0, b: 0, c: 0, d: 0, e: 0, h: 0, l: 0 }
    }

    /// All registers zero.
    pub fn new() -> (r: Self)
        ensures
            r == Registers::cleared(),
    {
        Registers { a: 0, b: 0, c: 0, d: 0, e: 0, h: 0, l: 0 }
    }

    pub open spec fn bc(&self) -> u16 {
        pair(self.b, self.c)
    }

    pub open spec fn de(&self) -> u16 {
        pair(self.d, self.e)
    }

    pub open spec fn hl(&self) -> u16 {
        pair(self.h, self.l)
    }

    /// The register pair H/L as a 16-bit value.
    pub fn get_hl(&self) -> (r: u16)
        ensures
            r == self.hl(),
    {
        join_bytes(self.h, self.l)
    }

    /// The register pair B/C as a 16-bit value.
    pub fn get_bc(&self) -> (r: u16)
        ensures
            r == self.bc(),
    {
        join_bytes(self.b, self.c)
    }

    /// The register pair D/E as a 16-bit value.
    pub fn get_de(&self) -> (r: u16)
        ensures
            r == self.de(),
    {
        join_bytes(self.d, self.e)
    }

    /// Store a 16-bit value into H/L.
    pub fn set_hl(&mut self, v: u16)
        ensures
            final(self).h == v as int / 256,
            final(self).l == v as int % 256,
            final(self).hl() == v,
            final(self).a == old(self).a,
            final(self).b == old(self).b,
            final(self).c == old(self).c,
            final(self).d == old(self).d,
            final(self).e == old(self).e,
    {
        self.h = high_byte(v);
        self.l = low_byte(v);
    }

    /// Store a 16-bit value into B/C.
    pub fn set_bc(&mut self, v: u16)
        ensures
            final(self).b == v as int / 256,
            final(self).c == v as int % 256,
            final(self).bc() == v,
            final(self).a == old(self).a,
            final(self).d == old(self).d,
            final(self).e == old(self).e,
            final(self).h == old(self).h,
            final(self).l == old(self).l,
    {
        self.b = high_byte(v);
        self.c = low_byte(v);
    }

    /// Store a 16-bit value into D/E.
    pub fn set_de(&mut self, v: u16)
        ensures
            final(self).d == v as int / 256,
            final(self).e == v as int % 256,
            final(self).de() == v,
            final(self).a == old(self).a,
            final(self).b == old(self).b,
            final(self).c == old(self).c,
            final(self).h == old(self).h,
            final(self).l == old(self).l,
    {
        self.d = high_byte(v);
        self.e = low_byte(v);
    }
}

impl Default for Registers {
    fn default() -> (r: Self)
        ensures
            r == Registers::cleared(),
    {
        Registers::new()
    }
}

} // verus!
