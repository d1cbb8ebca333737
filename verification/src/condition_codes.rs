use vstd::prelude::*;

verus! {

/// The 8080's condition flags.
#[derive(Debug)]
pub struct ConditionCodes {
    pub carry: bool,
    pub zero: bool,
    pub sign: bool,
    pub parity: bool,
    pub aux_carry: bool,
}

/// Number of one bits in the binary representation of `v`.
pub open spec fn ones(v: nat) -> nat
    decreases v,
{
    if v == 0 {
        0
    } else {
        v % 2 + ones(v / 2)
    }
}

/// True when `v` has an even number of one bits (the 8080 parity flag).
pub open spec fn even_parity(v: u8) -> bool {
    ones(v as nat) % 2 == 0
}

/// True when every bit of `mask` is set in `v`.
pub open spec fn has_bits(v: u8, mask: u8) -> bool {
    v & mask == mask
}

/// The processor status word that encodes the flags `f`: bit 7 sign,
/// bit 6 zero, bit 4 auxiliary carry, bit 2 parity, bit 1 always set,
/// bit 0 carry.
pub open spec fn psw_of(f: ConditionCodes) -> u8 {
    (2 + (if f.sign { 0x80int } else { 0 }) + (if f.zero { 0x40int } else { 0 }) + (if f.aux_carry {
        0x10int
    } else {
        0
    }) + (if f.parity { 0x4int } else { 0 }) + (if f.carry { 0x1int } else { 0 })) as u8
}

/// The flags that a processor status word `psw` encodes.
pub open spec fn flags_of(psw: u8) -> ConditionCodes {
    ConditionCodes {
        carry: has_bits(psw, 0x1),
        zero: has_bits(psw, 0x40),
        sign: has_bits(psw, 0x80),
        parity: has_bits(psw, 0x4),
        aux_carry: has_bits(psw, 0x10),
    }
}

proof fn lemma_ones_bound(v: nat)
    ensures
        ones(v) <= v,
    decreases v,
{
    if v > 0 {
        lemma_ones_bound(v / 2);
    }
}

/// Number of one bits of `val`.
fn count_ones(val: u8) -> (r: u8)
    ensures
        r == ones(val as nat),
{
    proof {
        lemma_ones_bound(val as nat);
    }
    let mut v: u8 = val;
    let mut n: u8 = 0;
    while v > 0
        invariant
            n + ones(v as nat) == ones(val as nat),
            ones(val as nat) <= val,
        decreases v,
    {
        n = n + v % 2;
        v = v / 2;
    }
    n
}

impl ConditionCodes {
    /// All flags cleared.
    pub open spec fn cleared() -> ConditionCodes {
        ConditionCodes { carry: false, zero: false, sign: false, parity: false, aux_carry: false }
    }

    /// All flags cleared.
    pub fn new() -> (r: Self)
        ensures
            r == ConditionCodes::cleared(),
    {
        ConditionCodes { carry: false, zero: false, sign: false, parity: false, aux_carry: false }
    }

    pub fn set_carry(&mut self, carry: bool)
        ensures
            *final(self) == (ConditionCodes { carry, ..*old(self) }),
    {
        self.carry = carry
    }

    pub fn reset_carry(&mut self)
        ensures
            *final(self) == (ConditionCodes { carry: false, ..*old(self) }),
    {
        self.carry = false
    }

    /// Set the zero flag from a result byte.
    pub fn set_zero(&mut self, val: u8)
        ensures
            *final(self) == (ConditionCodes { zero: val == 0, ..*old(self) }),
    {
        assert((val & 0xFF) == val) by (bit_vector);
        self.zero = (val & 0xFF) == 0
    }

    /// Set the sign flag from bit 7 of a result byte.
    pub fn set_sign(&mut self, val: u8)
        ensures
            *final(self) == (ConditionCodes { sign: val >= 0x80, ..*old(self) }),
    {
        assert(((val & 0x80) == 0x80) == (val >= 0x80)) by (bit_vector);
        self.sign = (val & 0x80) == 0x80
    }

    /// Set the parity flag: set when the byte has an even number of one bits.
    pub fn set_parity(&mut self, val: u8)
        ensures
            *final(self) == (ConditionCodes { parity: even_parity(val), ..*old(self) }),
    {
        self.parity = count_ones(val) % 2 == 0
    }

    pub fn set_aux_carry(&mut self, aux_carry: bool)
        ensures
            *final(self) == (ConditionCodes { aux_carry, ..*old(self) }),
    {
        self.aux_carry = aux_carry
    }

    pub fn reset_aux_carry(&mut self)
        ensures
            *final(self) == (ConditionCodes { aux_carry: false, ..*old(self) }),
    {
        self.aux_carry = false
    }

    /// Encode the flags as a processor status word.
    pub fn flags_to_psw(&self) -> (psw: u8)
        ensures
            psw == psw_of(*self),
    {
        let mut psw: u8 = 0x2;
        if self.sign {
            psw += 0x80
        };
        if self.carry {
            psw += 0x1
        };
        if self.zero {
            psw += 0x40
        };
        if self.parity {
            psw += 0x4
        };
        if self.aux_carry {
            psw += 0x10
        };
        psw
    }

    /// Decode a processor status word into the flags.
    pub fn psw_to_flags(&mut self, psw: u8)
        ensures
            *final(self) == flags_of(psw),
    {
        self.sign = (0x80 & psw) == 0x80;
        self.carry = (0x1 & psw) == 0x1;
        self.zero = (0x40 & psw) == 0x40;
        self.parity = (0x4 & psw) == 0x4;
        self.aux_carry = (0x10 & psw) == 0x10;
        proof {
            assert((0x80 & psw) == (psw & 0x80)) by (bit_vector);
            assert((0x1 & psw) == (psw & 0x1)) by (bit_vector);
            assert((0x40 & psw) == (psw & 0x40)) by (bit_vector);
            assert((0x4 & psw) == (psw & 0x4)) by (bit_vector);
            assert((0x10 & psw) == (psw & 0x10)) by (bit_vector);
        }
    }
}

impl Default for ConditionCodes {
    fn default() -> (r: Self)
        ensures
            r == ConditionCodes::cleared(),
    {
        ConditionCodes::new()
    }
}

/// Pushing the flags as a status word and popping them back gives the same
/// flags.
pub proof fn law_psw_round_trip(f: ConditionCodes)
    ensures
        flags_of(psw_of(f)) == f,
{
    let p = psw_of(f);
    let (s, z, a, pa, c) = (f.sign, f.zero, f.aux_carry, f.parity, f.carry);
    assert(p == (2 + (if s { 0x80int } else { 0 }) + (if z { 0x40int } else { 0 }) + (if a {
        0x10int
    } else {
        0
    }) + (if pa { 0x4int } else { 0 }) + (if c { 0x1int } else { 0 })) as u8);
    assert({
        let q: u8 = (2 + (if s { 0x80int } else { 0 }) + (if z { 0x40int } else { 0 }) + (if a {
            0x10int
        } else {
            0
        }) + (if pa { 0x4int } else { 0 }) + (if c { 0x1int } else { 0 })) as u8;
        &&& (q & 0x80 == 0x80) == s
        &&& (q & 0x40 == 0x40) == z
        &&& (q & 0x10 == 0x10) == a
        &&& (q & 0x4 == 0x4) == pa
        &&& (q & 0x1 == 0x1) == c
    }) by (bit_vector);
}

/// Decoding a status word and encoding the flags again keeps the five flag
/// bits, sets bit 1 and clears bits 3 and 5.
pub proof fn law_psw_normalizes(psw: u8)
    ensures
        psw_of(flags_of(psw)) == (psw & 0xD5) | 0x02,
{
    assert((2 + (if psw & 0x80 == 0x80 { 0x80int } else { 0 }) + (if psw & 0x40 == 0x40 {
        0x40int
    } else {
        0
    }) + (if psw & 0x10 == 0x10 { 0x10int } else { 0 }) + (if psw & 0x4 == 0x4 {
        0x4int
    } else {
        0
    }) + (if psw & 0x1 == 0x1 { 0x1int } else { 0 })) as u8 == (psw & 0xD5) | 0x02) by (bit_vector);
}

} // verus!
