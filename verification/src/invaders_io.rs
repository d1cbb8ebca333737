use vstd::prelude::*;

use crate::machine::MachineIO;
use vstd::arithmetic::power2::{lemma2_to64, pow2};

verus! {

/// A set of Space Invaders cabinet controls, one bit each.
#[derive(Copy, Clone, Debug, PartialEq, Eq, Structural)]
pub struct Key {
    pub bits: u16,
}

impl Key {
    pub const CREDIT: u16 = 1 << 0;

    pub const START2P: u16 = 1 << 1;

    pub const START1P: u16 = 1 << 2;

    pub const SHOOT1P: u16 = 1 << 3;

    pub const LEFT1P: u16 = 1 << 4;

    pub const RIGHT1P: u16 = 1 << 5;

    pub const SHOOT2P: u16 = 1 << 6;

    pub const LEFT2P: u16 = 1 << 7;

    pub const RIGHT2P: u16 = 1 << 8;

    /// The controls named by the set bits of `bits`.
    pub fn from_bits(bits: u16) -> (r: Key)
        ensures
            r.bits == bits,
    {
        Key { bits }
    }

    /// No control.
    pub fn empty() -> (r: Key)
        ensures
            r.bits == 0,
    {
        Key { bits: 0 }
    }
}

/// The state of the Space Invaders I/O board: the pressed controls, the
/// value of input port 1, and the hardware shift register (its two bytes
/// and the read offset).
pub struct IoState {
    pub keyboard: u16,
    pub port: u8,
    pub shift0: u8,
    pub shift1: u8,
    pub shift_offset: u8,
}

/// The Space Invaders I/O board.
pub struct SpaceInvadersIO {
    keyboard: Key,
    port: u8,
    shift0: u8,
    shift1: u8,
    shift_offset: u8,
}

impl View for SpaceInvadersIO {
    type V = IoState;

    closed spec fn view(&self) -> IoState {
        IoState {
            keyboard: self.keyboard.bits,
            port: self.port,
            shift0: self.shift0,
            shift1: self.shift1,
            shift_offset: self.shift_offset,
        }
    }
}

/// The byte the shift register yields: bits `15 - offset` down to
/// `8 - offset` of the word `hi:lo`.
pub open spec fn shifted_byte(hi: u8, lo: u8, offset: u8) -> u8 {
    (((hi as int * 256 + lo as int) / pow2((8 - offset) as nat) as int) % 256) as u8
}

/// The byte read from an input port: port 0 reads 0x0F, port 1 the port
/// value, port 2 zero and port 3 the shift register.
pub open spec fn input_value(s: IoState, port: u8) -> u8 {
    if port == 0 {
        0x0F
    } else if port == 1 {
        s.port
    } else if port == 2 {
        0
    } else {
        shifted_byte(s.shift1, s.shift0, s.shift_offset)
    }
}

/// The board after a write to an output port: port 2 sets the shift offset
/// (low three bits), port 4 shifts a byte into the shift register, ports 3,
/// 5 and 6 change nothing.
pub open spec fn after_output(s: IoState, port: u8, val: u8) -> IoState {
    if port == 2 {
        IoState { shift_offset: val & 0x7, ..s }
    } else if port == 4 {
        IoState { shift0: s.shift1, shift1: val, ..s }
    } else {
        s
    }
}

impl SpaceInvadersIO {
    #[verifier::type_invariant]
    spec fn offset_in_range(self) -> bool {
        self.shift_offset <= 7
    }

    /// A board with no control pressed and a cleared shift register.
    pub fn new() -> (r: SpaceInvadersIO)
        ensures
            r@ == (IoState { keyboard: 0, port: 0, shift0: 0, shift1: 0, shift_offset: 0 }),
    {
        SpaceInvadersIO { keyboard: Key::empty(), port: 0, shift0: 0, shift1: 0, shift_offset: 0 }
    }

    /// The controls currently pressed.
    pub fn keyboard(&self) -> (r: Key)
        ensures
            r.bits == self@.keyboard,
    {
        self.keyboard
    }

    /// Press the controls in `key`.
    pub fn press(&mut self, key: Key)
        ensures
            final(self)@ == (IoState { keyboard: old(self)@.keyboard | key.bits, ..old(self)@ }),
    {
        proof {
            use_type_invariant(&*self);
        }
        self.keyboard = Key { bits: self.keyboard.bits | key.bits };
    }

    /// Release the controls in `key`.
    pub fn release(&mut self, key: Key)
        ensures
            final(self)@ == (IoState { keyboard: old(self)@.keyboard & !key.bits, ..old(self)@ }),
    {
        proof {
            use_type_invariant(&*self);
        }
        self.keyboard = Key { bits: self.keyboard.bits & !key.bits };
    }
}

impl MachineIO for SpaceInvadersIO {
    open spec fn input_port(&self, port: u8) -> bool {
        port <= 3
    }

    open spec fn output_port(&self, port: u8) -> bool {
        2 <= port <= 6
    }

    fn machine_in(&mut self, port: u8) -> (r: u8)
        ensures
            r == input_value(old(self)@, port),
            final(self)@ == old(self)@,
    {
        proof {
            use_type_invariant(&*self);
        }
        match port {
            0 => 0x0F,
            1 => self.port,
            2 => 0,
            _ => {
                let val: u16 = ((self.shift1 as u16) << 8u16) | self.shift0 as u16;
                let amount: u16 = 8 - self.shift_offset as u16;
                let r = ((val >> amount) & 0xFF) as u8;
                proof {
                    lemma_shift_register(self.shift1, self.shift0, self.shift_offset, val, amount);
                }
                r
            },
        }
    }

    fn machine_out(&mut self, port: u8, val: u8)
        ensures
            final(self)@ == after_output(old(self)@, port, val),
    {
        proof {
            use_type_invariant(&*self);
            assert(val & 0x7 <= 7) by (bit_vector);
        }
        if port == 2 {
            self.shift_offset = val & 0x7;
        } else if port == 4 {
            self.shift0 = self.shift1;
            self.shift1 = val;
        }
    }
}

proof fn lemma_shift_register(hi: u8, lo: u8, offset: u8, val: u16, amount: u16)
    requires
        offset <= 7,
        val == ((hi as u16) << 8u16) | lo as u16,
        amount == 8 - offset,
    ensures
        ((val >> amount) & 0xFF) as u8 == shifted_byte(hi, lo, offset),
{
    lemma2_to64();
    assert(val == hi as int * 256 + lo as int) by (bit_vector)
        requires
            val == ((hi as u16) << 8u16) | lo as u16,
    ;
    assert(((val >> amount) & 0xFF) == (val / pow2(amount as nat) as u16) % 256) by {
        if amount == 1 {
            assert(((val >> 1u16) & 0xFF) == (val / 2) % 256) by (bit_vector);
        } else if amount == 2 {
            assert(((val >> 2u16) & 0xFF) == (val / 4) % 256) by (bit_vector);
        } else if amount == 3 {
            assert(((val >> 3u16) & 0xFF) == (val / 8) % 256) by (bit_vector);
        } else if amount == 4 {
            assert(((val >> 4u16) & 0xFF) == (val / 16) % 256) by (bit_vector);
        } else if amount == 5 {
            assert(((val >> 5u16) & 0xFF) == (val / 32) % 256) by (bit_vector);
        } else if amount == 6 {
            assert(((val >> 6u16) & 0xFF) == (val / 64) % 256) by (bit_vector);
        } else if amount == 7 {
            assert(((val >> 7u16) & 0xFF) == (val / 128) % 256) by (bit_vector);
        } else {
            assert(((val >> 8u16) & 0xFF) == (val / 256) % 256) by (bit_vector);
        }
    }
}

/// Shifting two bytes into the shift register and setting the offset makes
/// input port 3 read the byte at that offset within the word they form
/// (the later byte being the high one).
pub proof fn law_shift_register(s: IoState, first: u8, second: u8, offset: u8)
    requires
        offset <= 7,
    ensures
        input_value(after_output(after_output(after_output(s, 4, first), 4, second), 2, offset), 3)
            == shifted_byte(second, first, offset),
{
    assert(offset & 0x7 == offset) by (bit_vector)
        requires
            offset <= 7,
    ;
}

/// Releasing controls after pressing them leaves none of them pressed, and
/// pressing is idempotent.
pub proof fn law_press_release(s: IoState, key: Key)
    ensures
        (s.keyboard | key.bits) & !key.bits == s.keyboard & !key.bits,
        (s.keyboard | key.bits) | key.bits == s.keyboard | key.bits,
        ((s.keyboard | key.bits) & key.bits) == key.bits,
{
    let (k, b) = (s.keyboard, key.bits);
    assert((k | b) & !b == k & !b && (k | b) | b == k | b && ((k | b) & b) == b) by (bit_vector);
}

/// Writing a data byte to port 4 moves the register along and leaves the
/// shift offset and everything else alone; so setting the offset first and
/// then shifting two bytes in makes port 3 read bits 15 - offset down to
/// 8 - offset of the word they form (the later byte being the high one).
pub proof fn law_offset_survives_shifting(s: IoState, offset: u8, first: u8, second: u8)
    requires
        s.shift_offset <= 7,
    ensures
        after_output(s, 4, first).shift_offset == s.shift_offset,
        after_output(s, 4, first).shift1 == first,
        after_output(s, 4, first).shift0 == s.shift1,
        after_output(s, 4, first).keyboard == s.keyboard,
        after_output(s, 4, first).port == s.port,
        input_value(after_output(after_output(after_output(s, 2, offset), 4, first), 4, second), 3)
            == ((second as int * 256 + first as int) / pow2((8 - (offset % 8)) as nat) as int)
            % 256,
{
    assert(offset & 0x7 == offset % 8) by (bit_vector);
}

} // verus!
