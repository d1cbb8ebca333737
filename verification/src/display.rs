use vstd::prelude::*;

verus! {

/// Width of the Space Invaders screen in pixels.
pub const WIDTH: u32 = 224;

/// Height of the Space Invaders screen in pixels.
pub const HEIGHT: u32 = 256;

/// Each screen pixel is drawn as a square of this side.
pub const SCALE_FACTOR: u32 = 2;

/// Number of bytes of video RAM (one bit per pixel).
pub const VIDEO_RAM_BYTES: usize = 0x1C00;

/// The colour of the cellophane overlay at a screen position.
#[derive(Copy, Clone, Debug, PartialEq, Eq, Structural)]
pub enum PixelColor {
    Green,
    Red,
    White,
}

/// A lit pixel at screen position (x, y).
#[derive(Copy, Clone, Debug, PartialEq, Eq, Structural)]
pub struct Pixel {
    pub x: u32,
    pub y: u32,
    pub color: PixelColor,
}

/// Green over the shields and the player's base row (rows 190 to 220, and
/// columns 15 to 135 from row 240 down), red over the saucer (rows 30 to
/// 50), white elsewhere.
pub open spec fn color_at(x: int, y: int) -> PixelColor {
    if (190 <= y <= 220) || (y >= 240 && 15 <= x <= 135) {
        PixelColor::Green
    } else if 30 <= y <= 50 {
        PixelColor::Red
    } else {
        PixelColor::White
    }
}

/// The column that video byte `offset` drives (the screen is rotated: 32
/// bytes per column).
pub open spec fn byte_x(offset: int) -> int {
    offset / 32
}

/// The top row of the eight pixels that video byte `offset` drives.
pub open spec fn byte_y(offset: int) -> int {
    248 - (offset % 32) * 8
}

/// Bit `k` of `byte` is set.
pub open spec fn bit_set(byte: u8, k: nat) -> bool {
    byte & (1u8 << (k as u8)) != 0
}

/// The pixels that bits 0 to `n - 1` of `byte` light, bit `k` lighting row
/// `y + 7 - k` of column `x`; all in the colour of position (x, y).
pub open spec fn byte_pixels(byte: u8, x: int, y: int, n: nat) -> Seq<Pixel>
    decreases n,
{
    if n == 0 {
        seq![]
    } else {
        let k = (n - 1) as nat;
        let rest = byte_pixels(byte, x, y, k);
        if bit_set(byte, k) {
            rest.push(Pixel { x: x as u32, y: (y + 7 - k) as u32, color: color_at(x, y) })
        } else {
            rest
        }
    }
}

/// The pixels that the first `n` bytes of the video RAM light.
pub open spec fn frame_pixels(video: Seq<u8>, n: nat) -> Seq<Pixel>
    decreases n,
{
    if n == 0 {
        seq![]
    } else {
        let o = n - 1;
        frame_pixels(video, (n - 1) as nat) + (if video[o] > 0 {
            byte_pixels(video[o], byte_x(o), byte_y(o), 8)
        } else {
            seq![]
        })
    }
}

/// The overlay colour at screen position (x, y).
pub fn pixel_color(x: u32, y: u32) -> (r: PixelColor)
    ensures
        r == color_at(x as int, y as int),
{
    if (y >= 190 && y <= 220) || (y >= 240 && x >= 15 && x <= 135) {
        PixelColor::Green
    } else if y >= 30 && y <= 50 {
        PixelColor::Red
    } else {
        PixelColor::White
    }
}

/// Append the pixels that `byte` lights at column `x`, top row `y`.
pub fn draw_byte(pixels: &mut Vec<Pixel>, byte: u8, x: u32, y: u32)
    requires
        y + 7 <= u32::MAX,
    ensures
        final(pixels)@ == old(pixels)@ + byte_pixels(byte, x as int, y as int, 8),
{
    let color = pixel_color(x, y);
    let mut mask: u8 = 1;
    let mut k: u8 = 0;
    assert(1u8 == (1u8 << 0u8)) by (bit_vector);
    while k < 8
        invariant
            k <= 8,
            y + 7 <= u32::MAX,
            color == color_at(x as int, y as int),
            k < 8 ==> mask == (1u8 << k),
            pixels@ == old(pixels)@ + byte_pixels(byte, x as int, y as int, k as nat),
        decreases 8 - k,
    {
        let bit = 7 - k;
        if byte & mask != 0 {
            pixels.push(Pixel { x, y: y + bit as u32, color });
        }
        proof {
            assert(k < 7 ==> ((1u8 << k) << 1u8) == (1u8 << ((k + 1) as u8))) by (bit_vector);
        }
        if k < 7 {
            mask = mask << 1u8;
        }
        k += 1;
        proof {
            assert(pixels@ =~= old(pixels)@ + byte_pixels(byte, x as int, y as int, k as nat));
        }
    }
}

/// The pixels that the video RAM lights, column by column.
pub fn draw_frame(video: &[u8]) -> (r: Vec<Pixel>)
    requires
        video@.len() <= VIDEO_RAM_BYTES,
    ensures
        r@ == frame_pixels(video@, video@.len()),
{
    let mut pixels: Vec<Pixel> = Vec::new();
    let mut offset: usize = 0;
    while offset < video.len()
        invariant
            video@.len() <= VIDEO_RAM_BYTES,
            offset <= video@.len(),
            pixels@ == frame_pixels(video@, offset as nat),
        decreases video@.len() - offset,
    {
        let x = (offset / 32) as u32;
        let y = 248 - ((offset % 32) * 8) as u32;
        let byte = video[offset];
        if byte > 0 {
            draw_byte(&mut pixels, byte, x, y);
        }
        offset += 1;
        proof {
            assert(pixels@ =~= frame_pixels(video@, offset as nat));
        }
    }
    pixels
}

} // verus!
