//! Colour codec: packed five-bit channels and their eight-bit expansion.

use vstd::prelude::*;

verus! {

/// Largest value a five-bit channel can hold.
pub const CHANNEL_MAX: u8 = 31;

/// The eight-bit intensity of a five-bit channel value: the five bits move to
/// the top of the byte and the low three bits repeat the channel's top three.
pub open spec fn expanded(v: int) -> int {
    8 * v + v / 4
}

/// Widens one five-bit channel to eight bits by bit replication.
///
/// The function is total: bits of `v` above the fifth are shifted out of the
/// byte on the left and carried down on the right, as the shifts of `u8` do.
pub fn expand_channel(v: u8) -> (r: u8)
    ensures
        r == (v << 3) | (v >> 2),
        v <= CHANNEL_MAX ==> r == expanded(v as int),
{
    let r: u8 = (v << 3) | (v >> 2);
    assert(v <= 31 ==> ((v << 3) | (v >> 2)) == 8 * v + v / 4) by (bit_vector);
    r
}

/// Bit replication, stated of every channel value: the expansion of a
/// five-bit `v` is `(v << 3) | (v >> 2)`, it fits in a byte, it sends 0 to 0
/// and 31 to 255, and it leaves the five bits of `v` on top of the byte.
pub proof fn expansion_replicates_bits(v: u8)
    requires
        v <= CHANNEL_MAX,
    ensures
        expanded(v as int) == ((v << 3) | (v >> 2)),
        0 <= expanded(v as int) <= 255,
        expanded(v as int) / 8 == v,
        expanded(v as int) % 8 == v / 4,
        v == 0 <==> expanded(v as int) == 0,
        v == 31 <==> expanded(v as int) == 255,
{
    assert(v <= 31 ==> ((v << 3) | (v >> 2)) == 8 * v + v / 4) by (bit_vector);
}

/// A brighter channel stays brighter: expansion keeps the order of channel
/// values, so no two of them share an eight-bit intensity.
pub proof fn expansion_keeps_order(v: u8, w: u8)
    requires
        v < w <= CHANNEL_MAX,
    ensures
        expanded(v as int) < expanded(w as int),
{
}

/// A pixel as the emulated hardware stores it: sixteen bits, of which bits 0
/// to 4 hold red, bits 5 to 9 green and bits 10 to 14 blue. Bit 15 is unused
/// and no channel reads it. Every sixteen-bit value is a colour.
#[derive(Clone, Copy, Debug, PartialEq, Eq, Structural)]
pub struct PackedColor {
    /// The sixteen bits as stored.
    pub bits: u16,
}

impl PackedColor {
    /// The red channel, a value from 0 to 31.
    pub open spec fn red_value(self) -> int {
        self.bits as int % 32
    }

    /// The green channel, a value from 0 to 31.
    pub open spec fn green_value(self) -> int {
        (self.bits as int / 32) % 32
    }

    /// The blue channel, a value from 0 to 31.
    pub open spec fn blue_value(self) -> int {
        (self.bits as int / 1024) % 32
    }

    /// Channel `k` of the pixel in display order: 0 is red, 1 green, 2 blue.
    pub open spec fn channel_value(self, k: int) -> int {
        if k == 0 {
            self.red_value()
        } else if k == 1 {
            self.green_value()
        } else {
            self.blue_value()
        }
    }

    /// The colour that has exactly these sixteen bits.
    pub fn from_bits(bits: u16) -> (c: PackedColor)
        ensures
            c == (PackedColor { bits }),
    {
        PackedColor { bits }
    }

    /// The sixteen bits of the colour.
    pub fn bits(&self) -> (b: u16)
        ensures
            b == self.bits,
    {
        self.bits
    }

    /// Packs three channel values, or refuses them: a colour comes back exactly
    /// when each value fits in five bits, and it then has bit 15 clear.
    pub fn from_channels(red: u8, green: u8, blue: u8) -> (c: Option<PackedColor>)
        ensures
            c is Some <==> red <= CHANNEL_MAX && green <= CHANNEL_MAX && blue <= CHANNEL_MAX,
            c matches Some(p) ==> {
                &&& p.bits == red + 32 * green + 1024 * blue
                &&& p.red_value() == red
                &&& p.green_value() == green
                &&& p.blue_value() == blue
            },
    {
        if red > CHANNEL_MAX || green > CHANNEL_MAX || blue > CHANNEL_MAX {
            return None;
        }
        let bits: u16 = (red as u16) | ((green as u16) << 5) | ((blue as u16) << 10);
        assert(red <= 31 && green <= 31 && blue <= 31 ==> ((red as u16) | ((green as u16) << 5) | ((
        blue as u16) << 10)) == red + 32 * green + 1024 * blue) by (bit_vector);
        Some(PackedColor { bits })
    }

    /// The red channel.
    pub fn red(&self) -> (v: u8)
        ensures
            v == self.red_value(),
            v <= CHANNEL_MAX,
    {
        let bits: u16 = self.bits;
        assert((bits & 0x1f) == bits % 32) by (bit_vector);
        (bits & 0x1f) as u8
    }

    /// The green channel.
    pub fn green(&self) -> (v: u8)
        ensures
            v == self.green_value(),
            v <= CHANNEL_MAX,
    {
        let bits: u16 = self.bits;
        assert(((bits >> 5) & 0x1f) == (bits / 32) % 32) by (bit_vector);
        ((bits >> 5) & 0x1f) as u8
    }

    /// The blue channel.
    pub fn blue(&self) -> (v: u8)
        ensures
            v == self.blue_value(),
            v <= CHANNEL_MAX,
    {
        let bits: u16 = self.bits;
        assert(((bits >> 10) & 0x1f) == (bits / 1024) % 32) by (bit_vector);
        ((bits >> 10) & 0x1f) as u8
    }

    /// The pixel in truecolour: red, green and blue, each channel widened to
    /// eight bits.
    pub fn to_rgb(&self) -> (rgb: (u8, u8, u8))
        ensures
            rgb.0 == expanded(self.red_value()),
            rgb.1 == expanded(self.green_value()),
            rgb.2 == expanded(self.blue_value()),
    {
        (expand_channel(self.red()), expand_channel(self.green()), expand_channel(self.blue()))
    }
}

impl Default for PackedColor {
    /// Black: every bit clear.
    fn default() -> (c: PackedColor)
        ensures
            c == (PackedColor { bits: 0 }),
    {
        PackedColor { bits: 0 }
    }
}

} // verus!
