//! Colors as the embedder supplies them, and their normalized form.

use vstd::prelude::*;
use vstd::string::*;
use crate::error::Error;

verus! {

/// Largest value of a color channel.
pub const CHANNEL_MAX: i32 = 255;

/// Bit pattern of the binary32 number zero.
pub const ALPHA_ZERO_BITS: u32 = 0;

/// Bit pattern of the binary32 number one.
pub const ALPHA_ONE_BITS: u32 = 0x3F80_0000;

/// The sign bit of a binary32 number.
pub const ALPHA_SIGN_BIT: u32 = 0x8000_0000;

/// Bit pattern of binary32 positive infinity; every larger magnitude is
/// not a number.
pub const ALPHA_INFINITY_BITS: u32 = 0x7F80_0000;

/// An opacity: a binary32 number, held as its bit pattern.
#[derive(Clone, Copy, Debug, PartialEq, Eq, Structural)]
pub struct Alpha {
    pub bits: u32,
}

impl Alpha {
    /// Fully transparent.
    pub open spec fn zero() -> Alpha {
        Alpha { bits: ALPHA_ZERO_BITS }
    }

    /// Fully opaque.
    pub open spec fn one() -> Alpha {
        Alpha { bits: ALPHA_ONE_BITS }
    }

    /// The bits below the sign bit.
    pub open spec fn magnitude(self) -> int {
        if self.bits >= ALPHA_SIGN_BIT {
            self.bits - ALPHA_SIGN_BIT
        } else {
            self.bits as int
        }
    }

    /// Whether the bit pattern stands for no number.
    pub open spec fn is_nan(self) -> bool {
        self.magnitude() > ALPHA_INFINITY_BITS
    }

    /// The place of a number in the order of all binary32 numbers: of two
    /// numbers the smaller one has the smaller rank, and the two zeros share
    /// rank zero. Meaningless for a pattern that is not a number.
    pub open spec fn rank(self) -> int {
        if self.bits >= ALPHA_SIGN_BIT {
            -self.magnitude()
        } else {
            self.magnitude()
        }
    }

    /// Whether the number lies in `[0, 1]`.
    pub open spec fn in_unit_range(self) -> bool {
        !self.is_nan() && 0 <= self.rank() <= Alpha::one().rank()
    }

    /// The number brought into `[0, 1]`: what is below zero or not a number
    /// becomes zero, what is above one becomes one.
    pub open spec fn clamped(self) -> Alpha {
        if self.is_nan() || self.rank() <= 0 {
            Alpha::zero()
        } else if self.rank() >= Alpha::one().rank() {
            Alpha::one()
        } else {
            self
        }
    }

    /// The opacity with the given bit pattern.
    pub fn from_bits(bits: u32) -> (out: Alpha)
        ensures
            out.bits == bits,
    {
        Alpha { bits }
    }

    /// The bit pattern of this opacity.
    pub fn to_bits(self) -> (bits: u32)
        ensures
            bits == self.bits,
    {
        self.bits
    }

    /// Full opacity, the value of a color that names none.
    pub fn opaque() -> (out: Alpha)
        ensures
            out == Alpha::one(),
    {
        Alpha { bits: ALPHA_ONE_BITS }
    }

    /// Brings the opacity into `[0, 1]`.
    pub fn clamp(self) -> (out: Alpha)
        ensures
            out == self.clamped(),
            out.in_unit_range(),
            self.in_unit_range() ==> out.rank() == self.rank(),
            !self.is_nan() && self.rank() < 0 ==> out == Alpha::zero(),
            !self.is_nan() && self.rank() > Alpha::one().rank() ==> out == Alpha::one(),
    {
        if self.bits >= ALPHA_SIGN_BIT {
            // Negative numbers, negative zero, and patterns with the sign
            // bit set that are no numbers.
            Alpha { bits: ALPHA_ZERO_BITS }
        } else if self.bits > ALPHA_INFINITY_BITS {
            Alpha { bits: ALPHA_ZERO_BITS }
        } else if self.bits >= ALPHA_ONE_BITS {
            Alpha { bits: ALPHA_ONE_BITS }
        } else {
            self
        }
    }
}

/// A channel value brought into `[0, 255]`.
pub open spec fn clamp_channel_spec(value: int) -> int {
    if value < 0 {
        0
    } else if value > 255 {
        255
    } else {
        value
    }
}

/// Clamps one channel into `[0, 255]`.
pub fn clamp_channel(value: i32) -> (out: u8)
    ensures
        out as int == clamp_channel_spec(value as int),
{
    if value < 0 {
        0
    } else if value > CHANNEL_MAX {
        255
    } else {
        value as u8
    }
}

/// An rgb color with optional opacity, as the embedder supplies it. The
/// channels are stored as given, whatever their range.
#[derive(Clone, Copy, Debug, PartialEq, Eq, Structural)]
pub struct Color {
    pub red: i32,
    pub green: i32,
    pub blue: i32,
    pub alpha: Option<Alpha>,
}

/// A color ready for the backend. A channel `n` stands for the fraction
/// `n / 255`; the opacity lies in `[0, 1]`.
#[derive(Clone, Copy, Debug, PartialEq, Eq, Structural)]
pub struct Rgba {
    pub red: u8,
    pub green: u8,
    pub blue: u8,
    pub alpha: Alpha,
}

impl Rgba {
    /// Opaque black, the background of every frame.
    pub open spec fn black() -> Rgba {
        Rgba { red: 0, green: 0, blue: 0, alpha: Alpha::one() }
    }

    /// Opaque black.
    pub fn opaque_black() -> (out: Rgba)
        ensures
            out == Rgba::black(),
    {
        Rgba { red: 0, green: 0, blue: 0, alpha: Alpha::opaque() }
    }
}

/// The message for a color with a wrong number of components.
pub open spec fn malformed_color_text() -> Seq<char> {
    "Expected color (r, g, b[, a])"@
}

/// Normalizing clamps each channel on its own: a channel within `[0, 255]`
/// is kept, one below becomes 0, one above becomes 255, whatever the other
/// channels and the opacity are. The opacity ends in `[0, 1]`, and is one
/// where the color names none.
pub proof fn lemma_normalize_clamps(color: Color)
    ensures
        0 <= color.red <= 255 ==> color.normalized().red == color.red,
        color.red < 0 ==> color.normalized().red == 0,
        color.red > 255 ==> color.normalized().red == 255,
        0 <= color.green <= 255 ==> color.normalized().green == color.green,
        color.green < 0 ==> color.normalized().green == 0,
        color.green > 255 ==> color.normalized().green == 255,
        0 <= color.blue <= 255 ==> color.normalized().blue == color.blue,
        color.blue < 0 ==> color.normalized().blue == 0,
        color.blue > 255 ==> color.normalized().blue == 255,
        color.normalized().alpha.in_unit_range(),
        color.alpha is None ==> color.normalized().alpha == Alpha::one(),
        color.alpha matches Some(alpha) ==> color.normalized().alpha == alpha.clamped(),
{
}

/// Clamping an opacity: a number within `[0, 1]` keeps its place in the
/// order of numbers, a number below zero becomes zero, a number above one
/// becomes one, and what is not a number becomes zero.
pub proof fn lemma_alpha_clamps(alpha: Alpha)
    ensures
        alpha.clamped().in_unit_range(),
        alpha.in_unit_range() ==> alpha.clamped().rank() == alpha.rank(),
        alpha.in_unit_range() && alpha.bits != ALPHA_SIGN_BIT ==> alpha.clamped() == alpha,
        !alpha.is_nan() && alpha.rank() < 0 ==> alpha.clamped() == Alpha::zero(),
        !alpha.is_nan() && alpha.rank() > Alpha::one().rank() ==> alpha.clamped() == Alpha::one(),
        alpha.is_nan() ==> alpha.clamped() == Alpha::zero(),
{
}

impl Color {
    /// The normalized form: each channel clamped on its own, the opacity
    /// clamped, full opacity where none was given.
    pub open spec fn normalized(self) -> Rgba {
        Rgba {
            red: clamp_channel_spec(self.red as int) as u8,
            green: clamp_channel_spec(self.green as int) as u8,
            blue: clamp_channel_spec(self.blue as int) as u8,
            alpha: match self.alpha {
                Some(a) => a.clamped(),
                None => Alpha::one(),
            },
        }
    }

    /// A color from its channels and optional opacity.
    pub fn new(red: i32, green: i32, blue: i32, alpha: Option<Alpha>) -> (out: Color)
        ensures
            out == (Color { red, green, blue, alpha }),
    {
        Color { red, green, blue, alpha }
    }

    /// Checks the number of components that a color was given with, and
    /// tells whether an opacity is among them: three components are the
    /// channels, a fourth is the opacity, any other number is refused.
    pub fn has_alpha(components: usize) -> (result: Result<bool, Error>)
        ensures
            components == 3 ==> result == Ok::<bool, Error>(false),
            components == 4 ==> result == Ok::<bool, Error>(true),
            components != 3 && components != 4 ==> (result matches Err(Error::Validation(message))
                && message@ == malformed_color_text()),
    {
        if components != 3 && components != 4 {
            return Err(Error::Validation(String::from_str("Expected color (r, g, b[, a])")));
        }
        Ok(components == 4)
    }

    /// Converts to the normalized form.
    pub fn normalize(self) -> (out: Rgba)
        ensures
            out == self.normalized(),
            out.alpha.in_unit_range(),
            self.alpha is None ==> out.alpha == Alpha::one(),
    {
        let alpha = match self.alpha {
            Some(a) => a.clamp(),
            None => Alpha::opaque(),
        };
        Rgba {
            red: clamp_channel(self.red),
            green: clamp_channel(self.green),
            blue: clamp_channel(self.blue),
            alpha,
        }
    }
}

} // verus!
