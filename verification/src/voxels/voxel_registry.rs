//! The colours of voxel profiles, as they are written: a hash sign
//! followed by three, four, six or eight hexadecimal digits.

use vstd::prelude::*;
use vstd::string::StringSliceAdditionalSpecFns;

verus! {

/// A colour by its four channels, each counted in steps of which `full`
/// make the whole: fifteen where a channel was written with one digit, two
/// hundred and fifty-five where it was written with two.
#[derive(Clone, Copy, PartialEq, Eq, Structural, Debug)]
pub struct VoxelColor {
    pub red: u8,
    pub green: u8,
    pub blue: u8,
    pub alpha: u8,
    pub full: u8,
}

/// Why the text of a colour could not be read.
#[derive(Clone, Copy, PartialEq, Eq, Structural, Debug)]
pub enum ColorError {
    /// The text is empty: there is not even a hash sign.
    Empty,
    /// A channel holds something else than hexadecimal digits.
    InvalidDigit,
}

/// The value of a hexadecimal digit, in either case.
pub open spec fn hex_digit(byte: u8) -> Option<u8> {
    if 0x30 <= byte <= 0x39 {
        Some((byte - 0x30) as u8)
    } else if 0x61 <= byte <= 0x66 {
        Some((byte - 0x61 + 10) as u8)
    } else if 0x41 <= byte <= 0x46 {
        Some((byte - 0x41 + 10) as u8)
    } else {
        None
    }
}

/// The value of a channel written with `width` bytes from `start` on: one
/// digit, or two, of which the first may be a plus sign instead.
pub open spec fn hex_channel(bytes: Seq<u8>, start: int, width: int) -> Option<u8> {
    if width == 1 {
        hex_digit(bytes[start])
    } else if bytes[start] == 0x2B {
        hex_digit(bytes[start + 1])
    } else {
        match (hex_digit(bytes[start]), hex_digit(bytes[start + 1])) {
            (Some(high), Some(low)) => Some((high * 16 + low) as u8),
            _ => None,
        }
    }
}

/// The colour that a text stands for. After the first byte, which is not
/// looked at, three or four bytes are channels of one digit each, six or
/// eight bytes channels of two; a text without an alpha channel is opaque.
/// A text of any other length stands for opaque black.
pub open spec fn decoded_color(bytes: Seq<u8>) -> Result<VoxelColor, ColorError> {
    let len = bytes.len() - 1;
    if bytes.len() == 0 {
        Err(ColorError::Empty)
    } else if len == 3 || len == 4 || len == 6 || len == 8 {
        let width: int = if len <= 4 {
            1
        } else {
            2
        };
        let full: u8 = if len <= 4 {
            15
        } else {
            255
        };
        let red = hex_channel(bytes, 1, width);
        let green = hex_channel(bytes, 1 + width, width);
        let blue = hex_channel(bytes, 1 + 2 * width, width);
        let alpha = if len == 4 || len == 8 {
            hex_channel(bytes, 1 + 3 * width, width)
        } else {
            Some(full)
        };
        if red is Some && green is Some && blue is Some && alpha is Some {
            Ok(
                VoxelColor {
                    red: red->0,
                    green: green->0,
                    blue: blue->0,
                    alpha: alpha->0,
                    full,
                },
            )
        } else {
            Err(ColorError::InvalidDigit)
        }
    } else {
        Ok(VoxelColor { red: 0, green: 0, blue: 0, alpha: 255, full: 255 })
    }
}

/// No channel exceeds what makes it whole.
pub proof fn lemma_channels_are_within_full(bytes: Seq<u8>)
    ensures
        decoded_color(bytes) matches Ok(color) ==> color.red <= color.full && color.green
            <= color.full && color.blue <= color.full && color.alpha <= color.full && (color.full
            == 15 || color.full == 255),
{
}

fn decode_digit(byte: u8) -> (r: Option<u8>)
    ensures
        r == hex_digit(byte),
{
    if 0x30 <= byte && byte <= 0x39 {
        Some(byte - 0x30)
    } else if 0x61 <= byte && byte <= 0x66 {
        Some(byte - 0x61 + 10)
    } else if 0x41 <= byte && byte <= 0x46 {
        Some(byte - 0x41 + 10)
    } else {
        None
    }
}

fn decode_channel(bytes: &[u8], start: usize, width: usize) -> (r: Option<u8>)
    requires
        width == 1 || width == 2,
        start + width <= bytes@.len(),
    ensures
        r == hex_channel(bytes@, start as int, width as int),
{
    if width == 1 {
        decode_digit(bytes[start])
    } else if bytes[start] == 0x2B {
        decode_digit(bytes[start + 1])
    } else {
        match (decode_digit(bytes[start]), decode_digit(bytes[start + 1])) {
            (Some(high), Some(low)) => Some(high * 16 + low),
            _ => None,
        }
    }
}

/// Reads the text of a colour.
pub fn decode_color(color_string: &str) -> (r: Result<VoxelColor, ColorError>)
    ensures
        r == decoded_color(color_string.spec_bytes()),
{
    let bytes = color_string.as_bytes();
    if bytes.len() == 0 {
        return Err(ColorError::Empty);
    }
    // One less, for the hash sign at the front
    let len = bytes.len() - 1;
    if len == 3 || len == 4 || len == 6 || len == 8 {
        let width: usize = if len <= 4 {
            1
        } else {
            2
        };
        let full: u8 = if len <= 4 {
            15
        } else {
            255
        };
        let red = decode_channel(bytes, 1, width);
        let green = decode_channel(bytes, 1 + width, width);
        let blue = decode_channel(bytes, 1 + 2 * width, width);
        let alpha = if len == 4 || len == 8 {
            decode_channel(bytes, 1 + 3 * width, width)
        } else {
            Some(full)
        };
        match (red, green, blue, alpha) {
            (Some(red), Some(green), Some(blue), Some(alpha)) => Ok(
                VoxelColor { red, green, blue, alpha, full },
            ),
            _ => Err(ColorError::InvalidDigit),
        }
    } else {
        Ok(VoxelColor { red: 0, green: 0, blue: 0, alpha: 255, full: 255 })
    }
}

} // verus!
