//! The bitmaps of the Premium typeface.
//!
//! A glyph is a stack of 16-bit rows, top row first. Bit 15 of a row is its
//! leftmost column, which lies two pixels left of the pen position.

use vstd::prelude::*;

verus! {

/// The rows of a character that draws nothing.
pub const BLANK: [u16; 0] = [];

/// The rows of `A`.
pub const UPPER_A: [u16; 9] = [
    0b0001111000000000,
    0b0011001100000000,
    0b0011001100000000,
    0b0011001100000000,
    0b0011111100000000,
    0b0011001100000000,
    0b0011001100000000,
    0b0011001100000000,
    0b0011001100000000,
];

/// The rows of `B`.
pub const UPPER_B: [u16; 9] = [
    0b0011111000000000,
    0b0011001100000000,
    0b0011001100000000,
    0b0011001100000000,
    0b0011111000000000,
    0b0011001100000000,
    0b0011001100000000,
    0b0011001100000000,
    0b0011111000000000,
];

/// The rows of `C`.
pub const UPPER_C: [u16; 9] = [
    0b0001111000000000,
    0b0011000100000000,
    0b0011000000000000,
    0b0011000000000000,
    0b0011000000000000,
    0b0011000000000000,
    0b0011000000000000,
    0b0011000100000000,
    0b0001111000000000,
];

/// The rows of `D`.
pub const UPPER_D: [u16; 9] = [
    0b0011111000000000,
    0b0011001100000000,
    0b0011001100000000,
    0b0011001100000000,
    0b0011001100000000,
    0b0011001100000000,
    0b0011001100000000,
    0b0011001100000000,
    0b0011111000000000,
];

/// The rows of `E`.
pub const UPPER_E: [u16; 9] = [
    0b0011111100000000,
    0b0011000000000000,
    0b0011000000000000,
    0b0011000000000000,
    0b0011111000000000,
    0b0011000000000000,
    0b0011000000000000,
    0b0011000000000000,
    0b0011111100000000,
];

/// The rows of `F`.
pub const UPPER_F: [u16; 9] = [
    0b0011111100000000,
    0b0011000000000000,
    0b0011000000000000,
    0b0011000000000000,
    0b0011111000000000,
    0b0011000000000000,
    0b0011000000000000,
    0b0011000000000000,
    0b0011000000000000,
];

/// The rows of `G`.
pub const UPPER_G: [u16; 9] = [
    0b0001111000000000,
    0b0011000100000000,
    0b0011000000000000,
    0b0011000000000000,
    0b0011000000000000,
    0b0011011100000000,
    0b0011001100000000,
    0b0011001100000000,
    0b0001111000000000,
];

/// The rows of `H`.
pub const UPPER_H: [u16; 9] = [
    0b0011001100000000,
    0b0011001100000000,
    0b0011001100000000,
    0b0011001100000000,
    0b0011111100000000,
    0b0011001100000000,
    0b0011001100000000,
    0b0011001100000000,
    0b0011001100000000,
];

/// The rows of `I`.
pub const UPPER_I: [u16; 9] = [
    0b0011000000000000,
    0b0011000000000000,
    0b0011000000000000,
    0b0011000000000000,
    0b0011000000000000,
    0b0011000000000000,
    0b0011000000000000,
    0b0011000000000000,
    0b0011000000000000,
];

/// The rows of `J`.
pub const UPPER_J: [u16; 9] = [
    0b0000001100000000,
    0b0000001100000000,
    0b0000001100000000,
    0b0000001100000000,
    0b0000001100000000,
    0b0000001100000000,
    0b0000001100000000,
    0b0010001100000000,
    0b0001111000000000,
];

/// The rows of `K`.
pub const UPPER_K: [u16; 9] = [
    0b0011000110000000,
    0b0011001100000000,
    0b0011011000000000,
    0b0011110000000000,
    0b0011100000000000,
    0b0011110000000000,
    0b0011011000000000,
    0b0011001100000000,
    0b0011000110000000,
];

/// The rows of `L`.
pub const UPPER_L: [u16; 9] = [
    0b0011000000000000,
    0b0011000000000000,
    0b0011000000000000,
    0b0011000000000000,
    0b0011000000000000,
    0b0011000000000000,
    0b0011000000000000,
    0b0011000000000000,
    0b0011111100000000,
];

/// The rows of `M`.
pub const UPPER_M: [u16; 9] = [
    0b0011000001100000,
    0b0011100011100000,
    0b0011110111100000,
    0b0011111111100000,
    0b0011011101100000,
    0b0011001001100000,
    0b0011000001100000,
    0b0011000001100000,
    0b0011000001100000,
];

/// The rows of `N`.
pub const UPPER_N: [u16; 9] = [
    0b0011000110000000,
    0b0011000110000000,
    0b0011100110000000,
    0b0011110110000000,
    0b0011111110000000,
    0b0011011110000000,
    0b0011001110000000,
    0b0011000110000000,
    0b0011000110000000,
];

/// The rows of `O`.
pub const UPPER_O: [u16; 9] = [
    0b0001111000000000,
    0b0011001100000000,
    0b0011001100000000,
    0b0011001100000000,
    0b0011001100000000,
    0b0011001100000000,
    0b0011001100000000,
    0b0011001100000000,
    0b0001111000000000,
];

/// The rows of `P`.
pub const UPPER_P: [u16; 9] = [
    0b0011111000000000,
    0b0011001100000000,
    0b0011001100000000,
    0b0011001100000000,
    0b0011001100000000,
    0b0011111000000000,
    0b0011000000000000,
    0b0011000000000000,
    0b0011000000000000,
];

/// The rows of `Q`.
pub const UPPER_Q: [u16; 10] = [
    0b0001111000000000,
    0b0011001100000000,
    0b0011001100000000,
    0b0011001100000000,
    0b0011001100000000,
    0b0011001100000000,
    0b0011001100000000,
    0b0011001100000000,
    0b0001111000000000,
    0b0000001100000000,
];

/// The rows of `R`.
pub const UPPER_R: [u16; 9] = [
    0b0011111000000000,
    0b0011001100000000,
    0b0011001100000000,
    0b0011001100000000,
    0b0011111000000000,
    0b0011001100000000,
    0b0011001100000000,
    0b0011001100000000,
    0b0011001100000000,
];

/// The rows of `S`.
pub const UPPER_S: [u16; 9] = [
    0b0001111000000000,
    0b0011000100000000,
    0b0011000000000000,
    0b0011000000000000,
    0b0001111000000000,
    0b0000001100000000,
    0b0000001100000000,
    0b0010001100000000,
    0b0001111000000000,
];

/// The rows of `T`.
pub const UPPER_T: [u16; 9] = [
    0b0111111000000000,
    0b0001100000000000,
    0b0001100000000000,
    0b0001100000000000,
    0b0001100000000000,
    0b0001100000000000,
    0b0001100000000000,
    0b0001100000000000,
    0b0001100000000000,
];

/// The rows of `U`.
pub const UPPER_U: [u16; 9] = [
    0b0011001100000000,
    0b0011001100000000,
    0b0011001100000000,
    0b0011001100000000,
    0b0011001100000000,
    0b0011001100000000,
    0b0011001100000000,
    0b0011001100000000,
    0b0001111000000000,
];

/// The rows of `V`.
pub const UPPER_V: [u16; 9] = [
    0b0011001100000000,
    0b0011001100000000,
    0b0011001100000000,
    0b0011001100000000,
    0b0011001100000000,
    0b0011001100000000,
    0b0011001100000000,
    0b0001111000000000,
    0b0000110000000000,
];

/// The rows of `W`.
pub const UPPER_W: [u16; 9] = [
    0b0011001100110000,
    0b0011001100110000,
    0b0011001100110000,
    0b0011001100110000,
    0b0011001100110000,
    0b0011001100110000,
    0b0011001100110000,
    0b0001111111100000,
    0b0000110011000000,
];

/// The rows of `X`.
pub const UPPER_X: [u16; 9] = [
    0b0011001100000000,
    0b0011001100000000,
    0b0011001100000000,
    0b0011001100000000,
    0b0001111000000000,
    0b0011001100000000,
    0b0011001100000000,
    0b0011001100000000,
    0b0011001100000000,
];

/// The rows of `Y`.
pub const UPPER_Y: [u16; 9] = [
    0b0011001100000000,
    0b0011001100000000,
    0b0011001100000000,
    0b0011001100000000,
    0b0001111000000000,
    0b0000110000000000,
    0b0000110000000000,
    0b0000110000000000,
    0b0000110000000000,
];

/// The rows of `Z`.
pub const UPPER_Z: [u16; 9] = [
    0b0011111100000000,
    0b0000001100000000,
    0b0000001100000000,
    0b0000011000000000,
    0b0000110000000000,
    0b0001100000000000,
    0b0011000000000000,
    0b0011000000000000,
    0b0011111100000000,
];

/// The rows of `a`.
pub const LOWER_A: [u16; 7] = [
    0b0001111000000000,
    0b0000001100000000,
    0b0001111100000000,
    0b0011001100000000,
    0b0011001100000000,
    0b0011001100000000,
    0b0001111100000000,
];

/// The rows of `b`.
pub const LOWER_B: [u16; 9] = [
    0b0011000000000000,
    0b0011000000000000,
    0b0011111000000000,
    0b0011001100000000,
    0b0011001100000000,
    0b0011001100000000,
    0b0011001100000000,
    0b0011001100000000,
    0b0011111000000000,
];

/// The rows of `c`.
pub const LOWER_C: [u16; 7] = [
    0b0001111000000000,
    0b0011000100000000,
    0b0011000000000000,
    0b0011000000000000,
    0b0011000000000000,
    0b0011000100000000,
    0b0001111000000000,
];

/// The rows of `d`.
pub const LOWER_D: [u16; 9] = [
    0b0000001100000000,
    0b0000001100000000,
    0b0001111100000000,
    0b0011001100000000,
    0b0011001100000000,
    0b0011001100000000,
    0b0011001100000000,
    0b0011001100000000,
    0b0001111100000000,
];

/// The rows of `e`.
pub const LOWER_E: [u16; 7] = [
    0b0001111000000000,
    0b0011001100000000,
    0b0011001100000000,
    0b0011111100000000,
    0b0011000000000000,
    0b0011000100000000,
    0b0001111000000000,
];

/// The rows of `f`.
pub const LOWER_F: [u16; 9] = [
    0b0001100000000000,
    0b0011000000000000,
    0b0111100000000000,
    0b0011000000000000,
    0b0011000000000000,
    0b0011000000000000,
    0b0011000000000000,
    0b0011000000000000,
    0b0011000000000000,
];

/// The rows of `g`.
pub const LOWER_G: [u16; 10] = [
    0b0001111100000000,
    0b0011001100000000,
    0b0011001100000000,
    0b0011001100000000,
    0b0011001100000000,
    0b0011001100000000,
    0b0001111100000000,
    0b0000001100000000,
    0b0010001100000000,
    0b0001111000000000,
];

/// The rows of `h`.
pub const LOWER_H: [u16; 9] = [
    0b0011000000000000,
    0b0011000000000000,
    0b0011111000000000,
    0b0011001100000000,
    0b0011001100000000,
    0b0011001100000000,
    0b0011001100000000,
    0b0011001100000000,
    0b0011001100000000,
];

/// The rows of `i`.
pub const LOWER_I: [u16; 9] = [
    0b0011000000000000,
    0b0000000000000000,
    0b0011000000000000,
    0b0011000000000000,
    0b0011000000000000,
    0b0011000000000000,
    0b0011000000000000,
    0b0011000000000000,
    0b0011000000000000,
];

/// The rows of `j`.
pub const LOWER_J: [u16; 11] = [
    0b0011000000000000,
    0b0000000000000000,
    0b0011000000000000,
    0b0011000000000000,
    0b0011000000000000,
    0b0011000000000000,
    0b0011000000000000,
    0b0011000000000000,
    0b0011000000000000,
    0b0011000000000000,
    0b0110000000000000,
];

/// The rows of `k`.
pub const LOWER_K: [u16; 9] = [
    0b0011000000000000,
    0b0011000000000000,
    0b0011001100000000,
    0b0011011000000000,
    0b0011110000000000,
    0b0011100000000000,
    0b0011110000000000,
    0b0011011000000000,
    0b0011001100000000,
];

/// The rows of `l`.
pub const LOWER_L: [u16; 9] = [
    0b0011000000000000,
    0b0011000000000000,
    0b0011000000000000,
    0b0011000000000000,
    0b0011000000000000,
    0b0011000000000000,
    0b0011000000000000,
    0b0011000000000000,
    0b0011000000000000,
];

/// The rows of `m`.
pub const LOWER_M: [u16; 7] = [
    0b0011111111100000,
    0b0011001100110000,
    0b0011001100110000,
    0b0011001100110000,
    0b0011001100110000,
    0b0011001100110000,
    0b0011001100110000,
];

/// The rows of `n`.
pub const LOWER_N: [u16; 7] = [
    0b0011111000000000,
    0b0011001100000000,
    0b0011001100000000,
    0b0011001100000000,
    0b0011001100000000,
    0b0011001100000000,
    0b0011001100000000,
];

/// The rows of `o`.
pub const LOWER_O: [u16; 7] = [
    0b0001111000000000,
    0b0011001100000000,
    0b0011001100000000,
    0b0011001100000000,
    0b0011001100000000,
    0b0011001100000000,
    0b0001111000000000,
];

/// The rows of `p`.
pub const LOWER_P: [u16; 9] = [
    0b0011111000000000,
    0b0011001100000000,
    0b0011001100000000,
    0b0011001100000000,
    0b0011001100000000,
    0b0011001100000000,
    0b0011111000000000,
    0b0011000000000000,
    0b0011000000000000,
];

/// The rows of `q`.
pub const LOWER_Q: [u16; 9] = [
    0b0001111100000000,
    0b0011001100000000,
    0b0011001100000000,
    0b0011001100000000,
    0b0011001100000000,
    0b0011001100000000,
    0b0001111100000000,
    0b0000001100000000,
    0b0000001100000000,
];

/// The rows of `r`.
pub const LOWER_R: [u16; 7] = [
    0b0011011000000000,
    0b0011111000000000,
    0b0011000000000000,
    0b0011000000000000,
    0b0011000000000000,
    0b0011000000000000,
    0b0011000000000000,
];

/// The rows of `s`.
pub const LOWER_S: [u16; 7] = [
    0b0001111000000000,
    0b0011000100000000,
    0b0011000000000000,
    0b0001111000000000,
    0b0000001100000000,
    0b0010001100000000,
    0b0001111000000000,
];

/// The rows of `t`.
pub const LOWER_T: [u16; 9] = [
    0b0011000000000000,
    0b0011000000000000,
    0b0111100000000000,
    0b0011000000000000,
    0b0011000000000000,
    0b0011000000000000,
    0b0011000000000000,
    0b0011000000000000,
    0b0001100000000000,
];

/// The rows of `u`.
pub const LOWER_U: [u16; 7] = [
    0b0011001100000000,
    0b0011001100000000,
    0b0011001100000000,
    0b0011001100000000,
    0b0011001100000000,
    0b0011001100000000,
    0b0001111000000000,
];

/// The rows of `v`.
pub const LOWER_V: [u16; 7] = [
    0b0011001100000000,
    0b0011001100000000,
    0b0011001100000000,
    0b0011001100000000,
    0b0011001100000000,
    0b0001111000000000,
    0b0000110000000000,
];

/// The rows of `w`.
pub const LOWER_W: [u16; 7] = [
    0b0011001100110000,
    0b0011001100110000,
    0b0011001100110000,
    0b0011001100110000,
    0b0011001100110000,
    0b0001111111100000,
    0b0000110011000000,
];

/// The rows of `x`.
pub const LOWER_X: [u16; 7] = [
    0b0011001100000000,
    0b0011001100000000,
    0b0011001100000000,
    0b0001111000000000,
    0b0011001100000000,
    0b0011001100000000,
    0b0011001100000000,
];

/// The rows of `y`.
pub const LOWER_Y: [u16; 10] = [
    0b0011001100000000,
    0b0011001100000000,
    0b0011001100000000,
    0b0011001100000000,
    0b0011001100000000,
    0b0011001100000000,
    0b0001111100000000,
    0b0000001100000000,
    0b0010001100000000,
    0b0001111000000000,
];

/// The rows of `z`.
pub const LOWER_Z: [u16; 7] = [
    0b0011111100000000,
    0b0000001100000000,
    0b0000011000000000,
    0b0000110000000000,
    0b0001100000000000,
    0b0011000000000000,
    0b0011111100000000,
];

/// The rows of `0`.
pub const DIGIT_0: [u16; 9] = [
    0b0001111000000000,
    0b0011001100000000,
    0b0011001100000000,
    0b0011001100000000,
    0b0011001100000000,
    0b0011001100000000,
    0b0011001100000000,
    0b0011001100000000,
    0b0001111000000000,
];

/// The rows of `1`.
pub const DIGIT_1: [u16; 9] = [
    0b0001100000000000,
    0b0011100000000000,
    0b0001100000000000,
    0b0001100000000000,
    0b0001100000000000,
    0b0001100000000000,
    0b0001100000000000,
    0b0001100000000000,
    0b0001100000000000,
];

/// The rows of `2`.
pub const DIGIT_2: [u16; 9] = [
    0b0001111000000000,
    0b0010001100000000,
    0b0000001100000000,
    0b0000001100000000,
    0b0000011000000000,
    0b0000110000000000,
    0b0001100000000000,
    0b0011000000000000,
    0b0011111100000000,
];

/// The rows of `3`.
pub const DIGIT_3: [u16; 9] = [
    0b0011111100000000,
    0b0000011000000000,
    0b0000110000000000,
    0b0001111000000000,
    0b0000001100000000,
    0b0000001100000000,
    0b0000001100000000,
    0b0010001100000000,
    0b0001111000000000,
];

/// The rows of `4`.
pub const DIGIT_4: [u16; 9] = [
    0b0000001100000000,
    0b0000011100000000,
    0b0000101100000000,
    0b0001001100000000,
    0b0010001100000000,
    0b0011111110000000,
    0b0000001100000000,
    0b0000001100000000,
    0b0000001100000000,
];

/// The rows of `5`.
pub const DIGIT_5: [u16; 9] = [
    0b0011111100000000,
    0b0011000000000000,
    0b0011000000000000,
    0b0011111000000000,
    0b0000001100000000,
    0b0000001100000000,
    0b0000001100000000,
    0b0010001100000000,
    0b0001111000000000,
];

/// The rows of `6`.
pub const DIGIT_6: [u16; 9] = [
    0b0000111000000000,
    0b0001100000000000,
    0b0011000000000000,
    0b0011111000000000,
    0b0011001100000000,
    0b0011001100000000,
    0b0011001100000000,
    0b0011001100000000,
    0b0001111000000000,
];

/// The rows of `7`.
pub const DIGIT_7: [u16; 9] = [
    0b0011111100000000,
    0b0000001100000000,
    0b0000001100000000,
    0b0000001100000000,
    0b0000011000000000,
    0b0000110000000000,
    0b0000110000000000,
    0b0000110000000000,
    0b0000110000000000,
];

/// The rows of `8`.
pub const DIGIT_8: [u16; 9] = [
    0b0001111000000000,
    0b0011001100000000,
    0b0011001100000000,
    0b0011001100000000,
    0b0001111000000000,
    0b0011001100000000,
    0b0011001100000000,
    0b0011001100000000,
    0b0001111000000000,
];

/// The rows of `9`.
pub const DIGIT_9: [u16; 9] = [
    0b0001111000000000,
    0b0011001100000000,
    0b0011001100000000,
    0b0011001100000000,
    0b0011001100000000,
    0b0001111100000000,
    0b0000001100000000,
    0b0000011000000000,
    0b0001110000000000,
];

/// The rows of `.`.
pub const PERIOD: [u16; 2] = [
    0b0011000000000000,
    0b0011000000000000,
];

/// The rows of `,`.
pub const COMMA: [u16; 4] = [
    0b0011000000000000,
    0b0011000000000000,
    0b0001000000000000,
    0b0010000000000000,
];

/// The rows of `:`.
pub const COLON: [u16; 7] = [
    0b0011000000000000,
    0b0011000000000000,
    0b0000000000000000,
    0b0000000000000000,
    0b0000000000000000,
    0b0011000000000000,
    0b0011000000000000,
];

/// The rows of `;`.
pub const SEMICOLON: [u16; 9] = [
    0b0011000000000000,
    0b0011000000000000,
    0b0000000000000000,
    0b0000000000000000,
    0b0000000000000000,
    0b0011000000000000,
    0b0011000000000000,
    0b0001000000000000,
    0b0010000000000000,
];

/// The rows of `!`.
pub const EXCLAMATION: [u16; 9] = [
    0b0011000000000000,
    0b0011000000000000,
    0b0011000000000000,
    0b0011000000000000,
    0b0011000000000000,
    0b0011000000000000,
    0b0000000000000000,
    0b0011000000000000,
    0b0011000000000000,
];

/// The rows of `?`.
pub const QUESTION: [u16; 9] = [
    0b0001111000000000,
    0b0010001100000000,
    0b0000001100000000,
    0b0000011000000000,
    0b0000110000000000,
    0b0000110000000000,
    0b0000000000000000,
    0b0000110000000000,
    0b0000110000000000,
];

/// The rows of `'`.
pub const APOSTROPHE: [u16; 4] = [
    0b0011000000000000,
    0b0011000000000000,
    0b0001000000000000,
    0b0010000000000000,
];

/// The rows of `_`.
pub const UNDERSCORE: [u16; 1] = [
    0b0011111000000000,
];

/// The rows of `+`.
pub const PLUS: [u16; 5] = [
    0b0000100000000000,
    0b0000100000000000,
    0b0011111000000000,
    0b0000100000000000,
    0b0000100000000000,
];

/// The rows of `-`.
pub const MINUS: [u16; 1] = [
    0b0011111000000000,
];

/// The rows of `/`.
pub const SLASH: [u16; 9] = [
    0b0000110000000000,
    0b0000110000000000,
    0b0000110000000000,
    0b0001100000000000,
    0b0001100000000000,
    0b0001100000000000,
    0b0011000000000000,
    0b0011000000000000,
    0b0011000000000000,
];

/// The rows of `\`.
pub const BACKSLASH: [u16; 9] = [
    0b0011000000000000,
    0b0011000000000000,
    0b0011000000000000,
    0b0001100000000000,
    0b0001100000000000,
    0b0001100000000000,
    0b0000110000000000,
    0b0000110000000000,
    0b0000110000000000,
];

/// The rows of `(`.
pub const PAREN_OPEN: [u16; 9] = [
    0b0001100000000000,
    0b0011000000000000,
    0b0011000000000000,
    0b0011000000000000,
    0b0011000000000000,
    0b0011000000000000,
    0b0011000000000000,
    0b0011000000000000,
    0b0001100000000000,
];

/// The rows of `)`.
pub const PAREN_CLOSE: [u16; 9] = [
    0b0011000000000000,
    0b0001100000000000,
    0b0001100000000000,
    0b0001100000000000,
    0b0001100000000000,
    0b0001100000000000,
    0b0001100000000000,
    0b0001100000000000,
    0b0011000000000000,
];

/// The rows of `<`.
pub const ANGLE_OPEN: [u16; 5] = [
    0b0000110000000000,
    0b0001100000000000,
    0b0011000000000000,
    0b0001100000000000,
    0b0000110000000000,
];

/// The rows of `>`.
pub const ANGLE_CLOSE: [u16; 5] = [
    0b0011000000000000,
    0b0001100000000000,
    0b0000110000000000,
    0b0001100000000000,
    0b0011000000000000,
];

/// The rows of `[`.
pub const BRACKET_OPEN: [u16; 9] = [
    0b0011110000000000,
    0b0011000000000000,
    0b0011000000000000,
    0b0011000000000000,
    0b0011000000000000,
    0b0011000000000000,
    0b0011000000000000,
    0b0011000000000000,
    0b0011110000000000,
];

/// The rows of `]`.
pub const BRACKET_CLOSE: [u16; 9] = [
    0b0011110000000000,
    0b0000110000000000,
    0b0000110000000000,
    0b0000110000000000,
    0b0000110000000000,
    0b0000110000000000,
    0b0000110000000000,
    0b0000110000000000,
    0b0011110000000000,
];

/// The rows of `{`.
pub const BRACE_OPEN: [u16; 9] = [
    0b0000110000000000,
    0b0001100000000000,
    0b0001100000000000,
    0b0001100000000000,
    0b0011000000000000,
    0b0001100000000000,
    0b0001100000000000,
    0b0001100000000000,
    0b0000110000000000,
];

/// The rows of `}`.
pub const BRACE_CLOSE: [u16; 9] = [
    0b0011000000000000,
    0b0001100000000000,
    0b0001100000000000,
    0b0001100000000000,
    0b0000110000000000,
    0b0001100000000000,
    0b0001100000000000,
    0b0001100000000000,
    0b0011000000000000,
];

/// The rows of `°`.
pub const DEGREE: [u16; 3] = [
    0b0011100000000000,
    0b0010100000000000,
    0b0011100000000000,
];

/// The rows of `Ä`.
pub const UPPER_A_UMLAUT: [u16; 11] = [
    0b0001001000000000,
    0b0000000000000000,
    0b0001111000000000,
    0b0011001100000000,
    0b0011001100000000,
    0b0011001100000000,
    0b0011111100000000,
    0b0011001100000000,
    0b0011001100000000,
    0b0011001100000000,
    0b0011001100000000,
];

/// The rows of `Ö`.
pub const UPPER_O_UMLAUT: [u16; 11] = [
    0b0001001000000000,
    0b0000000000000000,
    0b0001111000000000,
    0b0011001100000000,
    0b0011001100000000,
    0b0011001100000000,
    0b0011001100000000,
    0b0011001100000000,
    0b0011001100000000,
    0b0011001100000000,
    0b0001111000000000,
];

/// The rows of `Ü`.
pub const UPPER_U_UMLAUT: [u16; 11] = [
    0b0001001000000000,
    0b0000000000000000,
    0b0011001100000000,
    0b0011001100000000,
    0b0011001100000000,
    0b0011001100000000,
    0b0011001100000000,
    0b0011001100000000,
    0b0011001100000000,
    0b0011001100000000,
    0b0001111000000000,
];

/// The rows of `ä`.
pub const LOWER_A_UMLAUT: [u16; 9] = [
    0b0001001000000000,
    0b0000000000000000,
    0b0001111000000000,
    0b0000001100000000,
    0b0001111100000000,
    0b0011001100000000,
    0b0011001100000000,
    0b0011001100000000,
    0b0001111100000000,
];

/// The rows of `ö`.
pub const LOWER_O_UMLAUT: [u16; 9] = [
    0b0001001000000000,
    0b0000000000000000,
    0b0001111000000000,
    0b0011001100000000,
    0b0011001100000000,
    0b0011001100000000,
    0b0011001100000000,
    0b0011001100000000,
    0b0001111000000000,
];

/// The rows of `ü`.
pub const LOWER_U_UMLAUT: [u16; 9] = [
    0b0001001000000000,
    0b0000000000000000,
    0b0011001100000000,
    0b0011001100000000,
    0b0011001100000000,
    0b0011001100000000,
    0b0011001100000000,
    0b0011001100000000,
    0b0001111000000000,
];

/// The rows of `ß`.
pub const SHARP_S: [u16; 9] = [
    0b0001111000000000,
    0b0011001100000000,
    0b0011001100000000,
    0b0011001100000000,
    0b0011011000000000,
    0b0011001100000000,
    0b0011001100000000,
    0b0011001100000000,
    0b0011011000000000,
];

/// The rows of `$`.
pub const DOLLAR: [u16; 11] = [
    0b0000011000000000,
    0b0001111110000000,
    0b0011011001000000,
    0b0011011000000000,
    0b0011011000000000,
    0b0001111110000000,
    0b0000011011000000,
    0b0000011011000000,
    0b0010011011000000,
    0b0001111110000000,
    0b0000011000000000,
];

/// The rows of `€`.
pub const EURO: [u16; 9] = [
    0b0000111100000000,
    0b0001100010000000,
    0b0001100000000000,
    0b0011111000000000,
    0b0001100000000000,
    0b0011111000000000,
    0b0001100000000000,
    0b0001100010000000,
    0b0000111100000000,
];

/// What the typeface holds for one character.
pub struct Glyph {
    /// The bitmap rows, top row first.
    pub rows: Seq<u16>,
    /// How far the pen moves to the right after the glyph.
    pub advance: int,
    /// How many rows of the glyph lie below the baseline; negative for a
    /// glyph that floats above it.
    pub offset: int,
}

/// The typeface as a table. A character it does not know has no rows and
/// moves the pen two pixels back.
pub open spec fn glyph_of(c: char) -> Glyph {
    match c {
        'A' => Glyph { rows: UPPER_A@, advance: 6, offset: 0 },
        'B' => Glyph { rows: UPPER_B@, advance: 6, offset: 0 },
        'C' => Glyph { rows: UPPER_C@, advance: 6, offset: 0 },
        'D' => Glyph { rows: UPPER_D@, advance: 6, offset: 0 },
        'E' => Glyph { rows: UPPER_E@, advance: 6, offset: 0 },
        'F' => Glyph { rows: UPPER_F@, advance: 6, offset: 0 },
        'G' => Glyph { rows: UPPER_G@, advance: 6, offset: 0 },
        'H' => Glyph { rows: UPPER_H@, advance: 6, offset: 0 },
        'I' => Glyph { rows: UPPER_I@, advance: 2, offset: 0 },
        'J' => Glyph { rows: UPPER_J@, advance: 6, offset: 0 },
        'K' => Glyph { rows: UPPER_K@, advance: 7, offset: 0 },
        'L' => Glyph { rows: UPPER_L@, advance: 6, offset: 0 },
        'M' => Glyph { rows: UPPER_M@, advance: 9, offset: 0 },
        'N' => Glyph { rows: UPPER_N@, advance: 7, offset: 0 },
        'O' => Glyph { rows: UPPER_O@, advance: 6, offset: 0 },
        'P' => Glyph { rows: UPPER_P@, advance: 6, offset: 0 },
        'Q' => Glyph { rows: UPPER_Q@, advance: 6, offset: 1 },
        'R' => Glyph { rows: UPPER_R@, advance: 6, offset: 0 },
        'S' => Glyph { rows: UPPER_S@, advance: 6, offset: 0 },
        'T' => Glyph { rows: UPPER_T@, advance: 4, offset: 0 },
        'U' => Glyph { rows: UPPER_U@, advance: 6, offset: 0 },
        'V' => Glyph { rows: UPPER_V@, advance: 6, offset: 0 },
        'W' => Glyph { rows: UPPER_W@, advance: 10, offset: 0 },
        'X' => Glyph { rows: UPPER_X@, advance: 6, offset: 0 },
        'Y' => Glyph { rows: UPPER_Y@, advance: 6, offset: 0 },
        'Z' => Glyph { rows: UPPER_Z@, advance: 6, offset: 0 },
        'a' => Glyph { rows: LOWER_A@, advance: 6, offset: 0 },
        'b' => Glyph { rows: LOWER_B@, advance: 6, offset: 0 },
        'c' => Glyph { rows: LOWER_C@, advance: 6, offset: 0 },
        'd' => Glyph { rows: LOWER_D@, advance: 6, offset: 0 },
        'e' => Glyph { rows: LOWER_E@, advance: 6, offset: 0 },
        'f' => Glyph { rows: LOWER_F@, advance: 3, offset: 0 },
        'g' => Glyph { rows: LOWER_G@, advance: 6, offset: 3 },
        'h' => Glyph { rows: LOWER_H@, advance: 6, offset: 0 },
        'i' => Glyph { rows: LOWER_I@, advance: 2, offset: 0 },
        'j' => Glyph { rows: LOWER_J@, advance: 2, offset: 2 },
        'k' => Glyph { rows: LOWER_K@, advance: 6, offset: 0 },
        'l' => Glyph { rows: LOWER_L@, advance: 2, offset: 0 },
        'm' => Glyph { rows: LOWER_M@, advance: 10, offset: 0 },
        'n' => Glyph { rows: LOWER_N@, advance: 6, offset: 0 },
        'o' => Glyph { rows: LOWER_O@, advance: 6, offset: 0 },
        'p' => Glyph { rows: LOWER_P@, advance: 6, offset: 2 },
        'q' => Glyph { rows: LOWER_Q@, advance: 6, offset: 2 },
        'r' => Glyph { rows: LOWER_R@, advance: 5, offset: 0 },
        's' => Glyph { rows: LOWER_S@, advance: 6, offset: 0 },
        't' => Glyph { rows: LOWER_T@, advance: 3, offset: 0 },
        'u' => Glyph { rows: LOWER_U@, advance: 6, offset: 0 },
        'v' => Glyph { rows: LOWER_V@, advance: 6, offset: 0 },
        'w' => Glyph { rows: LOWER_W@, advance: 10, offset: 0 },
        'x' => Glyph { rows: LOWER_X@, advance: 6, offset: 0 },
        'y' => Glyph { rows: LOWER_Y@, advance: 6, offset: 3 },
        'z' => Glyph { rows: LOWER_Z@, advance: 6, offset: 0 },
        '0' => Glyph { rows: DIGIT_0@, advance: 6, offset: 0 },
        '1' => Glyph { rows: DIGIT_1@, advance: 3, offset: 0 },
        '2' => Glyph { rows: DIGIT_2@, advance: 6, offset: 0 },
        '3' => Glyph { rows: DIGIT_3@, advance: 6, offset: 0 },
        '4' => Glyph { rows: DIGIT_4@, advance: 6, offset: 0 },
        '5' => Glyph { rows: DIGIT_5@, advance: 6, offset: 0 },
        '6' => Glyph { rows: DIGIT_6@, advance: 6, offset: 0 },
        '7' => Glyph { rows: DIGIT_7@, advance: 6, offset: 0 },
        '8' => Glyph { rows: DIGIT_8@, advance: 6, offset: 0 },
        '9' => Glyph { rows: DIGIT_9@, advance: 6, offset: 0 },
        '.' => Glyph { rows: PERIOD@, advance: 2, offset: 0 },
        ',' => Glyph { rows: COMMA@, advance: 2, offset: 2 },
        ':' => Glyph { rows: COLON@, advance: 2, offset: 0 },
        ';' => Glyph { rows: SEMICOLON@, advance: 2, offset: 2 },
        '!' => Glyph { rows: EXCLAMATION@, advance: 2, offset: 0 },
        '?' => Glyph { rows: QUESTION@, advance: 6, offset: 0 },
        '\'' => Glyph { rows: APOSTROPHE@, advance: 2, offset: -5 },
        '_' => Glyph { rows: UNDERSCORE@, advance: 5, offset: 0 },
        '+' => Glyph { rows: PLUS@, advance: 5, offset: -1 },
        '-' => Glyph { rows: MINUS@, advance: 5, offset: -3 },
        '/' => Glyph { rows: SLASH@, advance: 4, offset: 0 },
        '\\' => Glyph { rows: BACKSLASH@, advance: 4, offset: 0 },
        '(' => Glyph { rows: PAREN_OPEN@, advance: 3, offset: 0 },
        ')' => Glyph { rows: PAREN_CLOSE@, advance: 3, offset: 0 },
        '<' => Glyph { rows: ANGLE_OPEN@, advance: 4, offset: -1 },
        '>' => Glyph { rows: ANGLE_CLOSE@, advance: 4, offset: -1 },
        '[' => Glyph { rows: BRACKET_OPEN@, advance: 4, offset: 0 },
        ']' => Glyph { rows: BRACKET_CLOSE@, advance: 4, offset: 0 },
        '{' => Glyph { rows: BRACE_OPEN@, advance: 4, offset: 0 },
        '}' => Glyph { rows: BRACE_CLOSE@, advance: 4, offset: 0 },
        '°' => Glyph { rows: DEGREE@, advance: 3, offset: -6 },
        'Ä' => Glyph { rows: UPPER_A_UMLAUT@, advance: 6, offset: 0 },
        'Ö' => Glyph { rows: UPPER_O_UMLAUT@, advance: 6, offset: 0 },
        'Ü' => Glyph { rows: UPPER_U_UMLAUT@, advance: 6, offset: 0 },
        'ä' => Glyph { rows: LOWER_A_UMLAUT@, advance: 6, offset: 0 },
        'ö' => Glyph { rows: LOWER_O_UMLAUT@, advance: 6, offset: 0 },
        'ü' => Glyph { rows: LOWER_U_UMLAUT@, advance: 6, offset: 0 },
        'ß' => Glyph { rows: SHARP_S@, advance: 6, offset: 0 },
        '$' => Glyph { rows: DOLLAR@, advance: 8, offset: 1 },
        '€' => Glyph { rows: EURO@, advance: 7, offset: 0 },
        ' ' => Glyph { rows: BLANK@, advance: 2, offset: 0 },
        _ => Glyph { rows: BLANK@, advance: -2, offset: 0 },
    }
}

/// Look up the rows, the advance and the baseline offset of a character.
pub fn lookup(c: char) -> (glyph: (&'static [u16], i32, i32))
    ensures
        glyph.0@ == glyph_of(c).rows,
        glyph.1 == glyph_of(c).advance,
        glyph.2 == glyph_of(c).offset,
{
    match c {
        'A' => (&UPPER_A, 6, 0),
        'B' => (&UPPER_B, 6, 0),
        'C' => (&UPPER_C, 6, 0),
        'D' => (&UPPER_D, 6, 0),
        'E' => (&UPPER_E, 6, 0),
        'F' => (&UPPER_F, 6, 0),
        'G' => (&UPPER_G, 6, 0),
        'H' => (&UPPER_H, 6, 0),
        'I' => (&UPPER_I, 2, 0),
        'J' => (&UPPER_J, 6, 0),
        'K' => (&UPPER_K, 7, 0),
        'L' => (&UPPER_L, 6, 0),
        'M' => (&UPPER_M, 9, 0),
        'N' => (&UPPER_N, 7, 0),
        'O' => (&UPPER_O, 6, 0),
        'P' => (&UPPER_P, 6, 0),
        'Q' => (&UPPER_Q, 6, 1),
        'R' => (&UPPER_R, 6, 0),
        'S' => (&UPPER_S, 6, 0),
        'T' => (&UPPER_T, 4, 0),
        'U' => (&UPPER_U, 6, 0),
        'V' => (&UPPER_V, 6, 0),
        'W' => (&UPPER_W, 10, 0),
        'X' => (&UPPER_X, 6, 0),
        'Y' => (&UPPER_Y, 6, 0),
        'Z' => (&UPPER_Z, 6, 0),
        'a' => (&LOWER_A, 6, 0),
        'b' => (&LOWER_B, 6, 0),
        'c' => (&LOWER_C, 6, 0),
        'd' => (&LOWER_D, 6, 0),
        'e' => (&LOWER_E, 6, 0),
        'f' => (&LOWER_F, 3, 0),
        'g' => (&LOWER_G, 6, 3),
        'h' => (&LOWER_H, 6, 0),
        'i' => (&LOWER_I, 2, 0),
        'j' => (&LOWER_J, 2, 2),
        'k' => (&LOWER_K, 6, 0),
        'l' => (&LOWER_L, 2, 0),
        'm' => (&LOWER_M, 10, 0),
        'n' => (&LOWER_N, 6, 0),
        'o' => (&LOWER_O, 6, 0),
        'p' => (&LOWER_P, 6, 2),
        'q' => (&LOWER_Q, 6, 2),
        'r' => (&LOWER_R, 5, 0),
        's' => (&LOWER_S, 6, 0),
        't' => (&LOWER_T, 3, 0),
        'u' => (&LOWER_U, 6, 0),
        'v' => (&LOWER_V, 6, 0),
        'w' => (&LOWER_W, 10, 0),
        'x' => (&LOWER_X, 6, 0),
        'y' => (&LOWER_Y, 6, 3),
        'z' => (&LOWER_Z, 6, 0),
        '0' => (&DIGIT_0, 6, 0),
        '1' => (&DIGIT_1, 3, 0),
        '2' => (&DIGIT_2, 6, 0),
        '3' => (&DIGIT_3, 6, 0),
        '4' => (&DIGIT_4, 6, 0),
        '5' => (&DIGIT_5, 6, 0),
        '6' => (&DIGIT_6, 6, 0),
        '7' => (&DIGIT_7, 6, 0),
        '8' => (&DIGIT_8, 6, 0),
        '9' => (&DIGIT_9, 6, 0),
        '.' => (&PERIOD, 2, 0),
        ',' => (&COMMA, 2, 2),
        ':' => (&COLON, 2, 0),
        ';' => (&SEMICOLON, 2, 2),
        '!' => (&EXCLAMATION, 2, 0),
        '?' => (&QUESTION, 6, 0),
        '\'' => (&APOSTROPHE, 2, -5),
        '_' => (&UNDERSCORE, 5, 0),
        '+' => (&PLUS, 5, -1),
        '-' => (&MINUS, 5, -3),
        '/' => (&SLASH, 4, 0),
        '\\' => (&BACKSLASH, 4, 0),
        '(' => (&PAREN_OPEN, 3, 0),
        ')' => (&PAREN_CLOSE, 3, 0),
        '<' => (&ANGLE_OPEN, 4, -1),
        '>' => (&ANGLE_CLOSE, 4, -1),
        '[' => (&BRACKET_OPEN, 4, 0),
        ']' => (&BRACKET_CLOSE, 4, 0),
        '{' => (&BRACE_OPEN, 4, 0),
        '}' => (&BRACE_CLOSE, 4, 0),
        '°' => (&DEGREE, 3, -6),
        'Ä' => (&UPPER_A_UMLAUT, 6, 0),
        'Ö' => (&UPPER_O_UMLAUT, 6, 0),
        'Ü' => (&UPPER_U_UMLAUT, 6, 0),
        'ä' => (&LOWER_A_UMLAUT, 6, 0),
        'ö' => (&LOWER_O_UMLAUT, 6, 0),
        'ü' => (&LOWER_U_UMLAUT, 6, 0),
        'ß' => (&SHARP_S, 6, 0),
        '$' => (&DOLLAR, 8, 1),
        '€' => (&EURO, 7, 0),
        ' ' => (&BLANK, 2, 0),
        _ => (&BLANK, -2, 0),
    }
}

/// The largest number of rows of any glyph.
pub const MAX_ROWS: usize = 11;

/// The largest advance of any glyph.
pub const MAX_ADVANCE: i32 = 10;

/// Every glyph is small: at most [`MAX_ROWS`] rows, an advance between -2 and
/// [`MAX_ADVANCE`], and a baseline offset between -6 and 3.
pub proof fn lemma_glyph_bounds(c: char)
    ensures
        glyph_of(c).rows.len() <= MAX_ROWS,
        -2 <= glyph_of(c).advance <= MAX_ADVANCE,
        -6 <= glyph_of(c).offset <= 3,
{
}

} // verus!
