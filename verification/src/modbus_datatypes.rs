//! Primitive decoders for the 7M.24 register data types.
//!
//! Each decoder is a pure function over a block of raw 16-bit register
//! words.  A block whose length does not match the fixed requirement of
//! the encoded type is rejected with [`DecodeError::InvalidInputLength`];
//! on a block of the right length the result is pinned down exactly by
//! the decoder's contract.
//!
//! Values that the meter encodes with an implied power-of-ten scale
//! (T5, T6, T16, T17) are returned as an exact [`DecadeValue`]: a signed
//! mantissa together with a signed decade exponent.  The value they
//! denote is `mantissa * 10^exp`; turning that into a machine float is
//! left to the caller, so the decoding itself stays exact.  The FLOAT
//! type is returned as the assembled IEEE-754 single-precision bit
//! pattern for the same reason.

use vstd::prelude::*;

verus! {

/// Failure of a primitive decoder: the register block handed in does not
/// have the exact length that the encoded type requires.
#[derive(Clone, Copy, Debug, PartialEq, Eq, Structural)]
pub enum DecodeError {
    InvalidInputLength,
}

/// An exact decade-scaled reading: it denotes `mantissa * 10^exp`.
#[derive(Clone, Copy, Debug, PartialEq, Eq, Structural)]
pub struct DecadeValue {
    /// Signed mantissa; at most 24 bits wide for every encoded type.
    pub mantissa: i32,
    /// Signed power-of-ten scale factor.
    pub exp: i8,
}

/// The value a 16-bit word denotes when reinterpreted as a signed
/// two's-complement 16-bit integer.
pub open spec fn signed16(w: u16) -> int {
    if w < 0x8000 {
        w as int
    } else {
        w as int - 0x1_0000
    }
}

/// The value a byte (given as an integer in `0..256`) denotes when
/// reinterpreted as a signed two's-complement 8-bit integer.
pub open spec fn signed8(b: int) -> int {
    if b < 0x80 {
        b
    } else {
        b - 0x100
    }
}

/// The value a 24-bit quantity (an integer in `0..2^24`) denotes when
/// reinterpreted as a signed two's-complement 24-bit integer.
pub open spec fn signed24(v: int) -> int {
    if v < 0x80_0000 {
        v
    } else {
        v - 0x100_0000
    }
}

/// The value a 32-bit quantity (an integer in `0..2^32`) denotes when
/// reinterpreted as a signed two's-complement 32-bit integer.
pub open spec fn signed32(v: int) -> int {
    if v < 0x8000_0000 {
        v
    } else {
        v - 0x1_0000_0000
    }
}

/// Two words concatenated big-endian: `w0` occupies bits 31..16,
/// `w1` bits 15..0.
pub open spec fn word_concat(w0: u16, w1: u16) -> int {
    w0 as int * 0x1_0000 + w1 as int
}

/// The high byte of a word (bits 15..8).
pub open spec fn high_byte(w: u16) -> int {
    w as int / 0x100
}

/// The low byte of a word (bits 7..0).
pub open spec fn low_byte(w: u16) -> int {
    w as int % 0x100
}

/// T1 result: the single word read as unsigned.
pub open spec fn t1_decoded(words: Seq<u16>) -> Result<u16, DecodeError> {
    if words.len() == 1 {
        Ok(words[0])
    } else {
        Err(DecodeError::InvalidInputLength)
    }
}

/// T2 result: the single word reinterpreted as signed two's-complement.
pub open spec fn t2_decoded(words: Seq<u16>) -> Result<i16, DecodeError> {
    if words.len() == 1 {
        Ok(signed16(words[0]) as i16)
    } else {
        Err(DecodeError::InvalidInputLength)
    }
}

/// T3 result: both words concatenated big-endian, reinterpreted as a
/// signed two's-complement 32-bit integer.
pub open spec fn t3_decoded(words: Seq<u16>) -> Result<i32, DecodeError> {
    if words.len() == 2 {
        Ok(signed32(word_concat(words[0], words[1])) as i32)
    } else {
        Err(DecodeError::InvalidInputLength)
    }
}

/// T5 result: the high byte of word 0 is a signed decade exponent; the
/// remaining 24 bits are an unsigned mantissa.
pub open spec fn t5_decoded(words: Seq<u16>) -> Result<DecadeValue, DecodeError> {
    if words.len() == 2 {
        Ok(DecadeValue {
            mantissa: (low_byte(words[0]) * 0x1_0000 + words[1]) as i32,
            exp: signed8(high_byte(words[0])) as i8,
        })
    } else {
        Err(DecodeError::InvalidInputLength)
    }
}

/// T6 result: as T5, but the 24-bit mantissa is signed two's-complement.
pub open spec fn t6_decoded(words: Seq<u16>) -> Result<DecadeValue, DecodeError> {
    if words.len() == 2 {
        Ok(DecadeValue {
            mantissa: signed24(low_byte(words[0]) * 0x1_0000 + words[1]) as i32,
            exp: signed8(high_byte(words[0])) as i8,
        })
    } else {
        Err(DecodeError::InvalidInputLength)
    }
}

/// T7 result: word 1 read as an unsigned magnitude (four implied decimal
/// places), negated exactly when the high byte of word 0 is `0xFF`.
pub open spec fn t7_decoded(words: Seq<u16>) -> Result<i32, DecodeError> {
    if words.len() == 2 {
        if high_byte(words[0]) == 0xFF {
            Ok((-(words[1] as int)) as i32)
        } else {
            Ok(words[1] as i32)
        }
    } else {
        Err(DecodeError::InvalidInputLength)
    }
}

/// T16 result: the word read as unsigned with two implied decimal
/// places, i.e. the exact value `word * 10^-2`.
pub open spec fn t16_decoded(words: Seq<u16>) -> Result<DecadeValue, DecodeError> {
    if words.len() == 1 {
        Ok(DecadeValue { mantissa: words[0] as i32, exp: -2i8 })
    } else {
        Err(DecodeError::InvalidInputLength)
    }
}

/// T17 result: the word read as signed with two implied decimal places,
/// i.e. the exact value `signed16(word) * 10^-2`.
pub open spec fn t17_decoded(words: Seq<u16>) -> Result<DecadeValue, DecodeError> {
    if words.len() == 1 {
        Ok(DecadeValue { mantissa: signed16(words[0]) as i32, exp: -2i8 })
    } else {
        Err(DecodeError::InvalidInputLength)
    }
}

/// The IEEE-754 single-precision bit pattern assembled from two words:
/// the sign bit is bit 15 of word 0, the 8 exponent bits are bits 14..7
/// of word 0, and the 23 significand bits are the low 7 bits of word 0
/// followed by all 16 bits of word 1.
pub open spec fn float_bits(w0: u16, w1: u16) -> u32 {
    ((w0 as int / 0x8000) * 0x8000_0000 + ((w0 as int / 0x80) % 0x100) * 0x80_0000 + (
    w0 as int % 0x80) * 0x1_0000 + w1 as int) as u32
}

/// FLOAT result: the assembled IEEE-754 single-precision bit pattern.
pub open spec fn float_decoded(words: Seq<u16>) -> Result<u32, DecodeError> {
    if words.len() == 2 {
        Ok(float_bits(words[0], words[1]))
    } else {
        Err(DecodeError::InvalidInputLength)
    }
}

/// T1: one register word read as an unsigned 16-bit value.
pub fn get_t1(words: &Vec<u16>) -> (r: Result<u16, DecodeError>)
    ensures
        r == t1_decoded(words@),
{
    if words.len() == 1 {
        Ok(words[0])
    } else {
        Err(DecodeError::InvalidInputLength)
    }
}

/// T2: one register word reinterpreted as a signed 16-bit value.
pub fn get_t2(words: &Vec<u16>) -> (r: Result<i16, DecodeError>)
    ensures
        r == t2_decoded(words@),
{
    if words.len() == 1 {
        let w: u16 = words[0];
        if w < 0x8000 {
            Ok(w as i16)
        } else {
            Ok(((w as i32) - 0x1_0000) as i16)
        }
    } else {
        Err(DecodeError::InvalidInputLength)
    }
}

/// T3: two register words concatenated big-endian, reinterpreted as a
/// signed 32-bit value.
pub fn get_t3(words: &Vec<u16>) -> (r: Result<i32, DecodeError>)
    ensures
        r == t3_decoded(words@),
{
    if words.len() == 2 {
        let u: u32 = (words[0] as u32) * 0x1_0000 + (words[1] as u32);
        if u < 0x8000_0000 {
            Ok(u as i32)
        } else {
            Ok(((u as i64) - 0x1_0000_0000) as i32)
        }
    } else {
        Err(DecodeError::InvalidInputLength)
    }
}

/// T5: unsigned 24-bit mantissa with a signed decade exponent.
pub fn get_t5(words: &Vec<u16>) -> (r: Result<DecadeValue, DecodeError>)
    ensures
        r == t5_decoded(words@),
{
    if words.len() == 2 {
        let w0: u16 = words[0];
        let e_raw: u16 = w0 / 0x100;
        let exp: i8 = if e_raw < 0x80 {
            e_raw as i8
        } else {
            ((e_raw as i16) - 0x100) as i8
        };
        let mantissa: i32 = ((w0 % 0x100) as i32) * 0x1_0000 + (words[1] as i32);
        Ok(DecadeValue { mantissa, exp })
    } else {
        Err(DecodeError::InvalidInputLength)
    }
}

/// T6: signed 24-bit mantissa with a signed decade exponent.
pub fn get_t6(words: &Vec<u16>) -> (r: Result<DecadeValue, DecodeError>)
    ensures
        r == t6_decoded(words@),
{
    if words.len() == 2 {
        let w0: u16 = words[0];
        let e_raw: u16 = w0 / 0x100;
        let exp: i8 = if e_raw < 0x80 {
            e_raw as i8
        } else {
            ((e_raw as i16) - 0x100) as i8
        };
        let m: i32 = ((w0 % 0x100) as i32) * 0x1_0000 + (words[1] as i32);
        let mantissa: i32 = if m < 0x80_0000 {
            m
        } else {
            m - 0x100_0000
        };
        Ok(DecadeValue { mantissa, exp })
    } else {
        Err(DecodeError::InvalidInputLength)
    }
}

/// T7: power factor.  Word 1 is an unsigned magnitude with four implied
/// decimal places; the high byte of word 0 flips its sign when `0xFF`.
/// The low byte of word 0 (an inductive/capacitive flag) is decoded but
/// does not alter the numeric result.
pub fn get_t7(words: &Vec<u16>) -> (r: Result<i32, DecodeError>)
    ensures
        r == t7_decoded(words@),
{
    if words.len() == 2 {
        let magnitude: i32 = words[1] as i32;
        if words[0] / 0x100 == 0xFF {
            Ok(-magnitude)
        } else {
            Ok(magnitude)
        }
    } else {
        Err(DecodeError::InvalidInputLength)
    }
}

/// T16: one word read as unsigned, with two implied decimal places.
pub fn get_t16(words: &Vec<u16>) -> (r: Result<DecadeValue, DecodeError>)
    ensures
        r == t16_decoded(words@),
{
    if words.len() == 1 {
        Ok(DecadeValue { mantissa: words[0] as i32, exp: -2 })
    } else {
        Err(DecodeError::InvalidInputLength)
    }
}

/// T17: one word read as signed, with two implied decimal places.
pub fn get_t17(words: &Vec<u16>) -> (r: Result<DecadeValue, DecodeError>)
    ensures
        r == t17_decoded(words@),
{
    if words.len() == 1 {
        let w: u16 = words[0];
        let mantissa: i32 = if w < 0x8000 {
            w as i32
        } else {
            (w as i32) - 0x1_0000
        };
        Ok(DecadeValue { mantissa, exp: -2 })
    } else {
        Err(DecodeError::InvalidInputLength)
    }
}

/// FLOAT: two words holding an IEEE-754 single-precision value; returns
/// the reassembled 32-bit pattern (sign, exponent and significand placed
/// per the standard layout).
pub fn get_float(words: &Vec<u16>) -> (r: Result<u32, DecodeError>)
    ensures
        r == float_decoded(words@),
{
    if words.len() == 2 {
        let w0: u16 = words[0];
        let sign: u32 = (w0 / 0x8000) as u32;
        let exponent: u32 = ((w0 / 0x80) % 0x100) as u32;
        let significand: u32 = ((w0 % 0x80) as u32) * 0x1_0000 + (words[1] as u32);
        Ok(sign * 0x8000_0000 + exponent * 0x80_0000 + significand)
    } else {
        Err(DecodeError::InvalidInputLength)
    }
}

/// The one-word decoders agree on how they read a word: T1 and T16 read
/// it as unsigned and T2 and T17 as signed two's-complement, T16 and T17
/// merely adding two implied decimal places (a decade exponent of -2).
/// The signed and the unsigned reading coincide below `0x8000` and
/// differ by exactly `2^16` from there on.
pub proof fn lemma_single_word_decoders(w: u16)
    ensures
        t1_decoded(seq![w]) == Ok::<u16, DecodeError>(w),
        t2_decoded(seq![w]) == Ok::<i16, DecodeError>(signed16(w) as i16),
        t16_decoded(seq![w]) == Ok::<DecadeValue, DecodeError>(
            (DecadeValue { mantissa: w as i32, exp: -2i8 }),
        ),
        t17_decoded(seq![w]) == Ok::<DecadeValue, DecodeError>(
            (DecadeValue { mantissa: signed16(w) as i32, exp: -2i8 }),
        ),
        t16_decoded(seq![w])->Ok_0.mantissa == t1_decoded(seq![w])->Ok_0 as int,
        t17_decoded(seq![w])->Ok_0.mantissa == t2_decoded(seq![w])->Ok_0 as int,
        w < 0x8000 ==> signed16(w) == w,
        w >= 0x8000 ==> signed16(w) == w - 0x1_0000,
        -0x8000 <= signed16(w) < 0x8000,
{
}

/// The sign rule of the power factor type: a high byte of `0xFF` in
/// word 0 flips the sign of word 1's magnitude; any other high byte
/// leaves it positive.
pub proof fn lemma_t7_sign(w0: u16, w1: u16)
    ensures
        high_byte(w0) == 0xFF ==> t7_decoded(seq![w0, w1]) == Ok::<i32, DecodeError>(
            (-(w1 as int)) as i32,
        ),
        high_byte(w0) != 0xFF ==> t7_decoded(seq![w0, w1]) == Ok::<i32, DecodeError>(w1 as i32),
{
}

/// Reassembling sign, exponent and significand per the IEEE-754 layout
/// yields exactly the big-endian concatenation of the two words: the
/// wire layout of the FLOAT type is the standard one.
pub proof fn lemma_float_bits_is_word_concat(w0: u16, w1: u16)
    ensures
        float_bits(w0, w1) as int == word_concat(w0, w1),
{
    assert((w0 as int / 0x8000) * 0x8000_0000 + ((w0 as int / 0x80) % 0x100) * 0x80_0000 + (
    w0 as int % 0x80) * 0x1_0000 + w1 as int == w0 as int * 0x1_0000 + w1 as int)
        by (bit_vector);
}

/// Decoding is a pure function of the register block alone: two blocks
/// holding the same words decode to bit-identical results, under every
/// decoder of the family.
pub proof fn lemma_decoding_is_pure(a: Seq<u16>, b: Seq<u16>)
    requires
        a == b,
    ensures
        t1_decoded(a) == t1_decoded(b),
        t2_decoded(a) == t2_decoded(b),
        t3_decoded(a) == t3_decoded(b),
        t5_decoded(a) == t5_decoded(b),
        t6_decoded(a) == t6_decoded(b),
        t7_decoded(a) == t7_decoded(b),
        t16_decoded(a) == t16_decoded(b),
        t17_decoded(a) == t17_decoded(b),
        float_decoded(a) == float_decoded(b),
{
}

} // verus!
