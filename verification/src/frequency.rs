//! Carrier frequencies and the word that programs the synthesizer.
//!
//! A frequency is a single-precision binary floating-point number of
//! megahertz. It is held by its 32 bits, so that the range check and the
//! synthesizer word are computed, and proved, in whole numbers.

use vstd::prelude::*;
use vstd::arithmetic::div_mod::lemma_fundamental_div_mod_converse_div;
use vstd::arithmetic::power2::{
    lemma2_to64,
    lemma_pow2_adds,
    lemma_pow2_pos,
    lemma_pow2_strictly_increases,
    pow2,
};

verus! {

/// The bits of 868.0, the lowest frequency of the band.
pub const BAND_FLOOR: u32 = 0x4459_0000;

/// The bits of 915.0, the first frequency above the band.
pub const BAND_CEILING: u32 = 0x4464_C000;

/// A frequency in megahertz, as the bits of a single-precision binary
/// floating-point number (`f32::to_bits`): one sign bit, eight exponent bits,
/// twenty-three fraction bits.
#[derive(Clone, Copy, Debug, PartialEq, Eq, Structural)]
pub struct Frequency {
    pub bits: u32,
}

impl Frequency {
    /// The sign bit: 1 for a negative number.
    pub open spec fn sign(self) -> nat {
        (self.bits / 0x8000_0000) as nat
    }

    /// The biased exponent.
    pub open spec fn exponent(self) -> nat {
        ((self.bits / 0x80_0000) % 0x100) as nat
    }

    /// The fraction bits.
    pub open spec fn fraction(self) -> nat {
        (self.bits % 0x80_0000) as nat
    }

    /// Whether the bits denote a number, and not an infinity or a NaN.
    pub open spec fn is_finite(self) -> bool {
        self.exponent() != 0xff
    }

    /// The significand, with its leading one where the number is normal.
    pub open spec fn significand(self) -> nat {
        if self.exponent() == 0 {
            self.fraction()
        } else {
            0x80_0000 + self.fraction()
        }
    }

    /// The power of two that the significand is multiplied by, counted from
    /// the smallest one that a single-precision number has, 2^-149.
    pub open spec fn shift(self) -> nat {
        if self.exponent() == 0 {
            0
        } else {
            (self.exponent() - 1) as nat
        }
    }

    /// The magnitude of a finite number in units of 2^-149 MHz, which is a
    /// whole number for every finite single-precision number.
    pub open spec fn scaled(self) -> nat {
        self.significand() * pow2(self.shift())
    }

    /// Whether the frequency lies in the band: 868 MHz <= f < 915 MHz.
    pub open spec fn in_band(self) -> bool {
        &&& self.sign() == 0
        &&& self.is_finite()
        &&& 868 * pow2(149) <= self.scaled() < 915 * pow2(149)
    }

    /// The synthesizer word of a frequency that is not negative: the whole
    /// number nearest to f * 2^19 / 32, the frequency counted in steps of the
    /// synthesizer, which are 2^-14 MHz wide.
    pub open spec fn word(self) -> nat {
        (self.scaled() + pow2(134)) / pow2(135)
    }

    /// The 24-bit word that programs the synthesizer to this frequency.
    pub fn synthesizer_word(&self) -> (word: u32)
        requires
            self.in_band(),
        ensures
            word == self.word(),
            word < 0x100_0000,
    {
        proof {
            lemma_band_bits(*self);
            lemma_word_in_band(*self);
        }
        0x80_0000 + self.bits % 0x80_0000
    }
}

/// The three bytes of a synthesizer word, most significant first.
pub open spec fn word_bytes(word: nat) -> (u8, u8, u8) {
    ((word / 0x1_0000 % 0x100) as u8, (word / 0x100 % 0x100) as u8, (word % 0x100) as u8)
}

/// Splits a synthesizer word into the bytes of the three frequency
/// registers, most significant first. A word of 24 bits is the three bytes
/// put together; of a longer word the low 24 bits are taken.
pub fn split_word(word: u32) -> (bytes: (u8, u8, u8))
    ensures
        bytes == word_bytes(word as nat),
        word < 0x100_0000 ==> bytes.0 * 0x1_0000 + bytes.1 * 0x100 + bytes.2 == word,
{
    ((word / 0x1_0000 % 0x100) as u8, (word / 0x100 % 0x100) as u8, (word % 0x100) as u8)
}

proof fn lemma_band_powers()
    ensures
        pow2(135) > 0,
        pow2(134) > 0,
        pow2(135) == 2 * pow2(134),
        pow2(149) == 16_384 * pow2(135),
        pow2(158) == 512 * pow2(149),
        pow2(159) == 1024 * pow2(149),
{
    lemma2_to64();
    lemma_pow2_pos(135);
    lemma_pow2_pos(134);
    lemma_pow2_adds(1, 134);
    lemma_pow2_adds(14, 135);
    lemma_pow2_adds(9, 149);
    lemma_pow2_adds(10, 149);
}

proof fn lemma_scale_up(a: int, b: int, p: int)
    by (nonlinear_arith)
    requires
        0 <= a <= b,
        0 <= p,
    ensures
        a * p <= b * p,
{
}

proof fn lemma_scale_down(a: int, b: int, p: int)
    by (nonlinear_arith)
    requires
        a * p < b * p,
        0 < p,
    ensures
        a < b,
{
}

/// A frequency lies in the band exactly when its bits, read as a whole
/// number, lie between the bits of 868.0 and those of 915.0.
pub proof fn lemma_band_bits(f: Frequency)
    ensures
        f.in_band() <==> BAND_FLOOR <= f.bits < BAND_CEILING,
{
    lemma_band_powers();
    let p: int = pow2(135) as int;
    let e: nat = f.exponent();
    let m: nat = f.fraction();
    if f.sign() == 0 && f.is_finite() {
        assert(f.bits == e * 0x80_0000 + m);
        if e == 136 {
            let k: int = 0x80_0000 + m as int;
            assert(f.scaled() == k * p);
            assert(868 * pow2(149) == 14_221_312 * p);
            assert(915 * pow2(149) == 14_991_360 * p);
            if 14_221_312 <= k {
                lemma_scale_up(14_221_312, k, p);
            } else {
                lemma_scale_up(k + 1, 14_221_312, p);
                assert((k + 1) * p == k * p + p) by (nonlinear_arith);
            }
            if k < 14_991_360 {
                lemma_scale_up(k + 1, 14_991_360, p);
                assert((k + 1) * p == k * p + p) by (nonlinear_arith);
            } else {
                lemma_scale_up(14_991_360, k, p);
            }
        } else if e < 136 {
            // Below 512 MHz.
            let s: nat = f.shift();
            assert(s <= 134);
            if s < 134 {
                lemma_pow2_strictly_increases(s, 134);
            }
            lemma_pow2_pos(s);
            lemma_scale_up(f.significand() as int, 0x100_0000, pow2(s) as int);
            lemma_scale_up(pow2(s) as int, pow2(134) as int, 0x100_0000);
            assert(pow2(158) == 0x100_0000 * pow2(134)) by {
                lemma2_to64();
                lemma_pow2_adds(24, 134);
            }
            assert(f.scaled() <= 0x100_0000 * pow2(134)) by {
                assert(f.significand() * pow2(s) <= 0x100_0000 * pow2(s));
                assert(pow2(s) * 0x100_0000 <= pow2(134) * 0x100_0000);
                assert(pow2(s) * 0x100_0000 == 0x100_0000 * pow2(s)) by (nonlinear_arith);
                assert(pow2(134) * 0x100_0000 == 0x100_0000 * pow2(134)) by (nonlinear_arith);
            }
            assert(!f.in_band());
        } else {
            // At or above 1024 MHz.
            let s: nat = f.shift();
            assert(s >= 136);
            if s > 136 {
                lemma_pow2_strictly_increases(136, s);
            }
            lemma_pow2_pos(136);
            lemma_scale_up(0x80_0000, f.significand() as int, pow2(s) as int);
            lemma_scale_up(pow2(136) as int, pow2(s) as int, 0x80_0000);
            assert(pow2(159) == 0x80_0000 * pow2(136)) by {
                lemma2_to64();
                lemma_pow2_adds(23, 136);
            }
            assert(f.scaled() >= 0x80_0000 * pow2(136)) by {
                assert(0x80_0000 * pow2(s) <= f.significand() * pow2(s));
                assert(pow2(136) * 0x80_0000 <= pow2(s) * 0x80_0000);
                assert(pow2(s) * 0x80_0000 == 0x80_0000 * pow2(s)) by (nonlinear_arith);
                assert(pow2(136) * 0x80_0000 == 0x80_0000 * pow2(136)) by (nonlinear_arith);
            }
            assert(!f.in_band());
        }
    }
}

/// In the band a frequency is a whole number of synthesizer steps, so its
/// word is exact: the word times the step is the frequency. The word is the
/// significand, and fills 24 bits.
pub proof fn lemma_word_in_band(f: Frequency)
    requires
        f.in_band(),
    ensures
        f.word() == 0x80_0000 + f.fraction(),
        f.word() * pow2(135) == f.scaled(),
        0x80_0000 <= f.word() < 0x100_0000,
{
    lemma_band_bits(f);
    lemma_band_powers();
    let p: int = pow2(135) as int;
    let k: int = 0x80_0000 + f.fraction() as int;
    assert(f.exponent() == 136);
    assert(f.scaled() == k * p);
    lemma_fundamental_div_mod_converse_div((f.scaled() + pow2(134)) as int, p, k, pow2(134) as int);
}

} // verus!
