//! Color model: the five-channel RGBWW value and the light presets that
//! the natural-light engine interpolates between.
//!
//! Interpolation takes the blend factor as an exact fraction `num / den`
//! and truncates each blended channel toward zero, so a blend is fully
//! determined by its integer inputs.

use vstd::prelude::*;
use crate::timing::{digit_val, is_digit_char};
use vstd::arithmetic::div_mod::{lemma_div_is_ordered, lemma_div_by_multiple, lemma_div_multiples_vanish};

verus! {

/// A five-channel color value (Red, Green, Blue, Warm White, Cool White),
/// one byte per channel.
#[derive(Debug, Clone, Copy, PartialEq, Eq, Structural)]
pub struct RGBWW {
    pub r: u8,
    pub g: u8,
    pub b: u8,
    pub ww: u8,
    pub cw: u8,
}

/// Why a color string was rejected.
#[derive(Debug, Clone, Copy, PartialEq, Eq, Structural)]
pub enum ColorParseError {
    /// Not exactly five comma-separated fields.
    WrongFieldCount,
    /// A field that is not a decimal byte value.
    BadFieldValue,
}

/// The positions of every comma in `s`, in ascending order.
pub open spec fn comma_positions(s: Seq<char>) -> Seq<int>
    decreases s.len(),
{
    if s.len() == 0 {
        Seq::empty()
    } else {
        let rest = comma_positions(s.drop_last());
        if s.last() == ',' {
            rest.push(s.len() - 1)
        } else {
            rest
        }
    }
}

/// Whether every character of `s` is a decimal digit.
pub open spec fn seq_digits(s: Seq<char>) -> bool {
    forall|i: int| 0 <= i < s.len() ==> is_digit_char(#[trigger] s[i])
}

/// The number written by a sequence of decimal digits.
pub open spec fn digits_val(s: Seq<char>) -> int
    decreases s.len(),
{
    if s.len() == 0 {
        0
    } else {
        digits_val(s.drop_last()) * 10 + digit_val(s.last())
    }
}

/// A field parses as a byte exactly when it is a nonempty run of
/// decimal digits whose value is at most 255.
pub open spec fn parse_u8_field(s: Seq<char>) -> Option<u8> {
    if s.len() > 0 && seq_digits(s) && digits_val(s) <= 255 {
        Some(digits_val(s) as u8)
    } else {
        None
    }
}

/// The color written by an `"R,G,B,WW,CW"` string: five byte-valued
/// fields separated by exactly four commas.
pub open spec fn rgbww_from_str_spec(s: Seq<char>) -> Option<RGBWW> {
    let cp = comma_positions(s);
    if cp.len() == 4 {
        let f0 = parse_u8_field(s.subrange(0, cp[0]));
        let f1 = parse_u8_field(s.subrange(cp[0] + 1, cp[1]));
        let f2 = parse_u8_field(s.subrange(cp[1] + 1, cp[2]));
        let f3 = parse_u8_field(s.subrange(cp[2] + 1, cp[3]));
        let f4 = parse_u8_field(s.subrange(cp[3] + 1, s.len() as int));
        if f0 is Some && f1 is Some && f2 is Some && f3 is Some && f4 is Some {
            Some(
                RGBWW {
                    r: f0->Some_0,
                    g: f1->Some_0,
                    b: f2->Some_0,
                    ww: f3->Some_0,
                    cw: f4->Some_0,
                },
            )
        } else {
            None
        }
    } else {
        None
    }
}

/// Every comma position is an in-range index of a comma, the list is
/// strictly ascending, and no comma is missing from it.
proof fn lemma_comma_positions_props(s: Seq<char>)
    ensures
        forall|k: int|
            0 <= k < comma_positions(s).len() ==> 0 <= #[trigger] comma_positions(s)[k] < s.len()
                && s[comma_positions(s)[k]] == ',',
        forall|k1: int, k2: int|
            0 <= k1 < k2 < comma_positions(s).len() ==> comma_positions(s)[k1] < comma_positions(
                s,
            )[k2],
    decreases s.len(),
{
    if s.len() > 0 {
        lemma_comma_positions_props(s.drop_last());
        let cp = comma_positions(s);
        let rest = comma_positions(s.drop_last());
        assert(forall|k: int|
            0 <= k < rest.len() ==> s.drop_last()[#[trigger] rest[k]] == s[rest[k]]);
        assert forall|k1: int, k2: int| 0 <= k1 < k2 < cp.len() implies cp[k1] < cp[k2] by {
            if k2 < rest.len() {
                assert(cp[k1] == rest[k1] && cp[k2] == rest[k2]);
            } else {
                // only a trailing comma adds an element, at the last index
                assert(cp[k2] == s.len() - 1);
                assert(cp[k1] == rest[k1] && rest[k1] < s.drop_last().len());
            }
        }
    }
}

impl RGBWW {
    /// The all-channels-zero color.
    pub fn off() -> (c: RGBWW)
        ensures
            c == (RGBWW { r: 0, g: 0, b: 0, ww: 0, cw: 0 }),
    {
        RGBWW { r: 0, g: 0, b: 0, ww: 0, cw: 0 }
    }

    /// Parses an `"R,G,B,WW,CW"` string: exactly five comma-separated
    /// decimal byte values.  Anything else is rejected, a wrong field
    /// count and a bad field reported apart.
    pub fn from_str(s: &str) -> (r: Result<RGBWW, ColorParseError>)
        ensures
            match rgbww_from_str_spec(s@) {
                Some(c) => r == Ok::<RGBWW, ColorParseError>(c),
                None => r is Err,
            },
            r == Err::<RGBWW, ColorParseError>(ColorParseError::WrongFieldCount) <==> comma_positions(
                s@,
            ).len() != 4,
            r == Err::<RGBWW, ColorParseError>(ColorParseError::BadFieldValue) <==> (
            comma_positions(s@).len() == 4 && rgbww_from_str_spec(s@) is None),
    {
        let len = s.unicode_len();
        let mut commas: Vec<usize> = Vec::new();
        let mut i: usize = 0;
        proof {
            assert(s@.take(0) =~= Seq::<char>::empty());
        }
        while i < len
            invariant
                i <= len,
                len == s@.len(),
                commas@.len() == comma_positions(s@.take(i as int)).len(),
                forall|k: int|
                    0 <= k < commas@.len() ==> #[trigger] commas@[k] as int == comma_positions(
                        s@.take(i as int),
                    )[k],
            decreases len - i,
        {
            let c = s.get_char(i);
            proof {
                assert(s@.take(i + 1).drop_last() =~= s@.take(i as int));
                assert(s@.take(i + 1).last() == s@[i as int]);
            }
            if c == ',' {
                commas.push(i);
            }
            i = i + 1;
        }
        proof {
            assert(s@.take(len as int) =~= s@);
            lemma_comma_positions_props(s@);
        }
        if commas.len() != 4 {
            return Err(ColorParseError::WrongFieldCount);
        }
        let c0 = commas[0];
        let c1 = commas[1];
        let c2 = commas[2];
        let c3 = commas[3];
        let f0 = parse_field(s, 0, c0);
        let f1 = parse_field(s, c0 + 1, c1);
        let f2 = parse_field(s, c1 + 1, c2);
        let f3 = parse_field(s, c2 + 1, c3);
        let f4 = parse_field(s, c3 + 1, len);
        match (f0, f1, f2, f3, f4) {
            (Some(r), Some(g), Some(b), Some(ww), Some(cw)) => Ok(RGBWW { r, g, b, ww, cw }),
            _ => Err(ColorParseError::BadFieldValue),
        }
    }
}

/// Parses the characters of `s` from `start` up to `end` as a decimal
/// byte value.
fn parse_field(s: &str, start: usize, end: usize) -> (r: Option<u8>)
    requires
        start <= end <= s@.len(),
    ensures
        r == parse_u8_field(s@.subrange(start as int, end as int)),
{
    let ghost sub = s@.subrange(start as int, end as int);
    if start == end {
        return None;
    }
    // `acc` follows the field's value, saturating at 256 once the
    // value can no longer be a byte
    let mut acc: u32 = 0;
    let mut j: usize = start;
    proof {
        assert(sub.take(0) =~= Seq::<char>::empty());
    }
    while j < end
        invariant
            start <= j <= end <= s@.len(),
            end > start,
            sub == s@.subrange(start as int, end as int),
            sub.len() == end - start,
            forall|k: int| 0 <= k < j - start ==> is_digit_char(#[trigger] sub[k]),
            acc <= 256,
            acc <= 255 ==> acc as int == digits_val(sub.take(j - start)),
            acc == 256 ==> digits_val(sub.take(j - start)) > 255,
        decreases end - j,
    {
        let c = s.get_char(j);
        proof {
            assert(sub[j - start] == s@[j as int]);
            assert(sub.take(j - start + 1).drop_last() =~= sub.take(j - start));
            assert(sub.take(j - start + 1).last() == sub[j - start]);
        }
        let d = match crate::timing::digit_of(c) {
            Some(d) => d,
            None => {
                proof {
                    assert(!is_digit_char(sub[j - start]));
                }
                return None;
            },
        };
        let next: u32 = acc * 10 + (d as u32);
        acc = if next > 255 {
            256
        } else {
            next
        };
        j = j + 1;
    }
    proof {
        assert(sub.take(end - start) =~= sub);
    }
    if acc <= 255 {
        Some(acc as u8)
    } else {
        None
    }
}

/// The all-channels-zero color value.
pub open spec fn rgbww_off() -> RGBWW {
    RGBWW { r: 0, g: 0, b: 0, ww: 0, cw: 0 }
}

/// A color value seen as an interpolation endpoint.
pub open spec fn preset_of(c: RGBWW) -> LightPreset {
    LightPreset { r: c.r, g: c.g, b: c.b, ww: c.ww, cw: c.cw }
}

/// An interpolation result seen as a color command.
pub open spec fn rgbww_of(p: LightPreset) -> RGBWW {
    RGBWW { r: p.r, g: p.g, b: p.b, ww: p.ww, cw: p.cw }
}

/// Default schedule strings and LED channel values, as the
/// configuration loader hands them over.
#[allow(non_snake_case)]
pub struct DefaultConfig {
    pub def_uv1_start: String,
    pub def_uv1_end: String,
    pub def_uv2_start: String,
    pub def_uv2_end: String,
    pub def_heat_start: String,
    pub def_heat_end: String,
    pub def_led_R: i32,
    pub def_led_G: i32,
    pub def_led_B: i32,
    pub def_led_CW: i32,
    pub def_led_WW: i32,
}

/// One resolved weekly schedule row: the on/off windows for the two UV
/// lamps and the heat lamp, and the LED window with its color.
pub struct Schedule {
    pub week_number: i32,
    pub uv1_start: String,
    pub uv1_end: String,
    pub uv2_start: String,
    pub uv2_end: String,
    pub heat_start: String,
    pub heat_end: String,
    pub led_start: String,
    pub led_end: String,
    pub led_r: i32,
    pub led_g: i32,
    pub led_b: i32,
    pub led_cw: i32,
    pub led_ww: i32,
}

impl Schedule {
    /// The LED color of this row, each stored channel truncated to a
    /// byte as the actuation path does.
    pub fn led_color(&self) -> (c: RGBWW)
        ensures
            c == (RGBWW {
                r: self.led_r as u8,
                g: self.led_g as u8,
                b: self.led_b as u8,
                ww: self.led_ww as u8,
                cw: self.led_cw as u8,
            }),
    {
        RGBWW {
            r: #[verifier::truncate] (self.led_r as u8),
            g: #[verifier::truncate] (self.led_g as u8),
            b: #[verifier::truncate] (self.led_b as u8),
            ww: #[verifier::truncate] (self.led_ww as u8),
            cw: #[verifier::truncate] (self.led_cw as u8),
        }
    }
}

/// A stored manual override for the LED strip.
pub struct Override {
    pub id: i32,
    pub red: Option<i32>,
    pub green: Option<i32>,
    pub blue: Option<i32>,
    pub cool_white: Option<i32>,
    pub warm_white: Option<i32>,
    pub active: bool,
}

/// The latest sensor snapshot, overwritten wholesale on every poll
/// cycle.  The timestamp counts seconds; temperatures and humidity are
/// stated in tenths of their unit, the UV indices in hundredths.
#[derive(Debug, Clone, Copy, PartialEq, Eq, Structural)]
pub struct CurrentReadings {
    pub timestamp: u64,
    pub basking_temp: i32,
    pub control_temp: i32,
    pub cool_temp: i32,
    pub humidity: i32,
    pub uv_1: i32,
    pub uv_2: i32,
}

impl CurrentReadings {
    /// A zeroed snapshot taken at `timestamp`.
    pub fn new(timestamp: u64) -> (c: CurrentReadings)
        ensures
            c == (CurrentReadings {
                timestamp,
                basking_temp: 0i32,
                control_temp: 0i32,
                cool_temp: 0i32,
                humidity: 0i32,
                uv_1: 0i32,
                uv_2: 0i32,
            }),
    {
        CurrentReadings {
            timestamp,
            basking_temp: 0,
            control_temp: 0,
            cool_temp: 0,
            humidity: 0,
            uv_1: 0,
            uv_2: 0,
        }
    }
}

/// An anchor color for the natural-light engine (morning, noon, evening,
/// or season), with the same five channels as `RGBWW`.
#[derive(Debug, Clone, Copy, PartialEq, Eq, Structural)]
pub struct LightPreset {
    pub r: u8,
    pub g: u8,
    pub b: u8,
    pub ww: u8,
    pub cw: u8,
}

/// A blend factor `num / den` is clamped to the interval `[0, 1]`;
/// with unsigned numerators only the upper clamp can act.
pub open spec fn clamp_factor(num: int, den: int) -> int {
    if num > den {
        den
    } else {
        num
    }
}

/// One blended channel: `a * (1 - f) + b * f` with `f = num / den`,
/// computed exactly over the integers and truncated toward zero.
pub open spec fn lerp_channel(a: u8, b: u8, num: int, den: int) -> int {
    ((a as int) * (den - num) + (b as int) * num) / den
}

/// The blend of two presets at factor `num / den` (after clamping).
pub open spec fn interpolate_spec(a: LightPreset, b: LightPreset, num: int, den: int) -> LightPreset {
    let k = clamp_factor(num, den);
    LightPreset {
        r: lerp_channel(a.r, b.r, k, den) as u8,
        g: lerp_channel(a.g, b.g, k, den) as u8,
        b: lerp_channel(a.b, b.b, k, den) as u8,
        ww: lerp_channel(a.ww, b.ww, k, den) as u8,
        cw: lerp_channel(a.cw, b.cw, k, den) as u8,
    }
}

/// A blended channel never leaves the interval spanned by its endpoints.
pub proof fn lemma_lerp_channel_bounds(a: u8, b: u8, num: int, den: int)
    requires
        den > 0,
        0 <= num <= den,
    ensures
        lerp_channel(a, b, num, den) >= if a <= b { a as int } else { b as int },
        lerp_channel(a, b, num, den) <= if a <= b { b as int } else { a as int },
{
    let lo: int = if a <= b { a as int } else { b as int };
    let hi: int = if a <= b { b as int } else { a as int };
    let x = (a as int) * (den - num) + (b as int) * num;
    assert(lo * den <= x <= hi * den) by (nonlinear_arith)
        requires
            den > 0,
            0 <= num <= den,
            lo <= a as int <= hi,
            lo <= b as int <= hi,
            x == (a as int) * (den - num) + (b as int) * num,
    ;
    lemma_div_is_ordered(lo * den, x, den);
    lemma_div_is_ordered(x, hi * den, den);
    lemma_div_by_multiple(lo, den);
    lemma_div_by_multiple(hi, den);
}

/// Blended channels move monotonically with the factor: toward `b`'s
/// value when `b` is the larger endpoint, and away from it when it is
/// the smaller.
pub proof fn lemma_lerp_channel_monotonic(a: u8, b: u8, num1: int, num2: int, den: int)
    requires
        den > 0,
        0 <= num1 <= num2 <= den,
    ensures
        a <= b ==> lerp_channel(a, b, num1, den) <= lerp_channel(a, b, num2, den),
        a >= b ==> lerp_channel(a, b, num1, den) >= lerp_channel(a, b, num2, den),
{
    let x1 = (a as int) * (den - num1) + (b as int) * num1;
    let x2 = (a as int) * (den - num2) + (b as int) * num2;
    assert((a <= b ==> x1 <= x2) && (a >= b ==> x2 <= x1)) by (nonlinear_arith)
        requires
            0 <= num1 <= num2 <= den,
            x1 == (a as int) * (den - num1) + (b as int) * num1,
            x2 == (a as int) * (den - num2) + (b as int) * num2,
    ;
    if a <= b {
        lemma_div_is_ordered(x1, x2, den);
    } else {
        lemma_div_is_ordered(x2, x1, den);
    }
}

/// A blend at factor `0` is the first preset and a blend at factor `1`
/// (that is, `den / den`) is the second, for every pair of presets.
pub proof fn lemma_interpolate_endpoints(a: LightPreset, b: LightPreset, den: int)
    requires
        den > 0,
    ensures
        interpolate_spec(a, b, 0, den) == a,
        interpolate_spec(a, b, den, den) == b,
{
    lemma_lerp_endpoint(a.r, b.r, den);
    lemma_lerp_endpoint(a.g, b.g, den);
    lemma_lerp_endpoint(a.b, b.b, den);
    lemma_lerp_endpoint(a.ww, b.ww, den);
    lemma_lerp_endpoint(a.cw, b.cw, den);
}

proof fn lemma_lerp_endpoint(a: u8, b: u8, den: int)
    requires
        den > 0,
    ensures
        lerp_channel(a, b, 0, den) == a as int,
        lerp_channel(a, b, den, den) == b as int,
{
    assert((a as int) * (den - 0) + (b as int) * 0 == den * (a as int)) by (nonlinear_arith);
    assert((a as int) * (den - den) + (b as int) * den == den * (b as int)) by (nonlinear_arith);
    lemma_div_multiples_vanish(a as int, den);
    lemma_div_multiples_vanish(b as int, den);
}

impl LightPreset {
    /// Builds a preset from its five channel values.
    pub fn new(r: u8, g: u8, b: u8, ww: u8, cw: u8) -> (p: LightPreset)
        ensures
            p == (LightPreset { r, g, b, ww, cw }),
    {
        LightPreset { r, g, b, ww, cw }
    }

    /// Blends this preset toward `other` by the factor `num / den`,
    /// clamped to `[0, 1]`, truncating each channel toward zero.
    pub fn interpolate(&self, other: &LightPreset, num: u32, den: u32) -> (p: LightPreset)
        requires
            den > 0,
        ensures
            p == interpolate_spec(*self, *other, num as int, den as int),
    {
        let k: u32 = if num > den {
            den
        } else {
            num
        };
        LightPreset {
            r: lerp_channel_exec(self.r, other.r, k, den),
            g: lerp_channel_exec(self.g, other.g, k, den),
            b: lerp_channel_exec(self.b, other.b, k, den),
            ww: lerp_channel_exec(self.ww, other.ww, k, den),
            cw: lerp_channel_exec(self.cw, other.cw, k, den),
        }
    }

    /// Converts the preset to an `RGBWW` command value.
    pub fn to_rgbww(&self) -> (c: RGBWW)
        ensures
            c == rgbww_of(*self),
    {
        RGBWW { r: self.r, g: self.g, b: self.b, ww: self.ww, cw: self.cw }
    }

    /// Takes a color command as an interpolation endpoint.
    pub fn from_rgbww(c: &RGBWW) -> (p: LightPreset)
        ensures
            p == preset_of(*c),
    {
        LightPreset { r: c.r, g: c.g, b: c.b, ww: c.ww, cw: c.cw }
    }
}

/// One channel of a blend, with the factor already clamped.
fn lerp_channel_exec(a: u8, b: u8, num: u32, den: u32) -> (v: u8)
    requires
        0 < den,
        num <= den,
    ensures
        v as int == lerp_channel(a, b, num as int, den as int),
{
    proof {
        lemma_lerp_channel_bounds(a, b, num as int, den as int);
        assert((a as int) * ((den - num) as int) <= 255 * 0xffff_ffff) by (nonlinear_arith)
            requires
                a <= 255,
                0 <= (den - num) as int <= 0xffff_ffff,
        ;
        assert((b as int) * (num as int) <= 255 * 0xffff_ffff) by (nonlinear_arith)
            requires
                b <= 255,
                0 <= num as int <= 0xffff_ffff,
        ;
    }
    let p1: u64 = (a as u64) * ((den - num) as u64);
    let p2: u64 = (b as u64) * (num as u64);
    let x: u64 = p1 + p2;
    (x / (den as u64)) as u8
}

} // verus!
