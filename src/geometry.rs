//! Exact scale factors and coordinates.
//!
//! A scale factor is a fraction of two small positive integers, and a
//! logical or physical coordinate is a fraction with a positive denominator.
//! Dividing by a scale and multiplying by a scale are then exact.

use vstd::prelude::*;

verus! {

/// Largest numerator or denominator of a scale factor.
pub const SCALE_PART_MAX: u16 = 65535;

/// A logical-to-physical scale factor, held exactly as `num / den`.
#[derive(Clone, Copy, Debug, PartialEq, Eq, Structural)]
pub struct Scale {
    pub num: u16,
    pub den: u16,
}

impl Scale {
    /// Both parts are positive.
    pub open spec fn wf(self) -> bool {
        self.num > 0 && self.den > 0
    }

    /// The scale factor one.
    pub fn unit() -> (r: Scale)
        ensures
            r.num == 1,
            r.den == 1,
            r.wf(),
    {
        Scale { num: 1, den: 1 }
    }
}

/// An exact fraction `num / den`.
#[derive(Clone, Copy, Debug, PartialEq, Eq, Structural)]
pub struct Ratio {
    pub num: i64,
    pub den: u32,
}

impl Ratio {
    /// The denominator is positive.
    pub open spec fn wf(self) -> bool {
        self.den > 0
    }

    /// The fraction is a coordinate divided by a scale factor: its
    /// numerator is an `i32` times a scale part and its denominator a
    /// scale part.
    pub open spec fn is_logical_sized(self) -> bool {
        &&& 0 < self.den <= SCALE_PART_MAX
        &&& -0x8000_0000 * (SCALE_PART_MAX as int) <= self.num <= 0x7fff_ffff * (SCALE_PART_MAX as int)
    }

    /// Both fractions stand for the same number.
    pub open spec fn same_value(self, other: Ratio) -> bool {
        self.num * other.den == other.num * self.den
    }

    /// The whole number `n` as a fraction.
    pub fn whole(n: i32) -> (r: Ratio)
        ensures
            r.num == n as int,
            r.den == 1,
            r.is_logical_sized(),
    {
        Ratio { num: n as i64, den: 1 }
    }
}

/// The physical coordinate `p` divided by the scale `s`: `p * s.den / s.num`.
pub open spec fn logical_of(p: i32, s: Scale) -> Ratio {
    Ratio { num: (p * s.den) as i64, den: s.num as u32 }
}

/// The logical coordinate `l` multiplied by the scale `s`.
pub open spec fn physical_of(l: Ratio, s: Scale) -> Ratio {
    Ratio { num: (l.num * s.num) as i64, den: (l.den * s.den) as u32 }
}

/// Divides a physical coordinate by a scale factor, exactly.
pub fn to_logical(p: i32, s: Scale) -> (r: Ratio)
    requires
        s.wf(),
    ensures
        r == logical_of(p, s),
        r.num == p * s.den,
        r.den == s.num,
        r.is_logical_sized(),
{
    let d = s.den as i64;
    assert(-0x8000_0000 * 65535 <= (p as int) * (d as int) <= 0x7fff_ffff * 65535) by (nonlinear_arith)
        requires
            -0x8000_0000 <= p <= 0x7fff_ffff,
            0 < d <= 65535,
    ;
    Ratio { num: (p as i64) * d, den: s.num as u32 }
}

/// Multiplies a logical coordinate by a scale factor, exactly.
pub fn to_physical(l: Ratio, s: Scale) -> (r: Ratio)
    requires
        l.is_logical_sized(),
        s.wf(),
    ensures
        r == physical_of(l, s),
        r.num == l.num * s.num,
        r.den == l.den * s.den,
        r.wf(),
{
    let n = s.num as i64;
    let d = s.den as u32;
    assert(-0x8000_0000 * 65535 * 65535 <= (l.num as int) * (n as int) <= 0x7fff_ffff * 65535 * 65535)
        by (nonlinear_arith)
        requires
            -0x8000_0000 * 65535 <= l.num <= 0x7fff_ffff * 65535,
            0 < n <= 65535,
    ;
    assert(0 < (l.den as int) * (d as int) <= 65535 * 65535) by (nonlinear_arith)
        requires
            0 < l.den <= 65535,
            0 < d <= 65535,
    ;
    Ratio { num: l.num * n, den: l.den * d }
}

/// Converting a physical coordinate to logical units and back at the same
/// scale gives the coordinate again.
pub proof fn lemma_logical_round_trip(p: i32, s: Scale)
    requires
        s.wf(),
    ensures
        physical_of(logical_of(p, s), s).same_value(Ratio { num: p as i64, den: 1 }),
{
    let l = logical_of(p, s);
    assert(-0x8000_0000 * 65535 <= (p as int) * (s.den as int) <= 0x7fff_ffff * 65535) by (nonlinear_arith)
        requires
            -0x8000_0000 <= p <= 0x7fff_ffff,
            0 < s.den <= 65535,
    ;
    assert(0 < (s.num as int) * (s.den as int) <= 65535 * 65535) by (nonlinear_arith)
        requires
            0 < s.num <= 65535,
            0 < s.den <= 65535,
    ;
    assert(-0x8000_0000 * 65535 * 65535 <= (l.num as int) * (s.num as int) <= 0x7fff_ffff * 65535 * 65535)
        by (nonlinear_arith)
        requires
            -0x8000_0000 * 65535 <= l.num <= 0x7fff_ffff * 65535,
            0 < s.num <= 65535,
    ;
    assert((p * s.den) * s.num * 1 == (p as int) * (s.num * s.den)) by (nonlinear_arith);
}

/// A physical size divided by the scale `s`: `n * s.den / s.num`.
pub open spec fn logical_size_of(n: u32, s: Scale) -> Ratio {
    Ratio { num: (n * s.den) as i64, den: s.num as u32 }
}

/// Divides a physical size by a scale factor, exactly.
pub fn size_to_logical(n: u32, s: Scale) -> (r: Ratio)
    requires
        s.wf(),
    ensures
        r == logical_size_of(n, s),
        r.num == n * s.den,
        r.wf(),
{
    let d = s.den as i64;
    assert(0 <= (n as int) * (d as int) <= 0xffff_ffff * 65535) by (nonlinear_arith)
        requires
            0 <= n <= 0xffff_ffff,
            0 < d <= 65535,
    ;
    Ratio { num: (n as i64) * d, den: s.num as u32 }
}

/// The whole part of a non-negative fraction, zero for a negative one,
/// saturating at the largest `u32`.
pub open spec fn floor_u32_of(r: Ratio) -> u32 {
    if r.num <= 0 {
        0
    } else if (r.num as int) / (r.den as int) > 0xffff_ffff {
        0xffff_ffff
    } else {
        ((r.num as int) / (r.den as int)) as u32
    }
}

/// Rounds a fraction down to a `u32`, saturating at both ends.
pub fn floor_u32(r: Ratio) -> (q: u32)
    requires
        r.wf(),
    ensures
        q == floor_u32_of(r),
{
    if r.num <= 0 {
        0
    } else {
        let w = r.num / (r.den as i64);
        if w > 0xffff_ffff {
            0xffff_ffff
        } else {
            w as u32
        }
    }
}

} // verus!
