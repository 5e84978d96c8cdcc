//! Deadzone-aware stick normalization, in exact fixed-point arithmetic.
//!
//! A raw stick vector has two signed 16-bit components.  Normalization maps
//! the region inside the deadzone radius to the origin and scales the region
//! outside it linearly, so that every output component lies in `[-1, +1]`.
//! Here one unit is represented by [`STICK_FIXED_ONE`], and the length of
//! the raw vector by the integer square root (floor) of its squared length,
//! so every step of the algorithm is exact integer arithmetic.

use vstd::prelude::*;
use vstd::arithmetic::div_mod::lemma_div_pos_is_pos;
use vstd::arithmetic::div_mod::lemma_fundamental_div_mod;
use vstd::arithmetic::div_mod::lemma_mod_division_less_than_divisor;
use vstd::arithmetic::div_mod::lemma_multiply_divide_le;
use vstd::math::abs;

verus! {

/// The fixed-point representation of 1.0: outputs lie in
/// `[-STICK_FIXED_ONE, +STICK_FIXED_ONE]`.
pub const STICK_FIXED_ONE: i32 = 65536;

/// The squared Euclidean length of a raw stick vector.
pub open spec fn len_sq(x: int, y: int) -> int {
    x * x + y * y
}

/// `r` is the integer square root (floor) of `n`.
pub open spec fn is_sqrt_floor(n: int, r: int) -> bool {
    &&& 0 <= r
    &&& r * r <= n
    &&& n < (r + 1) * (r + 1)
}

/// The integer square root (floor) of a nonnegative integer.
pub closed spec fn sqrt_floor(n: int) -> int {
    choose|r: int| is_sqrt_floor(n, r)
}

/// A deadzone clamped to `[0, 32766]` before use.
pub open spec fn clamped_deadzone(deadzone: int) -> int {
    if deadzone < 0 {
        0
    } else if deadzone > 32766 {
        32766
    } else {
        deadzone
    }
}

/// A raw vector counts as inside the deadzone when its Euclidean length is
/// at most the clamped deadzone — equivalently, for integers, when its
/// squared length is at most the squared clamped deadzone.
pub open spec fn stick_in_deadzone(x: int, y: int, deadzone: int) -> bool {
    len_sq(x, y) <= clamped_deadzone(deadzone) * clamped_deadzone(deadzone)
}

/// A length clipped to the expected maximum of 32767.
pub open spec fn clipped_length(len: int) -> int {
    if len > 32767 {
        32767
    } else {
        len
    }
}

/// One normalized component, in fixed-point units, of a vector of length
/// `len` that lies outside the clamped deadzone `dz`.  The magnitude is
/// `(|v| / len) * ((clipped len - dz) / (32767 - dz))`, associated so that
/// the division happens last and the result is exact integer arithmetic.
pub open spec fn scaled_component(v: int, len: int, dz: int) -> int {
    let mag = (abs(v) * (clipped_length(len) - dz) * 65536) / (len * (32767 - dz));
    if v < 0 {
        -mag
    } else {
        mag
    }
}

/// The normalized stick vector, in fixed-point units: the origin inside the
/// deadzone, and the linearly rescaled direction vector outside it.
pub open spec fn normalized_stick(x: int, y: int, deadzone: int) -> (int, int) {
    let dz = clamped_deadzone(deadzone);
    if len_sq(x, y) <= dz * dz {
        (0, 0)
    } else {
        let len = sqrt_floor(len_sq(x, y));
        (scaled_component(x, len, dz), scaled_component(y, len, dz))
    }
}

proof fn lemma_sqrt_floor_exists(n: int) -> (r: int)
    requires
        0 <= n,
    ensures
        is_sqrt_floor(n, r),
    decreases n,
{
    if n == 0 {
        assert(is_sqrt_floor(0, 0));
        0
    } else {
        let r0 = lemma_sqrt_floor_exists(n - 1);
        if (r0 + 1) * (r0 + 1) == n {
            assert(n < (r0 + 1 + 1) * (r0 + 1 + 1)) by (nonlinear_arith)
                requires
                    0 <= r0,
                    (r0 + 1) * (r0 + 1) == n,
            ;
            assert(is_sqrt_floor(n, r0 + 1));
            r0 + 1
        } else {
            assert(is_sqrt_floor(n, r0));
            r0
        }
    }
}

proof fn lemma_sqrt_floor_unique(n: int, a: int, b: int)
    requires
        is_sqrt_floor(n, a),
        is_sqrt_floor(n, b),
    ensures
        a == b,
{
    assert(a == b) by (nonlinear_arith)
        requires
            0 <= a,
            a * a <= n,
            n < (a + 1) * (a + 1),
            0 <= b,
            b * b <= n,
            n < (b + 1) * (b + 1),
    ;
}

/// `sqrt_floor` really is the integer square root of any nonnegative
/// integer.
pub proof fn lemma_sqrt_floor(n: int)
    requires
        0 <= n,
    ensures
        is_sqrt_floor(n, sqrt_floor(n)),
{
    let r = lemma_sqrt_floor_exists(n);
    assert(is_sqrt_floor(n, r));
}

/// Any nonnegative `a` whose square is at most `n` is at most
/// `sqrt_floor(n)`.
pub proof fn lemma_sqrt_floor_ge(n: int, a: int)
    requires
        0 <= a,
        a * a <= n,
    ensures
        a <= sqrt_floor(n),
{
    lemma_sqrt_floor(n);
    let r = sqrt_floor(n);
    assert(a <= r) by (nonlinear_arith)
        requires
            0 <= a,
            a * a <= n,
            0 <= r,
            n < (r + 1) * (r + 1),
    ;
}

/// The integer square root (floor) of a 32-bit value, by binary search.
pub fn isqrt32(n: u32) -> (r: u32)
    ensures
        r as int == sqrt_floor(n as int),
        is_sqrt_floor(n as int, r as int),
{
    let mut lo: u32 = 0;
    let mut hi: u32 = 65536;
    while hi - lo > 1
        invariant
            lo < hi <= 65536,
            (lo as int) * (lo as int) <= n as int,
            (n as int) < (hi as int) * (hi as int),
        decreases hi - lo,
    {
        let mid: u32 = lo + (hi - lo) / 2;
        assert(lo < mid < hi);
        assert((mid as int) * (mid as int) <= 65536 * 65536) by (nonlinear_arith)
            requires
                0 <= mid <= 65536,
        ;
        let m2: u64 = (mid as u64) * (mid as u64);
        if m2 <= n as u64 {
            lo = mid;
        } else {
            hi = mid;
        }
    }
    proof {
        assert(hi == lo + 1);
        assert(is_sqrt_floor(n as int, lo as int));
        lemma_sqrt_floor(n as int);
        lemma_sqrt_floor_unique(n as int, lo as int, sqrt_floor(n as int));
    }
    lo
}

/// Clamps a deadzone to the range 0 to 32,766 (inclusive).
pub fn clamp_deadzone(deadzone: i16) -> (dz: i16)
    ensures
        dz as int == clamped_deadzone(deadzone as int),
{
    if deadzone < 0 {
        0
    } else if deadzone > 32766 {
        32766
    } else {
        deadzone
    }
}

/// A component magnitude never exceeds one fixed-point unit: the component
/// is no longer than the whole vector, and the rescaled (clipped) length is
/// no longer than the full range.
proof fn lemma_scaled_component_bound(v: int, len: int, dz: int)
    requires
        0 <= dz <= 32766,
        1 <= len,
        dz <= len,
        abs(v) <= len,
    ensures
        -65536 <= scaled_component(v, len, dz) <= 65536,
        0 <= (abs(v) * (clipped_length(len) - dz) * 65536) / (len * (32767 - dz)) <= 65536,
{
    let a = abs(v) as int;
    let clip = clipped_length(len);
    let num = a * (clip - dz) * 65536;
    let den = len * (32767 - dz);
    assert(dz <= clip <= 32767 && clip <= len);
    assert(0 < den && 0 <= num && num <= den * 65536) by (nonlinear_arith)
        requires
            0 <= dz <= 32766,
            1 <= len,
            0 <= a <= len,
            dz <= clip <= 32767,
            num == a * (clip - dz) * 65536,
            den == len * (32767 - dz),
    ;
    lemma_multiply_divide_le(num, den, 65536);
    lemma_div_pos_is_pos(num, den);
}

/// Outside the deadzone, the floor length of the vector is positive, at
/// least the clamped deadzone, and at least each component's magnitude.
proof fn lemma_outside_deadzone_length(x: int, y: int, dz: int)
    requires
        0 <= dz,
        dz * dz < len_sq(x, y),
    ensures
        dz <= sqrt_floor(len_sq(x, y)),
        1 <= sqrt_floor(len_sq(x, y)),
        abs(x) <= sqrt_floor(len_sq(x, y)),
        abs(y) <= sqrt_floor(len_sq(x, y)),
{
    let n = len_sq(x, y);
    let ax = abs(x) as int;
    let ay = abs(y) as int;
    assert(0 <= n && ax * ax <= n && ay * ay <= n && 1 <= n) by (nonlinear_arith)
        requires
            n == x * x + y * y,
            0 <= dz,
            dz * dz < n,
            0 <= x ==> ax == x,
            x < 0 ==> ax == -x,
            0 <= y ==> ay == y,
            y < 0 ==> ay == -y,
    ;
    lemma_sqrt_floor_ge(n, dz);
    lemma_sqrt_floor_ge(n, 1);
    lemma_sqrt_floor_ge(n, ax);
    lemma_sqrt_floor_ge(n, ay);
}

/// Every normalized output component lies within one fixed-point unit of
/// magnitude, for every raw stick vector and every (pre-clamp) deadzone.
pub proof fn lemma_normalized_stick_bounded(x: int, y: int, deadzone: int)
    requires
        -32768 <= x <= 32767,
        -32768 <= y <= 32767,
    ensures
        -65536 <= normalized_stick(x, y, deadzone).0 <= 65536,
        -65536 <= normalized_stick(x, y, deadzone).1 <= 65536,
{
    let dz = clamped_deadzone(deadzone);
    if len_sq(x, y) <= dz * dz {
    } else {
        let len = sqrt_floor(len_sq(x, y));
        lemma_outside_deadzone_length(x, y, dz);
        lemma_scaled_component_bound(x, len, dz);
        lemma_scaled_component_bound(y, len, dz);
    }
}

/// Inside the deadzone — whenever the vector's Euclidean length is at most
/// the clamped deadzone — the normalized stick vector is exactly the origin.
pub proof fn lemma_normalized_stick_deadzone_zero(x: int, y: int, deadzone: int)
    requires
        stick_in_deadzone(x, y, deadzone),
    ensures
        normalized_stick(x, y, deadzone) == (0int, 0int),
{
}

proof fn lemma_boundary_component(v: int, len: int, dz: int)
    requires
        0 <= dz <= 32766,
        1 <= len,
        dz <= len,
        abs(v) <= len,
    ensures
        abs(scaled_component(v, len, dz)) * (32767 - dz) <= (clipped_length(len) - dz) * 65536,
{
    let a = abs(v) as int;
    let clip = clipped_length(len);
    let num = a * (clip - dz) * 65536;
    let den = len * (32767 - dz);
    let mag = num / den;
    lemma_scaled_component_bound(v, len, dz);
    assert(abs(scaled_component(v, len, dz)) == mag);
    assert(0 < den) by (nonlinear_arith)
        requires
            1 <= len,
            dz <= 32766,
            den == len * (32767 - dz),
    ;
    // The division's remainder is nonnegative, so den * mag <= num.
    lemma_fundamental_div_mod(num, den);
    lemma_mod_division_less_than_divisor(num, den);
    assert(den * mag <= num);
    assert(num <= len * ((clip - dz) * 65536)) by (nonlinear_arith)
        requires
            0 <= a <= len,
            0 <= clip - dz,
            num == a * (clip - dz) * 65536,
    ;
    assert(mag * (32767 - dz) <= (clip - dz) * 65536) by (nonlinear_arith)
        requires
            1 <= len,
            0 <= dz <= 32766,
            den == len * (32767 - dz),
            den * mag <= num,
            num <= len * ((clip - dz) * 65536),
    ;
}

/// Scale continuity at the deadzone boundary: each output component's
/// magnitude, multiplied by the constant scaling denominator, is bounded by
/// the distance of the (clipped) length from the deadzone, in fixed-point
/// units.  As the length approaches the deadzone from outside, that
/// distance — and with it the output — vanishes linearly.
pub proof fn lemma_normalized_stick_boundary(x: int, y: int, deadzone: int)
    requires
        -32768 <= x <= 32767,
        -32768 <= y <= 32767,
        !stick_in_deadzone(x, y, deadzone),
    ensures
        abs(normalized_stick(x, y, deadzone).0) * (32767 - clamped_deadzone(deadzone)) <= (
        clipped_length(sqrt_floor(len_sq(x, y))) - clamped_deadzone(deadzone)) * 65536,
        abs(normalized_stick(x, y, deadzone).1) * (32767 - clamped_deadzone(deadzone)) <= (
        clipped_length(sqrt_floor(len_sq(x, y))) - clamped_deadzone(deadzone)) * 65536,
{
    let dz = clamped_deadzone(deadzone);
    let len = sqrt_floor(len_sq(x, y));
    lemma_outside_deadzone_length(x, y, dz);
    lemma_boundary_component(x, len, dz);
    lemma_boundary_component(y, len, dz);
}

/// This helper normalizes a raw stick value using the given deadzone, in
/// fixed-point units of [`STICK_FIXED_ONE`].
///
/// If the raw value's 2d length is at most the (clamped) deadzone the
/// result is `(0, 0)`; otherwise the direction vector is rescaled linearly
/// across the range from the deadzone radius to the maximum length, so each
/// output component lies in `[-STICK_FIXED_ONE, +STICK_FIXED_ONE]`.
///
/// The `deadzone` value is clamped to the range 0 to 32,766 (inclusive)
/// before use.
pub fn normalize_raw_stick_value_fixed(raw_stick: (i16, i16), deadzone: i16) -> (out: (i32, i32))
    ensures
        (out.0 as int, out.1 as int) == normalized_stick(
            raw_stick.0 as int,
            raw_stick.1 as int,
            deadzone as int,
        ),
        -65536 <= out.0 <= 65536,
        -65536 <= out.1 <= 65536,
{
    let ghost gx: int = raw_stick.0 as int;
    let ghost gy: int = raw_stick.1 as int;
    let dz: i16 = clamp_deadzone(deadzone);
    let dzu: u32 = dz as u32;
    let ghost gdz: int = clamped_deadzone(deadzone as int);
    assert(dzu as int == gdz && 0 <= gdz <= 32766);
    let x32: i32 = raw_stick.0 as i32;
    let y32: i32 = raw_stick.1 as i32;
    let ax: u32 = if x32 < 0 {
        (-x32) as u32
    } else {
        x32 as u32
    };
    let ay: u32 = if y32 < 0 {
        (-y32) as u32
    } else {
        y32 as u32
    };
    assert(ax as int == abs(gx) && ay as int == abs(gy));
    assert((ax as int) * (ax as int) <= 0x4000_0000 && (ay as int) * (ay as int) <= 0x4000_0000 && (
    ax as int) * (ax as int) + (ay as int) * (ay as int) == gx * gx + gy * gy && (dzu as int) * (
    dzu as int) <= 0x4000_0000) by (nonlinear_arith)
        requires
            0 <= ax <= 32768,
            0 <= ay <= 32768,
            0 <= dzu <= 32766,
            0 <= gx ==> ax as int == gx,
            gx < 0 ==> ax as int == -gx,
            0 <= gy ==> ay as int == gy,
            gy < 0 ==> ay as int == -gy,
    ;
    let n: u32 = ax * ax + ay * ay;
    assert(n as int == len_sq(gx, gy));
    if n <= dzu * dzu {
        proof {
            lemma_normalized_stick_deadzone_zero(gx, gy, deadzone as int);
        }
        (0, 0)
    } else {
        let len: u32 = isqrt32(n);
        proof {
            lemma_outside_deadzone_length(gx, gy, gdz);
            assert(len as int == sqrt_floor(len_sq(gx, gy)));
            assert(1 <= len && gdz <= len as int);
            assert(len as int <= 65535) by (nonlinear_arith)
                requires
                    0 <= len,
                    (len as int) * (len as int) <= n as int,
                    (n as int) <= 0xFFFF_FFFF,
            ;
        }
        let clip: u32 = if len > 32767 {
            32767
        } else {
            len
        };
        assert(clip as int == clipped_length(len as int));
        assert(dzu <= clip && clip <= 32767);
        assert((ax as int) * ((clip - dzu) as int) <= 0x4000_0000 && (ay as int) * ((clip
            - dzu) as int) <= 0x4000_0000 && 1 <= (len as int) * ((32767 - dzu) as int)
            <= 0x8000_0000) by (nonlinear_arith)
            requires
                0 <= ax <= 32768,
                0 <= ay <= 32768,
                0 <= clip - dzu <= 32767,
                1 <= len <= 65535,
                1 <= 32767 - dzu <= 32767,
        ;
        let prod_x: u64 = (ax as u64) * ((clip - dzu) as u64);
        let prod_y: u64 = (ay as u64) * ((clip - dzu) as u64);
        let num_x: u64 = prod_x * 65536;
        let num_y: u64 = prod_y * 65536;
        let den: u64 = (len as u64) * ((32767 - dzu) as u64);
        let mag_x: u64 = num_x / den;
        let mag_y: u64 = num_y / den;
        proof {
            let glen = len as int;
            let gclip = clipped_length(glen);
            assert(num_x as int == abs(gx) * (gclip - gdz) * 65536);
            assert(num_y as int == abs(gy) * (gclip - gdz) * 65536);
            assert(den as int == glen * (32767 - gdz));
            lemma_scaled_component_bound(gx, glen, gdz);
            lemma_scaled_component_bound(gy, glen, gdz);
            assert(mag_x as int == abs(gx) * (gclip - gdz) * 65536 / (glen * (32767 - gdz)));
            assert(0 <= mag_x <= 65536 && 0 <= mag_y <= 65536);
        }
        let out_x: i32 = if x32 < 0 {
            -(mag_x as i32)
        } else {
            mag_x as i32
        };
        let out_y: i32 = if y32 < 0 {
            -(mag_y as i32)
        } else {
            mag_y as i32
        };
        assert(out_x as int == scaled_component(gx, len as int, gdz));
        assert(out_y as int == scaled_component(gy, len as int, gdz));
        (out_x, out_y)
    }
}

} // verus!

