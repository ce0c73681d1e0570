use vstd::prelude::*;

verus! {

/// Bit mask of the exponent field of a single-precision number.
pub const EXPONENT_MASK: u32 = 0x7F80_0000;

/// Bit mask of everything but the sign of a single-precision number.
pub const MAGNITUDE_MASK: u32 = 0x7FFF_FFFF;

/// A single-precision number is finite when its exponent field is not all ones.
pub open spec fn finite_bits(b: u32) -> bool {
    b & 0x7F80_0000u32 != 0x7F80_0000u32
}

/// A single-precision number compares equal to zero when at most its sign bit is set.
pub open spec fn zero_bits(b: u32) -> bool {
    b & 0x7FFF_FFFFu32 == 0
}

pub fn is_finite_bits(b: u32) -> (r: bool)
    ensures
        r == finite_bits(b),
{
    b & EXPONENT_MASK != EXPONENT_MASK
}

pub fn is_zero_bits(b: u32) -> (r: bool)
    ensures
        r == zero_bits(b),
{
    b & MAGNITUDE_MASK == 0
}

/// A point in world space. Each component is the bit pattern of a
/// single-precision number, as it lies in the inspected memory.
#[derive(Clone, Copy, Debug, PartialEq, Eq, Structural)]
pub struct Vec3 {
    pub x: u32,
    pub y: u32,
    pub z: u32,
}

impl Vec3 {
    /// All three components compare equal to zero.
    pub open spec fn zero(self) -> bool {
        zero_bits(self.x) && zero_bits(self.y) && zero_bits(self.z)
    }

    /// All three components are finite.
    pub open spec fn finite(self) -> bool {
        finite_bits(self.x) && finite_bits(self.y) && finite_bits(self.z)
    }

    /// Fit to be reported as a position: finite and not the zero vector.
    pub open spec fn usable(self) -> bool {
        self.finite() && !self.zero()
    }

    pub fn origin() -> (v: Vec3)
        ensures
            v == (Vec3 { x: 0, y: 0, z: 0 }),
            v.zero(),
            v.finite(),
    {
        assert(zero_bits(0u32)) by (bit_vector);
        assert(finite_bits(0u32)) by (bit_vector);
        Vec3 { x: 0, y: 0, z: 0 }
    }

    pub fn is_zero(self) -> (r: bool)
        ensures
            r == self.zero(),
    {
        is_zero_bits(self.x) && is_zero_bits(self.y) && is_zero_bits(self.z)
    }

    pub fn is_finite(self) -> (r: bool)
        ensures
            r == self.finite(),
    {
        is_finite_bits(self.x) && is_finite_bits(self.y) && is_finite_bits(self.z)
    }

    pub fn is_usable(self) -> (r: bool)
        ensures
            r == self.usable(),
    {
        self.is_finite() && !self.is_zero()
    }
}

/// The first of three candidate positions that is usable, in the order given.
pub open spec fn first_usable(primary: Vec3, history: Vec3, state: Vec3) -> Option<Vec3> {
    if primary.usable() {
        Some(primary)
    } else if history.usable() {
        Some(history)
    } else if state.usable() {
        Some(state)
    } else {
        None
    }
}

/// Whatever is chosen among the candidates is usable.
pub proof fn first_usable_is_usable(primary: Vec3, history: Vec3, state: Vec3)
    ensures
        first_usable(primary, history, state) matches Some(v) ==> v.usable(),
{
}

/// The order of preference among the three sources of a position: the
/// primary source where it is usable; else the history source where that is
/// usable; else the state source where that is; else nothing.
pub proof fn fallback_order(primary: Vec3, history: Vec3, state: Vec3)
    ensures
        primary.usable() ==> first_usable(primary, history, state) == Some(primary),
        !primary.usable() && history.usable() ==> first_usable(primary, history, state) == Some(
            history,
        ),
        !primary.usable() && !history.usable() && state.usable() ==> first_usable(
            primary,
            history,
            state,
        ) == Some(state),
        !primary.usable() && !history.usable() && !state.usable() ==> first_usable(
            primary,
            history,
            state,
        ) is None,
{
}

/// Two to the power `n`.
pub open spec fn two_to(n: nat) -> nat
    decreases n,
{
    if n == 0 {
        1
    } else {
        2 * two_to((n - 1) as nat)
    }
}

/// `n / p` rounded to the nearest whole number, a tie going to the even one.
pub open spec fn half_even(n: int, p: int) -> int {
    if 2 * (n % p) > p || (2 * (n % p) == p && (n / p) % 2 == 1) {
        n / p + 1
    } else {
        n / p
    }
}

/// The number four in units of the last place of a single-precision number
/// whose exponent field is `exp`, for the fields from 129 to 133: the
/// numbers from 4 up to 128.
pub open spec fn four_units(exp: int) -> int {
    if exp == 129 {
        0x80_0000
    } else if exp == 130 {
        0x40_0000
    } else if exp == 131 {
        0x20_0000
    } else if exp == 132 {
        0x10_0000
    } else {
        0x8_0000
    }
}

/// The exponent of a positive single-precision number, a subnormal one
/// counting with the lowest exponent.
pub open spec fn exponent_of(b: u32) -> int {
    if b / 0x80_0000 == 0 {
        1
    } else {
        (b / 0x80_0000) as int
    }
}

/// The significand of a positive single-precision number, in units of its last place.
pub open spec fn significand_of(b: u32) -> int {
    if b / 0x80_0000 == 0 {
        (b % 0x80_0000) as int
    } else {
        0x80_0000 + b % 0x80_0000
    }
}

/// The bit pattern of `x + 4`, rounded to nearest with ties to even, for the
/// bit pattern `b` of a single-precision number `x` with `0 < x < 90`.
///
/// At 4 and above the four is brought to the units of `x` and added, and
/// the sum loses its last bit where it outgrows the significand. Below 4
/// it is `x` that is brought to the units of 4, which rounds it.
pub open spec fn plus_four(b: u32) -> u32 {
    let exp = exponent_of(b);
    let sig = significand_of(b);
    if exp >= 129 {
        let sum = sig + four_units(exp);
        if sum < 0x100_0000 {
            (exp * 0x80_0000 + sum - 0x80_0000) as u32
        } else {
            ((exp + 1) * 0x80_0000 + half_even(sum, 2) - 0x80_0000) as u32
        }
    } else {
        (129 * 0x80_0000 + half_even(sig, two_to((129 - exp) as nat) as int)) as u32
    }
}

/// The positive number that a bit pattern stands for, in units of 2^-149,
/// the last place of the smallest numbers.
pub open spec fn scaled(b: u32) -> int {
    significand_of(b) * two_to((exponent_of(b) - 1) as nat)
}

/// The last place of a positive number, in the same units.
pub open spec fn unit_of(b: u32) -> int {
    two_to((exponent_of(b) - 1) as nat) as int
}

/// Powers of two multiply as their exponents add.
pub proof fn two_to_adds(a: nat, b: nat)
    ensures
        two_to(a + b) == two_to(a) * two_to(b),
    decreases b,
{
    if b == 0 {
        assert(two_to(a) * 1 == two_to(a)) by (nonlinear_arith);
    } else {
        two_to_adds(a, (b - 1) as nat);
        assert(two_to(a) * (2 * two_to((b - 1) as nat)) == 2 * (two_to(a) * two_to((b - 1) as nat)))
            by (nonlinear_arith);
    }
}

/// Rounding to the nearest whole number misses by half at most, and by
/// exactly half only towards an even number.
pub proof fn half_even_is_nearest(n: int, p: int)
    requires
        0 <= n,
        0 < p,
    ensures
        0 <= half_even(n, p),
        2 * (half_even(n, p) * p - n) <= p,
        2 * (n - half_even(n, p) * p) <= p,
        (2 * (half_even(n, p) * p - n) == p || 2 * (n - half_even(n, p) * p) == p) ==> half_even(
            n,
            p,
        ) % 2 == 0,
{
    let q = n / p;
    let r = n % p;
    assert(n == q * p + r && 0 <= r < p && 0 <= q) by (nonlinear_arith)
        requires
            q == n / p,
            r == n % p,
            0 <= n,
            0 < p,
    ;
    assert((q + 1) * p == q * p + p) by (nonlinear_arith);
    let h = half_even(n, p);
    if 2 * r > p || (2 * r == p && q % 2 == 1) {
        assert(h == q + 1);
        assert(h * p - n == p - r);
    } else {
        assert(h == q);
        assert(h * p - n == -r);
    }
}

/// The sum that `plus_four` gives is the single-precision number nearest
/// to `x + 4`: it misses the exact sum by no more than half its own last
/// place, and by exactly half only where its significand is even.
pub proof fn plus_four_is_nearest(b: u32)
    requires
        0 < b < 0x42B4_0000,
    ensures
        2 * (scaled(plus_four(b)) - (scaled(b) + scaled(0x4080_0000))) <= unit_of(plus_four(b)),
        2 * ((scaled(b) + scaled(0x4080_0000)) - scaled(plus_four(b))) <= unit_of(plus_four(b)),
        2 * (scaled(plus_four(b)) - (scaled(b) + scaled(0x4080_0000))) == unit_of(plus_four(b))
            || 2 * ((scaled(b) + scaled(0x4080_0000)) - scaled(plus_four(b))) == unit_of(
            plus_four(b),
        ) ==> significand_of(plus_four(b)) % 2 == 0,
{
    let exp = exponent_of(b);
    let sig = significand_of(b);
    let r = plus_four(b);
    let t = two_to((exp - 1) as nat) as int;
    let u = two_to(128) as int;
    let four = scaled(0x4080_0000);
    assert(exponent_of(0x4080_0000) == 129 && significand_of(0x4080_0000) == 0x80_0000);
    assert(four == 0x80_0000 * u);
    assert(1 <= exp <= 133);
    assert(0 <= sig < 0x100_0000);
    two_to_grows(0, (exp - 1) as nat);
    two_to_grows(0, 128);
    if exp >= 129 {
        let k = (exp - 129) as nat;
        two_to_adds(128, k);
        assert(two_to(k) * four_units(exp) == 0x80_0000) by {
            reveal_with_fuel(two_to, 6);
        }
        assert(t == u * two_to(k));
        assert(four_units(exp) * t == four) by (nonlinear_arith)
            requires
                t == u * two_to(k),
                two_to(k) * four_units(exp) == 0x80_0000,
                four == 0x80_0000 * u,
        ;
        let sum = sig + four_units(exp);
        assert(0x80_0000 <= sig);
        assert(sum * t == sig * t + four_units(exp) * t) by (nonlinear_arith)
            requires
                sum == sig + four_units(exp),
        ;
        if sum < 0x100_0000 {
            assert(r == exp * 0x80_0000 + sum - 0x80_0000);
            assert(exponent_of(r) == exp && significand_of(r) == sum);
            assert(scaled(r) == sum * t);
            assert(scaled(b) == sig * t);
            assert(scaled(r) - (scaled(b) + four) == 0);
        } else {
            let q = half_even(sum, 2);
            half_even_is_nearest(sum, 2);
            assert(0x80_0000 <= q < 0x100_0000);
            assert(r == (exp + 1) * 0x80_0000 + q - 0x80_0000);
            assert(exponent_of(r) == exp + 1 && significand_of(r) == q);
            assert(two_to(exp as nat) == 2 * t);
            assert(unit_of(r) == 2 * t);
            assert(scaled(r) == q * (2 * t));
            assert(scaled(r) - sum * t == (q * 2 - sum) * t) by (nonlinear_arith)
                requires
                    scaled(r) == q * (2 * t),
            ;
            assert(2 * ((q * 2 - sum) * t) <= 2 * t && 2 * ((sum - q * 2) * t) <= 2 * t
                && ((2 * ((q * 2 - sum) * t) == 2 * t || 2 * ((sum - q * 2) * t) == 2 * t) ==> (q
                * 2 - sum == 1 || sum - q * 2 == 1))) by (nonlinear_arith)
                requires
                    0 < t,
                    2 * (q * 2 - sum) <= 2,
                    2 * (sum - q * 2) <= 2,
            ;
            assert((sum - q * 2) * t == -((q * 2 - sum) * t)) by (nonlinear_arith);
            assert(scaled(b) == sig * t);
            assert(scaled(r) - (scaled(b) + four) == (q * 2 - sum) * t);
        }
    } else {
        let d = (129 - exp) as nat;
        let p = two_to(d) as int;
        two_to_adds((exp - 1) as nat, d);
        two_to_grows(0, d);
        two_to_grows(1, d);
        assert(two_to(1) == 2) by {
            reveal_with_fuel(two_to, 2);
        }
        assert(u == t * p);
        let q = half_even(sig, p);
        half_even_is_nearest(sig, p);
        assert(q <= 0x80_0000) by (nonlinear_arith)
            requires
                2 * (q * p - sig) <= p,
                sig < 0x100_0000,
                2 <= p,
                0 <= q,
        ;
        assert(r == 129 * 0x80_0000 + q);
        assert(scaled(r) == (0x80_0000 + q) * u) by {
            if q < 0x80_0000 {
                assert(exponent_of(r) == 129 && significand_of(r) == 0x80_0000 + q);
            } else {
                assert(exponent_of(r) == 130 && significand_of(r) == 0x80_0000);
                assert(two_to(129) == 2 * u);
                assert(0x80_0000 * (2 * u) == (0x80_0000 + 0x80_0000) * u) by (nonlinear_arith);
            }
        }
        assert(u <= unit_of(r)) by {
            if q < 0x80_0000 {
                assert(exponent_of(r) == 129);
            } else {
                assert(exponent_of(r) == 130);
                assert(two_to(129) == 2 * u);
            }
        }
        assert(scaled(r) - (sig * t + four) == (q * p - sig) * t) by (nonlinear_arith)
            requires
                scaled(r) == (0x80_0000 + q) * u,
                four == 0x80_0000 * u,
                u == t * p,
        ;
        assert(2 * ((q * p - sig) * t) <= u && 2 * ((sig - q * p) * t) <= u && ((2 * ((q * p
            - sig) * t) == u || 2 * ((sig - q * p) * t) == u) ==> (2 * (q * p - sig) == p || 2 * (
        sig - q * p) == p))) by (nonlinear_arith)
            requires
                0 < t,
                u == t * p,
                2 * (q * p - sig) <= p,
                2 * (sig - q * p) <= p,
        ;
        if q == 0x80_0000 {
            assert(significand_of(r) % 2 == 0);
        }
        assert((sig - q * p) * t == -((q * p - sig) * t)) by (nonlinear_arith);
        assert(scaled(b) == sig * t);
        assert(scaled(r) - (scaled(b) + four) == (q * p - sig) * t);
    }
}

/// Powers of two grow with the exponent.
pub proof fn two_to_grows(a: nat, b: nat)
    requires
        a <= b,
    ensures
        0 < two_to(a) <= two_to(b),
    decreases b,
{
    if a < b {
        two_to_grows(a, (b - 1) as nat);
    } else if a > 0 {
        two_to_grows((a - 1) as nat, (a - 1) as nat);
    }
}

/// Two to the power 25.
pub proof fn two_to_25()
    ensures
        two_to(25) == 0x200_0000,
{
    reveal_with_fuel(two_to, 26);
}

fn pow2(n: u64) -> (p: u64)
    requires
        n <= 25,
    ensures
        p == two_to(n as nat),
        0 < p <= 0x200_0000,
{
    let mut p: u64 = 1;
    let mut i: u64 = 0;
    proof {
        two_to_25();
    }
    while i < n
        invariant
            i <= n <= 25,
            p == two_to(i as nat),
            0 < p <= two_to(25),
            two_to(25) == 0x200_0000,
        decreases n - i,
    {
        proof {
            two_to_grows((i + 1) as nat, 25);
        }
        p = p * 2;
        i += 1;
    }
    proof {
        two_to_25();
        two_to_grows(n as nat, 25);
    }
    p
}

fn round_half_even(n: u64, p: u64) -> (q: u64)
    requires
        0 < p <= 0x200_0000,
        n < 0x200_0000,
    ensures
        q == half_even(n as int, p as int),
        q <= n,
{
    let whole = n / p;
    let rest = n % p;
    if 2 * rest > p || (2 * rest == p && whole % 2 == 1) {
        assert(n == whole * p + rest) by (nonlinear_arith)
            requires
                whole == n / p,
                rest == n % p,
                0 < p,
        ;
        assert(whole + 1 <= n) by (nonlinear_arith)
            requires
                0 < p,
                0 <= whole,
                2 * rest >= p,
                rest < p,
                n == whole * p + rest,
        ;
        whole + 1
    } else {
        whole
    }
}

/// Adds the number four to a positive single-precision number below 90,
/// on bit patterns.
pub fn add_margin(b: u32) -> (r: u32)
    requires
        0 < b < 0x42B4_0000,
    ensures
        r == plus_four(b),
        0x4080_0000 <= r <= 0x42BC_0000,
{
    let field: u64 = (b / 0x80_0000) as u64;
    let low: u64 = (b % 0x80_0000) as u64;
    let exp: u64 = if field == 0 {
        1
    } else {
        field
    };
    let sig: u64 = if field == 0 {
        low
    } else {
        0x80_0000 + low
    };
    if exp >= 129 {
        let four: u64 = if exp == 129 {
            0x80_0000
        } else if exp == 130 {
            0x40_0000
        } else if exp == 131 {
            0x20_0000
        } else if exp == 132 {
            0x10_0000
        } else {
            0x8_0000
        };
        let sum = sig + four;
        if sum < 0x100_0000 {
            (exp * 0x80_0000 + sum - 0x80_0000) as u32
        } else {
            let q = round_half_even(sum, 2);
            ((exp + 1) * 0x80_0000 + q - 0x80_0000) as u32
        }
    } else {
        let d = 129 - exp;
        let q = if d >= 25 {
            proof {
                two_to_25();
                two_to_grows(25, d as nat);
                let p = two_to(d as nat) as int;
                let n = sig as int;
                assert(n < p);
                assert(n / p == 0 && n % p == n) by (nonlinear_arith)
                    requires
                        0 <= n < p,
                ;
            }
            0
        } else {
            round_half_even(sig, pow2(d))
        };
        (129 * 0x80_0000 + q) as u32
    }
}

} // verus!
