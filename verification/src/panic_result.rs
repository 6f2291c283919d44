//! Two ways to treat a division that has no answer: demand that the caller
//! rules it out, or report it as an error.

use vstd::prelude::*;
use vstd::string::StringExecFns;

verus! {

/// The quotient of `a` by `b`, rounded towards zero.
pub open spec fn quotient(a: int, b: int) -> int {
    if a >= 0 {
        a / b
    } else {
        -((-a) / b)
    }
}

/// `a / b` is an `i32`: the one quotient of two `i32` that is not is
/// `i32::MIN / -1`.
pub open spec fn quotient_fits(a: int, b: int) -> bool {
    !(a == i32::MIN && b == -1)
}

/// Dividing a number that is not negative never gives more than the number
/// itself, and at most half of it once the divisor is not `1` or `-1`.
proof fn lemma_quotient_magnitude(a: int, b: int)
    requires
        a >= 0,
        b != 0,
    ensures
        -a <= a / b <= a,
        b == 1 ==> a / b == a,
        b == -1 ==> a / b == -a,
        b >= 2 || b <= -2 ==> -a <= 2 * (a / b) <= a,
{
    assert(-a <= a / b <= a && (b == 1 ==> a / b == a) && (b == -1 ==> a / b == -a) && (b >= 2 || b
        <= -2 ==> -a <= 2 * (a / b) <= a)) by (nonlinear_arith)
        requires
            a >= 0,
            b != 0,
    {
        let q = a / b;
        let r = a % b;
        assert(a == b * q + r);
        if b > 0 {
            assert(0 <= r < b);
        } else {
            assert(0 <= r < -b);
        }
    }
}

/// The quotient of two `i32` is an `i32`, but for `i32::MIN / -1`.
pub proof fn lemma_quotient_is_i32(a: i32, b: i32)
    requires
        b != 0,
        quotient_fits(a as int, b as int),
    ensures
        i32::MIN <= quotient(a as int, b as int) <= i32::MAX,
{
    if a >= 0 {
        lemma_quotient_magnitude(a as int, b as int);
    } else {
        lemma_quotient_magnitude(-(a as int), b as int);
    }
}

/// Divides, rounding towards zero.  The divisor must not be zero.
pub fn divide(a: i32, b: i32) -> (q: i32)
    requires
        b != 0,
        quotient_fits(a as int, b as int),
    ensures
        q == quotient(a as int, b as int),
{
    proof {
        lemma_quotient_is_i32(a, b);
    }
    a / b
}

/// Divides, rounding towards zero, and reports a zero divisor as an error.
pub fn safe_divide(a: i32, b: i32) -> (r: Result<i32, String>)
    requires
        quotient_fits(a as int, b as int),
    ensures
        b == 0 <==> r is Err,
        r matches Ok(q) ==> q == quotient(a as int, b as int),
        r matches Err(msg) ==> msg@ == "division by zero"@,
{
    if b == 0 {
        Err(String::from_str("division by zero"))
    } else {
        proof {
            lemma_quotient_is_i32(a, b);
        }
        Ok(a / b)
    }
}

} // verus!
