use vstd::prelude::*;

verus! {

/// A numeric scalar carried through the adapter: the bit pattern of an
/// IEEE-754 double-precision number.
///
/// The adapter moves solver numbers around without doing arithmetic on them:
/// bounds and coefficients travel from the problem description into the
/// model unchanged, and solved values travel back unchanged. Carrying each
/// number as its bit pattern keeps it exact. The one operation the adapter
/// ever needs is negation (a constraint's constant term moves to the bound
/// side as its negation), and negating an IEEE-754 number is exactly a flip
/// of its sign bit.
pub type Scalar = u64;

/// The sign bit of an IEEE-754 double-precision bit pattern.
pub const SIGN_BIT: u64 = 0x8000_0000_0000_0000;

/// What negating a scalar means: the sign bit flips, every other bit is kept.
pub open spec fn negated(s: Scalar) -> Scalar {
    s ^ SIGN_BIT
}

/// Negates a scalar by flipping the sign bit of its bit pattern.
pub fn negate(s: Scalar) -> (r: Scalar)
    ensures
        r == negated(s),
{
    s ^ SIGN_BIT
}

} // verus!
