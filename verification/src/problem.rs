use vstd::prelude::*;

use crate::scalar::Scalar;

verus! {

/// Which way the objective drives the solve.
#[derive(Clone, Copy, Debug, PartialEq, Eq, Structural)]
pub enum ObjectiveDirection {
    /// Make the objective as large as possible.
    Maximisation,
    /// Make the objective as small as possible.
    Minimisation,
}

/// An abstract decision variable: an opaque identity with a stable,
/// zero-based ordinal. The ordinal ties the problem description, the model's
/// column table and the solved values together; within one problem it is
/// never recycled.
#[derive(Clone, Copy, Debug, PartialEq, Eq, Structural)]
pub struct Variable {
    /// The variable's ordinal: its position among the problem's variables.
    pub index: usize,
}

impl Variable {
    /// The variable's ordinal.
    pub fn index(&self) -> (r: usize)
        ensures
            r == self.index,
    {
        self.index
    }
}

/// The feasible interval of one variable. Callers keep `min <= max` (as
/// numbers); the adapter does not validate it, and a violation surfaces only
/// through whatever failure the solver itself reports.
#[derive(Clone, Copy, Debug, PartialEq, Eq, Structural)]
pub struct VariableDefinition {
    /// The lower bound of the feasible interval.
    pub min: Scalar,
    /// The upper bound of the feasible interval.
    pub max: Scalar,
}

/// The coefficient that `v` carries in `terms`: that of its first term for
/// `v`, or zero (the bit pattern of positive zero) where no term names it.
/// With at most one term per variable this is exactly the mapping the
/// expression's linear part stands for.
pub open spec fn coefficient_in(terms: Seq<(Variable, Scalar)>, v: Variable) -> Scalar
    decreases terms.len(),
{
    if terms.len() == 0 {
        0
    } else if terms[0].0 == v {
        terms[0].1
    } else {
        coefficient_in(terms.drop_first(), v)
    }
}

proof fn lemma_coefficient_in_skip(terms: Seq<(Variable, Scalar)>, v: Variable, i: int)
    requires
        0 <= i <= terms.len(),
        forall|j: int| 0 <= j < i ==> (#[trigger] terms[j]).0 != v,
    ensures
        coefficient_in(terms.skip(i), v) == coefficient_in(terms, v),
    decreases i,
{
    if i > 0 {
        assert(terms[0].0 != v);
        lemma_coefficient_in_skip(terms.drop_first(), v, i - 1);
        assert(terms.skip(i) =~= terms.drop_first().skip(i - 1));
    } else {
        assert(terms.skip(0) =~= terms);
    }
}

/// A linear combination of variables plus a constant term.
pub struct AffineExpression {
    /// The linear part, one `(variable, coefficient)` term per variable.
    pub coefficients: Vec<(Variable, Scalar)>,
    /// The constant term.
    pub constant: Scalar,
}

impl AffineExpression {
    /// Whether the linear part names each variable at most once.
    pub open spec fn wf(&self) -> bool {
        forall|i: int, j: int|
            0 <= i < j < self.coefficients@.len() ==> (#[trigger] self.coefficients@[i]).0 != (
            #[trigger] self.coefficients@[j]).0
    }

    /// The constant term.
    pub fn constant(&self) -> (r: Scalar)
        ensures
            r == self.constant,
    {
        self.constant
    }

    /// The coefficient of `v`, zero where the expression has no term for it.
    pub fn coefficient_of(&self, v: Variable) -> (r: Scalar)
        ensures
            r == coefficient_in(self.coefficients@, v),
    {
        let n = self.coefficients.len();
        let mut i: usize = 0;
        while i < n
            invariant
                n == self.coefficients@.len(),
                0 <= i <= n,
                forall|j: int| 0 <= j < i ==> (#[trigger] self.coefficients@[j]).0 != v,
            decreases n - i,
        {
            let (var, c) = self.coefficients[i];
            if var == v {
                proof {
                    lemma_coefficient_in_skip(self.coefficients@, v, i as int);
                    assert(self.coefficients@.skip(i as int)[0] == self.coefficients@[i as int]);
                }
                return c;
            }
            i = i + 1;
        }
        proof {
            lemma_coefficient_in_skip(self.coefficients@, v, n as int);
        }
        0
    }
}

/// One linear constraint over an affine expression: the constraint states
/// `expression <= 0` when `is_equality` is unset, and `expression == 0` when
/// it is set.
pub struct Constraint {
    /// The affine expression the constraint bounds.
    pub expression: AffineExpression,
    /// Whether the constraint is an equality rather than a half-line.
    pub is_equality: bool,
}

/// An unsolved problem: an objective direction, an ordered collection of
/// variable definitions, and a linear objective. The variable with ordinal
/// `i` is defined by entry `i` of `variables`.
pub struct UnsolvedProblem {
    /// Which way the objective drives the solve.
    pub direction: ObjectiveDirection,
    /// One definition per variable, in ordinal order.
    pub variables: Vec<VariableDefinition>,
    /// The objective; variables it does not name get a zero coefficient.
    pub objective: AffineExpression,
}

} // verus!
