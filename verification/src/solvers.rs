use vstd::prelude::*;

use crate::model::{Col, Column, HighsModelStatus, Model, Row, RowProblem, Sense, Solution,
    SolvedModel};
use crate::problem::{coefficient_in, Constraint, ObjectiveDirection, UnsolvedProblem, Variable};
use crate::scalar::{negate, negated, Scalar};

verus! {

/// How a failed resolution is reported: a small, solver-agnostic taxonomy.
/// Any failure is surfaced immediately and unchanged; the adapter never
/// retries and never recovers.
#[derive(Clone, Copy, Debug, PartialEq, Eq)]
pub enum ResolutionError {
    /// The objective can be improved without limit.
    Unbounded,
    /// No point satisfies all constraints.
    Infeasible,
    /// A solver-internal failure (setup, presolve, postsolve, empty model);
    /// carries the solver's own status label verbatim for diagnostics.
    Other(&'static str),
}

/// The sense a direction asks of the solver.
pub open spec fn sense_of(direction: ObjectiveDirection) -> Sense {
    match direction {
        ObjectiveDirection::Maximisation => Sense::Maximise,
        ObjectiveDirection::Minimisation => Sense::Minimise,
    }
}

/// The label of a status the adapter classifies as a solver-internal
/// failure, `None` for every other status.
pub open spec fn failure_label(status: HighsModelStatus) -> Option<Seq<char>> {
    match status {
        HighsModelStatus::NotSet => Some("NotSet"@),
        HighsModelStatus::LoadError => Some("LoadError"@),
        HighsModelStatus::ModelError => Some("ModelError"@),
        HighsModelStatus::PresolveError => Some("PresolveError"@),
        HighsModelStatus::SolveError => Some("SolveError"@),
        HighsModelStatus::PostsolveError => Some("PostsolveError"@),
        HighsModelStatus::ModelEmpty => Some("ModelEmpty"@),
        _ => None,
    }
}

/// Whether a status resolves to an error. Every status not classified here
/// counts as success, deliberately: status taxonomies grow, and a new
/// success-like status (say, a time limit reached with a feasible solution)
/// must not silently drop a valid solution.
pub open spec fn is_error_status(status: HighsModelStatus) -> bool {
    ||| status == HighsModelStatus::PrimalInfeasible
    ||| status == HighsModelStatus::PrimalUnbounded
    ||| failure_label(status) is Some
}

/// Every status is classified exactly one way: as infeasible, as unbounded,
/// as a labelled solver-internal failure, or — everything else — as success.
pub proof fn lemma_status_classification_total(status: HighsModelStatus)
    ensures
        status == HighsModelStatus::PrimalInfeasible ==> failure_label(status) is None,
        status == HighsModelStatus::PrimalUnbounded ==> failure_label(status) is None,
        !is_error_status(status) <==> (status != HighsModelStatus::PrimalInfeasible
            && status != HighsModelStatus::PrimalUnbounded && failure_label(status) is None),
{
}

/// Builds the solver model for an unsolved problem: one column per variable,
/// in input order, each carrying the objective's coefficient for its
/// variable (zero where the objective has none) and the variable's feasible
/// interval. The handle returned for the `i`-th variable is stored at index
/// `i` of the problem's table, so a variable's ordinal indexes the table
/// directly. There is no error path: malformed bounds are the solver's to
/// report, at resolution time.
pub fn highs(to_solve: UnsolvedProblem) -> (p: HighsProblem)
    ensures
        p.wf(),
        p.sense() == sense_of(to_solve.direction),
        p.rows().len() == 0,
        p.model_columns().len() == to_solve.variables@.len(),
        forall|i: int|
            0 <= i < to_solve.variables@.len() ==> #[trigger] p.model_columns()[i] == (Column {
                factor: coefficient_in(
                    to_solve.objective.coefficients@,
                    (Variable { index: i as usize }),
                ),
                min: to_solve.variables@[i].min,
                max: to_solve.variables@[i].max,
            }),
{
    let mut highs_problem = RowProblem::default();
    let mut model = Model::new();
    model.set_sense(
        match to_solve.direction {
            ObjectiveDirection::Maximisation => Sense::Maximise,
            ObjectiveDirection::Minimisation => Sense::Minimise,
        },
    );
    let n = to_solve.variables.len();
    let mut columns: Vec<Col> = Vec::new();
    let mut i: usize = 0;
    while i < n
        invariant
            n == to_solve.variables@.len(),
            0 <= i <= n,
            model.sense == sense_of(to_solve.direction),
            highs_problem.rows@.len() == 0,
            highs_problem.columns@.len() == i,
            columns@.len() == i,
            forall|j: int| 0 <= j < i ==> (#[trigger] columns@[j]).index == j,
            forall|j: int|
                0 <= j < i ==> #[trigger] highs_problem.columns@[j] == (Column {
                    factor: coefficient_in(
                        to_solve.objective.coefficients@,
                        (Variable { index: j as usize }),
                    ),
                    min: to_solve.variables@[j].min,
                    max: to_solve.variables@[j].max,
                }),
        decreases n - i,
    {
        let def = to_solve.variables[i];
        let var = Variable { index: i };
        let col_factor = to_solve.objective.coefficient_of(var);
        let col = highs_problem.add_column(col_factor, def.min, def.max);
        columns.push(col);
        i = i + 1;
    }
    HighsProblem { model, highs_problem, columns }
}

/// A solver-ready model built from an unsolved problem, together with the
/// index table that maps each variable ordinal to its column handle. The
/// table is built once, with the model, and read-only thereafter.
#[derive(Debug)]
pub struct HighsProblem {
    model: Model,
    highs_problem: RowProblem,
    columns: Vec<Col>,
}

impl HighsProblem {
    /// The optimisation sense the model is solved with.
    pub closed spec fn sense(&self) -> Sense {
        self.model.sense
    }

    /// The model's columns, in registration order.
    pub closed spec fn model_columns(&self) -> Seq<Column> {
        self.highs_problem.columns@
    }

    /// The rows accumulated so far, in the order they were added.
    pub closed spec fn rows(&self) -> Seq<Row> {
        self.highs_problem.rows@
    }

    /// The index table: the column handle stored for each variable ordinal.
    pub closed spec fn table(&self) -> Seq<Col> {
        self.columns@
    }

    /// Well-formed: one table entry per column, each handle naming its own
    /// position, so that a variable's ordinal indexes both directly.
    pub open spec fn wf(&self) -> bool {
        &&& self.table().len() == self.model_columns().len()
        &&& forall|i: int| 0 <= i < self.table().len() ==> (#[trigger] self.table()[i]).index == i
    }

    /// Encodes one constraint and appends it to the model as a row.
    ///
    /// The constant term moves to the bound side as its negation; each term
    /// of the expression's linear part becomes a `(handle, coefficient)`
    /// pair, with the handle resolved through the index table. An equality
    /// constraint gets the exact interval `[bound, bound]`; an inequality
    /// gets the half-line up to `bound`. Every variable the expression
    /// names must already stand in the table; the surrounding layer keeps
    /// that by construction.
    pub fn with(self, constraint: Constraint) -> (r: HighsProblem)
        requires
            forall|j: int|
                0 <= j < constraint.expression.coefficients@.len() ==> (
                #[trigger] constraint.expression.coefficients@[j]).0.index < self.table().len(),
        ensures
            r.sense() == self.sense(),
            r.table() == self.table(),
            r.model_columns() == self.model_columns(),
            r.rows().len() == self.rows().len() + 1,
            forall|i: int| 0 <= i < self.rows().len() ==> #[trigger] r.rows()[i] == self.rows()[i],
            (r.rows().last().lower == if constraint.is_equality {
                Some(negated(constraint.expression.constant))
            } else {
                Option::<Scalar>::None
            }),
            r.rows().last().upper == negated(constraint.expression.constant),
            (r.rows().last().factors@ == constraint.expression.coefficients@.map_values(
                |t: (Variable, Scalar)| (self.table()[t.0.index as int], t.1),
            )),
    {
        let upper_bound = negate(constraint.expression.constant());
        let k = constraint.expression.coefficients.len();
        let mut factors: Vec<(Col, Scalar)> = Vec::new();
        let mut i: usize = 0;
        while i < k
            invariant
                k == constraint.expression.coefficients@.len(),
                0 <= i <= k,
                forall|j: int|
                    0 <= j < k ==> (#[trigger] constraint.expression.coefficients@[j]).0.index
                        < self.columns@.len(),
                factors@.len() == i,
                forall|j: int|
                    0 <= j < i ==> #[trigger] factors@[j] == (
                        self.columns@[constraint.expression.coefficients@[j].0.index as int],
                        constraint.expression.coefficients@[j].1,
                    ),
            decreases k - i,
        {
            let (variable, factor) = constraint.expression.coefficients[i];
            let col = self.columns[variable.index()];
            factors.push((col, factor));
            i = i + 1;
        }
        proof {
            assert(factors@ =~= constraint.expression.coefficients@.map_values(
                |t: (Variable, Scalar)| (self.columns@[t.0.index as int], t.1),
            ));
        }
        let HighsProblem { model, mut highs_problem, columns } = self;
        if constraint.is_equality {
            highs_problem.add_row(Some(upper_bound), upper_bound, factors);
        } else {
            highs_problem.add_row(None, upper_bound, factors);
        }
        HighsProblem { model, highs_problem, columns }
    }

    /// A row encoded from a well-formed expression names each column at most
    /// once: the factor sequence that [`HighsProblem::with`] appends pairs
    /// each term with a distinct handle, because a well-formed table maps
    /// distinct ordinals to distinct positions.
    pub proof fn lemma_row_columns_distinct(self, constraint: Constraint)
        requires
            self.wf(),
            constraint.expression.wf(),
            forall|j: int|
                0 <= j < constraint.expression.coefficients@.len() ==> (
                #[trigger] constraint.expression.coefficients@[j]).0.index < self.table().len(),
        ensures
            ({
                let mapped = constraint.expression.coefficients@.map_values(
                    |t: (Variable, Scalar)| (self.table()[t.0.index as int], t.1),
                );
                forall|i: int, j: int|
                    0 <= i < j < mapped.len() ==> (#[trigger] mapped[i]).0 != (
                    #[trigger] mapped[j]).0
            }),
    {
        let terms = constraint.expression.coefficients@;
        let mapped = terms.map_values(
            |t: (Variable, Scalar)| (self.table()[t.0.index as int], t.1),
        );
        assert forall|i: int, j: int|
            0 <= i < j < mapped.len() implies (#[trigger] mapped[i]).0 != (
        #[trigger] mapped[j]).0 by {
            assert(terms[i].0 != terms[j].0);
            assert(terms[i].0.index != terms[j].0.index);
            assert(self.table()[terms[i].0.index as int].index == terms[i].0.index);
            assert(self.table()[terms[j].0.index as int].index == terms[j].0.index);
        }
    }

    /// The finished model: the accumulated columns and rows attached to the
    /// base model. This is the escape hatch to the raw model description,
    /// and what an external solver run takes as its input.
    pub fn into_inner(self) -> (m: Model)
        ensures
            m.sense == self.sense(),
            (m.problem matches Some(p) && p.columns@ == self.model_columns() && p.rows@
                == self.rows()),
    {
        let HighsProblem { mut model, highs_problem, columns: _columns } = self;
        model.set_problem(highs_problem);
        model
    }

    /// Classifies what a solver run on this model reported. Consuming the
    /// problem here keeps it from being reused after resolution.
    ///
    /// The numerical work happens outside the adapter; its terminal status
    /// is mapped exhaustively. A primal-infeasible or primal-unbounded
    /// status becomes the matching typed error; each enumerated internal
    /// failure becomes [`ResolutionError::Other`] carrying the status label
    /// verbatim; every other status counts as success, and the run's primal
    /// vector is wrapped as the solution.
    pub fn solve(self, solved: SolvedModel) -> (r: Result<HighsSolution, ResolutionError>)
        ensures
            (r is Ok) <==> !is_error_status(solved.status),
            (r matches Ok(sol) ==> sol@ == solved.solution@),
            (solved.status == HighsModelStatus::PrimalInfeasible ==> r == Err::<
                HighsSolution,
                ResolutionError,
            >(ResolutionError::Infeasible)),
            (solved.status == HighsModelStatus::PrimalUnbounded ==> r == Err::<
                HighsSolution,
                ResolutionError,
            >(ResolutionError::Unbounded)),
            (failure_label(solved.status) matches Some(label) ==> (r matches Err(e) && e matches
                ResolutionError::Other(name) && name@ == label)),
    {
        match solved.status() {
            HighsModelStatus::NotSet => Err(ResolutionError::Other("NotSet")),
            HighsModelStatus::LoadError => Err(ResolutionError::Other("LoadError")),
            HighsModelStatus::ModelError => Err(ResolutionError::Other("ModelError")),
            HighsModelStatus::PresolveError => Err(ResolutionError::Other("PresolveError")),
            HighsModelStatus::SolveError => Err(ResolutionError::Other("SolveError")),
            HighsModelStatus::PostsolveError => Err(ResolutionError::Other("PostsolveError")),
            HighsModelStatus::ModelEmpty => Err(ResolutionError::Other("ModelEmpty")),
            HighsModelStatus::PrimalInfeasible => Err(ResolutionError::Infeasible),
            HighsModelStatus::PrimalUnbounded => Err(ResolutionError::Unbounded),
            _ok_status => Ok(HighsSolution { solution: solved.get_solution() }),
        }
    }
}

/// The solution to a solved problem: wraps the raw primal vector, indexed by
/// the same ordinals as the problem's index table. The view is immutable;
/// lookups may be repeated any number of times.
#[derive(Debug)]
pub struct HighsSolution {
    solution: Solution,
}

impl View for HighsSolution {
    type V = Seq<Scalar>;

    closed spec fn view(&self) -> Seq<Scalar> {
        self.solution@
    }
}

impl HighsSolution {
    /// The raw solution object: the escape hatch for anything beyond primal
    /// value lookup.
    pub fn into_inner(self) -> (r: Solution)
        ensures
            r@ == self@,
    {
        self.solution
    }

    /// The solved value of a variable: the primal entry at its ordinal. The
    /// variable must come from the problem this solution was produced for;
    /// its ordinal then indexes the primal vector directly.
    pub fn value(&self, variable: Variable) -> (r: Scalar)
        requires
            variable.index < self@.len(),
        ensures
            r == self@[variable.index as int],
    {
        let columns = self.solution.columns();
        columns[variable.index()]
    }
}

/// Value lookup is idempotent: the result of [`HighsSolution::value`] is
/// fixed by the solution's view and the variable's ordinal alone, so any two
/// lookups of the same variable on the same solution agree.
pub proof fn lemma_value_idempotent(
    solution: HighsSolution,
    variable: Variable,
    first: Scalar,
    second: Scalar,
)
    requires
        variable.index < solution@.len(),
        first == solution@[variable.index as int],
        second == solution@[variable.index as int],
    ensures
        first == second,
{
}

} // verus!
