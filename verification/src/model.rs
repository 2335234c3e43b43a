use vstd::prelude::*;

use crate::scalar::Scalar;

verus! {

/// The optimisation sense a model is solved with.
#[derive(Clone, Copy, Debug, PartialEq, Eq, Structural)]
pub enum Sense {
    /// Make the objective as small as possible.
    Minimise,
    /// Make the objective as large as possible.
    Maximise,
}

/// A column handle: a non-owning reference to one registered column, by its
/// position in the model. Handles are handed out at registration and stay
/// valid for the model they came from.
#[derive(Clone, Copy, Debug, PartialEq, Eq, Structural)]
pub struct Col {
    /// The position of the column in the model.
    pub index: usize,
}

/// One column of the model: one decision variable, carrying its objective
/// factor and its feasible interval.
#[derive(Clone, Copy, Debug, PartialEq, Eq, Structural)]
pub struct Column {
    /// The coefficient the column carries in the objective.
    pub factor: Scalar,
    /// The lower bound of the column's feasible interval.
    pub min: Scalar,
    /// The upper bound of the column's feasible interval.
    pub max: Scalar,
}

/// One row of the model: a sparse weighted sum of columns, kept inside an
/// interval bound. `lower` is `None` where the row is unbounded below.
#[derive(Debug)]
pub struct Row {
    /// The lower end of the bound interval, `None` for unbounded below.
    pub lower: Option<Scalar>,
    /// The upper end of the bound interval.
    pub upper: Scalar,
    /// The row's `(column, weight)` pairs; the solver treats them as an
    /// unordered sparse set, each column at most once.
    pub factors: Vec<(Col, Scalar)>,
}

/// A model under construction, held row-wise: registered columns plus
/// accumulated rows.
#[derive(Debug)]
pub struct RowProblem {
    /// The registered columns, in registration order.
    pub columns: Vec<Column>,
    /// The accumulated rows, in the order they were added.
    pub rows: Vec<Row>,
}

impl Default for RowProblem {
    /// An empty problem: no columns registered, no rows added.
    fn default() -> (r: Self)
        ensures
            r.columns@.len() == 0,
            r.rows@.len() == 0,
    {
        RowProblem { columns: Vec::new(), rows: Vec::new() }
    }
}

impl RowProblem {
    /// Registers one column and returns its handle: the position at which
    /// the column now stands.
    pub fn add_column(&mut self, factor: Scalar, min: Scalar, max: Scalar) -> (c: Col)
        ensures
            final(self).columns@ == old(self).columns@.push((Column { factor, min, max })),
            final(self).rows@ == old(self).rows@,
            c.index == old(self).columns@.len(),
    {
        let index = self.columns.len();
        self.columns.push(Column { factor, min, max });
        Col { index }
    }

    /// Appends one row bounding the weighted sum of `factors` to the
    /// interval from `lower` (unbounded below when `None`) up to `upper`.
    pub fn add_row(&mut self, lower: Option<Scalar>, upper: Scalar, factors: Vec<(Col, Scalar)>)
        ensures
            final(self).columns@ == old(self).columns@,
            final(self).rows@ == old(self).rows@.push((Row { lower, upper, factors })),
    {
        self.rows.push(Row { lower, upper, factors });
    }
}

/// The base model: the optimisation sense, and the row problem once it has
/// been attached.
#[derive(Debug)]
pub struct Model {
    /// The optimisation sense.
    pub sense: Sense,
    /// The attached columns and rows, `None` until attachment.
    pub problem: Option<RowProblem>,
}

impl Model {
    /// A fresh model: minimisation (the default sense), nothing attached.
    pub fn new() -> (m: Model)
        ensures
            m.sense == Sense::Minimise,
            m.problem is None,
    {
        Model { sense: Sense::Minimise, problem: None }
    }

    /// Sets the optimisation sense.
    pub fn set_sense(&mut self, sense: Sense)
        ensures
            final(self).sense == sense,
            final(self).problem == old(self).problem,
    {
        self.sense = sense;
    }

    /// Attaches the accumulated columns and rows to the model.
    pub fn set_problem(&mut self, problem: RowProblem)
        ensures
            final(self).sense == old(self).sense,
            final(self).problem == Some(problem),
    {
        self.problem = Some(problem);
    }
}

/// The terminal status a solver run reports, as a closed tagged variant
/// matched exhaustively by the adapter.
#[derive(Clone, Copy, Debug, PartialEq, Eq, Structural)]
pub enum HighsModelStatus {
    /// No status has been set.
    NotSet,
    /// The model could not be loaded.
    LoadError,
    /// The model is malformed.
    ModelError,
    /// Presolve failed.
    PresolveError,
    /// The solve itself failed.
    SolveError,
    /// Postsolve failed.
    PostsolveError,
    /// The model is empty.
    ModelEmpty,
    /// No point satisfies all constraints.
    PrimalInfeasible,
    /// The objective can be improved without limit.
    PrimalUnbounded,
    /// An optimal solution was found.
    Optimal,
    /// The dual objective reached its upper bound.
    ReachedDualObjectiveValueUpperBound,
    /// The time limit was reached.
    ReachedTimeLimit,
    /// The iteration limit was reached.
    ReachedIterationLimit,
}

/// The raw primal solution a solver run reports: one value per column, by
/// column position.
#[derive(Debug)]
pub struct Solution {
    columns: Vec<Scalar>,
}

impl View for Solution {
    type V = Seq<Scalar>;

    closed spec fn view(&self) -> Seq<Scalar> {
        self.columns@
    }
}

impl Solution {
    /// Wraps a primal vector, one value per column.
    pub fn new(columns: Vec<Scalar>) -> (s: Solution)
        ensures
            s@ == columns@,
    {
        Solution { columns }
    }

    /// The primal values, one per column.
    pub fn columns(&self) -> (r: &Vec<Scalar>)
        ensures
            r@ == self@,
    {
        &self.columns
    }
}

/// What one solver run reports back: the terminal status and the primal
/// solution that came with it.
#[derive(Debug)]
pub struct SolvedModel {
    /// The run's terminal status.
    pub status: HighsModelStatus,
    /// The primal solution the run produced.
    pub solution: Solution,
}

impl SolvedModel {
    /// The run's terminal status.
    pub fn status(&self) -> (r: HighsModelStatus)
        ensures
            r == self.status,
    {
        self.status
    }

    /// The primal solution the run produced.
    pub fn get_solution(self) -> (r: Solution)
        ensures
            r@ == self.solution@,
    {
        self.solution
    }
}

} // verus!
