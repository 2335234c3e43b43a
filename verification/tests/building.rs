use good_lp::model::{Col, Sense};
use good_lp::problem::{AffineExpression, Constraint, ObjectiveDirection, UnsolvedProblem,
    Variable, VariableDefinition};
use good_lp::scalar::negate;
use good_lp::solvers::highs;

fn bits(x: f64) -> u64 {
    x.to_bits()
}

fn def(min: f64, max: f64) -> VariableDefinition {
    VariableDefinition { min: bits(min), max: bits(max) }
}

fn var(index: usize) -> Variable {
    Variable { index }
}

#[test]
fn one_column_per_variable_in_input_order() {
    let objective = AffineExpression {
        coefficients: vec![(var(0), bits(1.0)), (var(2), bits(-3.0))],
        constant: bits(0.0),
    };
    let problem = UnsolvedProblem {
        direction: ObjectiveDirection::Maximisation,
        variables: vec![def(0.0, 10.0), def(-1.0, 1.0), def(2.5, 7.5)],
        objective,
    };
    let model = highs(problem).into_inner();
    assert_eq!(model.sense, Sense::Maximise);
    let attached = model.problem.expect("the finished model carries its columns and rows");
    assert_eq!(attached.columns.len(), 3);
    assert_eq!(attached.rows.len(), 0);
    let lows: Vec<f64> = attached.columns.iter().map(|c| f64::from_bits(c.min)).collect();
    let highs_: Vec<f64> = attached.columns.iter().map(|c| f64::from_bits(c.max)).collect();
    assert_eq!(lows, vec![0.0, -1.0, 2.5]);
    assert_eq!(highs_, vec![10.0, 1.0, 7.5]);
    let factors: Vec<f64> = attached.columns.iter().map(|c| f64::from_bits(c.factor)).collect();
    assert_eq!(factors, vec![1.0, 0.0, -3.0]);
}

#[test]
fn minimisation_sets_the_minimise_sense() {
    let problem = UnsolvedProblem {
        direction: ObjectiveDirection::Minimisation,
        variables: vec![def(0.0, 1.0)],
        objective: AffineExpression { coefficients: vec![], constant: bits(0.0) },
    };
    let model = highs(problem).into_inner();
    assert_eq!(model.sense, Sense::Minimise);
}

#[test]
fn objective_coefficient_defaults_to_zero() {
    let objective = AffineExpression { coefficients: vec![], constant: bits(0.0) };
    assert_eq!(objective.coefficient_of(var(0)), bits(0.0));
    let objective = AffineExpression {
        coefficients: vec![(var(1), bits(4.0))],
        constant: bits(0.0),
    };
    assert_eq!(objective.coefficient_of(var(0)), bits(0.0));
    assert_eq!(objective.coefficient_of(var(1)), bits(4.0));
}

#[test]
fn equality_row_gets_the_exact_interval() {
    // x - 5 == 0: coefficient 1 on x, constant -5, so the bound is [5, 5].
    let problem = UnsolvedProblem {
        direction: ObjectiveDirection::Maximisation,
        variables: vec![def(0.0, 100.0)],
        objective: AffineExpression { coefficients: vec![], constant: bits(0.0) },
    };
    let constraint = Constraint {
        expression: AffineExpression {
            coefficients: vec![(var(0), bits(1.0))],
            constant: bits(-5.0),
        },
        is_equality: true,
    };
    let model = highs(problem).with(constraint).into_inner();
    let attached = model.problem.expect("the finished model carries its columns and rows");
    assert_eq!(attached.rows.len(), 1);
    let row = &attached.rows[0];
    assert_eq!(row.lower.map(f64::from_bits), Some(5.0));
    assert_eq!(f64::from_bits(row.upper), 5.0);
    assert_eq!(row.factors.len(), 1);
    assert_eq!(row.factors[0].0, Col { index: 0 });
    assert_eq!(f64::from_bits(row.factors[0].1), 1.0);
}

#[test]
fn inequality_row_is_unbounded_below() {
    // x + y - 10 <= 0: the bound interval is (-inf, 10].
    let problem = UnsolvedProblem {
        direction: ObjectiveDirection::Maximisation,
        variables: vec![def(0.0, 100.0), def(0.0, 100.0)],
        objective: AffineExpression { coefficients: vec![], constant: bits(0.0) },
    };
    let constraint = Constraint {
        expression: AffineExpression {
            coefficients: vec![(var(0), bits(1.0)), (var(1), bits(1.0))],
            constant: bits(-10.0),
        },
        is_equality: false,
    };
    let model = highs(problem).with(constraint).into_inner();
    let attached = model.problem.expect("the finished model carries its columns and rows");
    assert_eq!(attached.rows.len(), 1);
    let row = &attached.rows[0];
    assert_eq!(row.lower, None);
    assert_eq!(f64::from_bits(row.upper), 10.0);
    assert_eq!(row.factors.len(), 2);
    assert_eq!(row.factors[0].0, Col { index: 0 });
    assert_eq!(row.factors[1].0, Col { index: 1 });
}

#[test]
fn rows_accumulate_in_order_and_resolve_handles_by_ordinal() {
    let problem = UnsolvedProblem {
        direction: ObjectiveDirection::Minimisation,
        variables: vec![def(0.0, 1.0), def(0.0, 1.0), def(0.0, 1.0)],
        objective: AffineExpression { coefficients: vec![], constant: bits(0.0) },
    };
    let first = Constraint {
        expression: AffineExpression {
            coefficients: vec![(var(2), bits(2.0))],
            constant: bits(-1.0),
        },
        is_equality: false,
    };
    let second = Constraint {
        expression: AffineExpression {
            coefficients: vec![(var(1), bits(3.0))],
            constant: bits(1.0),
        },
        is_equality: true,
    };
    let model = highs(problem).with(first).with(second).into_inner();
    let attached = model.problem.expect("the finished model carries its columns and rows");
    assert_eq!(attached.rows.len(), 2);
    assert_eq!(attached.rows[0].factors[0].0, Col { index: 2 });
    assert_eq!(attached.rows[0].lower, None);
    assert_eq!(f64::from_bits(attached.rows[0].upper), 1.0);
    assert_eq!(attached.rows[1].factors[0].0, Col { index: 1 });
    assert_eq!(attached.rows[1].lower.map(f64::from_bits), Some(-1.0));
    assert_eq!(f64::from_bits(attached.rows[1].upper), -1.0);
}

#[test]
fn empty_expression_encodes_an_empty_row() {
    let problem = UnsolvedProblem {
        direction: ObjectiveDirection::Minimisation,
        variables: vec![def(0.0, 1.0)],
        objective: AffineExpression { coefficients: vec![], constant: bits(0.0) },
    };
    let constraint = Constraint {
        expression: AffineExpression { coefficients: vec![], constant: bits(3.0) },
        is_equality: false,
    };
    let model = highs(problem).with(constraint).into_inner();
    let attached = model.problem.expect("the finished model carries its columns and rows");
    assert_eq!(attached.rows[0].factors.len(), 0);
    assert_eq!(f64::from_bits(attached.rows[0].upper), -3.0);
}

#[test]
fn negation_flips_the_sign_exactly() {
    assert_eq!(f64::from_bits(negate(bits(-5.0))), 5.0);
    assert_eq!(f64::from_bits(negate(bits(10.0))), -10.0);
    assert_eq!(f64::from_bits(negate(bits(0.25))), -0.25);
    assert_eq!(negate(negate(bits(1.5))), bits(1.5));
}
