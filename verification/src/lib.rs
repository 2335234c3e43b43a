pub mod model;
pub mod problem;
pub mod scalar;
pub mod solvers;
