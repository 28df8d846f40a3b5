//! A relationship-based access-control evaluator together with the decision
//! logic of the operator that deploys an authorization service.
//!
//! The access-control core is a pure, in-memory decision function over a graph
//! of typed objects linked by named relations. Every executable function
//! carries a contract over the mathematical model of the data it handles.

pub mod text;
pub mod reference;
pub mod graph;
pub mod tuples;
pub mod rules;
pub mod evaluator;
pub mod decision;
pub mod query;
pub mod laws;
pub mod monotonicity;
pub mod records;
pub mod clock;
pub mod demos;
pub mod types;
pub mod crd;
pub mod controller;
pub mod health;
