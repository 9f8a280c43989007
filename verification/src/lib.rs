//! A small library for turning the result of a one-shot SQL query into a
//! flat text form.
//!
//! The library holds the logic of a query runner whose driver work (checking
//! that a database file exists, creating it, opening a pool, fetching rows)
//! happens outside: the order of the setup steps, the projection of every row
//! onto the first row's column order, and the rendering of the result set as
//! space- and newline-separated text, or of a failure as a marked error line.

pub mod columns;
pub mod flow;
pub mod outcome;
pub mod render;
