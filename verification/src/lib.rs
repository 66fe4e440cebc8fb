//! Core of a habit tracker: habit records keyed by calendar date, a uniform
//! interface over the concrete habit kinds, and a tagged record form that
//! round-trips every habit through persistence with its kind recovered.

pub mod codec;
pub mod date;
pub mod habit;
pub mod store;
pub mod wrapper;
