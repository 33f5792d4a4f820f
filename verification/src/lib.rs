//! Pricing decisions of a proving broker's order picker.
//!
//! Orders for proofs come in; [`schedule`] decides which are priced when,
//! [`pricing`] asks what has to be known about each and decides whether to take
//! it on, [`evaluate`] and [`gas`] compute what it pays and costs, and
//! [`update`] decides what becomes of it. [`meaning`] states what each part
//! gives, [`verdicts`] what each answer leads to, and [`laws`] what holds of all
//! this together.

pub mod config;
pub mod error;
pub mod evaluate;
pub mod gas;
pub mod laws;
pub mod meaning;
pub mod order;
pub mod outcome;
pub mod picker;
pub mod pricing;
pub mod schedule;
pub mod u256;
pub mod units;
pub mod update;
pub mod verdicts;
