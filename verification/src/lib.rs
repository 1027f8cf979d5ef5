//! Solar event times and wait scheduling.
//!
//! Angles and fractions of a day are held as fixed-point integers (see
//! [`units`]); the trigonometry that produces them is left to the caller.

pub mod units;
pub mod text;
pub mod decimal;
pub mod timestamp;
pub mod domain;
pub mod calc;
pub mod sleep;
pub mod errors;
pub mod traits;
pub mod subcommands;
pub mod report;
pub mod cli;
pub mod enums;
pub mod parsers;
pub mod structs;
pub mod config;
