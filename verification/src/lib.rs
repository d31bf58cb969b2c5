//! The yearly economy of an ancient city: land trade, feeding, planting,
//! harvest and the final rating of a ten-year term of office.
//!
//! Every quantity is a `u16`, as the city's ledger keeps it. Contracts are
//! stated over mathematical integers, so that a caller sees exactly which
//! directive is accepted and what it does to the ledger.

pub mod city;
pub mod harvest;
pub mod land;
pub mod stores;
pub mod score;
pub mod market;
pub mod game;
pub mod laws;
