//! The builders of the three instructions.

pub mod buy;
pub mod create;
pub mod sell;
