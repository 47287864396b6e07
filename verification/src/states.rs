//! The accounts of the program that builders read.

pub mod global;
