//! Ownership and borrowing of growable text values, shown on a fixed
//! sequence of steps whose printed transcript is stated exactly.
pub mod demo;
pub mod text;
