//! Verified library for a small collection of introductory exercises:
//! fixed-point temperature conversion, naive recursive Fibonacci numbers,
//! carol verse building, and a few control-flow demonstration routines.

pub mod demos;
pub mod fibonacci;
pub mod lyrics;
pub mod temperature;
