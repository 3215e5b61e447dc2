//! Procedures, grouped by the algorithm they serve.

pub mod es256k;
