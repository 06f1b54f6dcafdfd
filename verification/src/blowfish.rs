//! A 64-bit Feistel block cipher with key-dependent substitution tables.

pub mod fixed;
pub mod model;
pub mod cipher;
pub mod laws;
