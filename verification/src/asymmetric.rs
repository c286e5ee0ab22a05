//! Asymmetric cryptography: large-modulus public-key encryption and
//! elliptic-curve signing.

pub mod encryption;
pub mod signing;
