//! Symmetric cryptography: authenticated encryption with associated data.

pub mod encryption;
