//! The calls into other crates. Each function here makes one such call, and its contract is what
//! the rest of the library relies on without proof.

pub mod compression;
pub mod fingerprint;
pub mod noise;
pub mod password;
pub mod slots;
pub mod text;
