//! What the library promises, in terms of what goes in and what comes out.

pub mod copying;
pub mod exchanges;
pub mod numbers;
pub mod operations;
pub mod reading;
pub mod sending;
pub mod sessions;
