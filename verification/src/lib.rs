//! Error values of the preconfirmation API and the HTTP answer that each of
//! them is given.

pub mod error;
pub mod laws;
pub mod status;
pub mod text;
