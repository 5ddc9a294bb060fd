//! Client library for the Mercado Bitcoin REST trading API: request paths,
//! signed parameter lists, and the decoding of response envelopes.

pub mod status;
pub mod text;
pub mod signing;
pub mod date;
pub mod envelope;
pub mod params;
pub mod client;
