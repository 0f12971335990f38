//! Client library for the Apache Livy REST service: request construction,
//! query encoding, response classification and the JSON domain model.

pub mod client;
pub mod http;
pub mod json;
pub mod map;
pub mod model;
pub mod request;
pub mod state;
pub mod text;
pub mod utils;
