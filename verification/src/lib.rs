//! Decision logic of an endpoint detection and response agent: the data
//! model, the detection rules, the monitors' rules, event batching, and the
//! response decisions, each with a proved contract.

pub mod config;
pub mod detection;
pub mod digest;
pub mod file;
pub mod models;
pub mod network;
pub mod parse;
pub mod process;
pub mod processor;
pub mod protocol;
pub mod response;
pub mod stamp;
pub mod text;
pub mod trusted;
