//! Security-test annotations compiled into fixed-layout binary records.
//!
//! A function is annotated with free text that names the classes of weakness
//! to probe it for and how severe it is. From the text and the function's
//! name this library computes what is compiled into the binary beside the
//! function: a 64-byte record that a scanner finds by its marker, and the
//! function's name as text, each under a name of its own and in a section of
//! its own.
//!
//! - [`parser`] reads the text into a [`SecurityTestConfig`];
//! - [`record`] lays a configuration out as a record and reads one back;
//! - [`symbols`] names the two generated items;
//! - [`sections`] names the sections that they are placed in;
//! - [`emit`] puts these together: see [`security_test`];
//! - [`search`] finds a keyword in a text, and [`listing`] states what an
//!   annotation written as a list of keywords stands for.

pub mod emit;
pub mod listing;
pub mod parser;
pub mod record;
pub mod search;
pub mod sections;
pub mod symbols;
pub mod types;

pub use emit::{emit, security_test, Emission};
pub use sections::TargetOs;
pub use types::{SecurityTestConfig, SecurityTestMetadata, ThreatLevel};
