//! ARM Mali GPUs, queried through the kbase driver.
pub mod database;
pub mod query;
pub mod parser;

pub use parser::{parse_properties, parse_properties_lenient, ParsedProperties, ParserConfig};
