//! Ordered chains of request extractors whose outputs are assembled into one
//! aggregate, with every step of the assembly verified.
pub mod path;
pub mod json;
pub mod request;
pub mod extractor;
pub mod chain;
