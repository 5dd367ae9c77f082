//! Drivers that load a WebAssembly module into an embedded engine, call its
//! exports in a timing loop and render what they measured as lines of text.

pub mod bench;
pub mod byte_units;
pub mod decimal;
pub mod driver;
pub mod engine;
pub mod guest;
pub mod lines;
pub mod timing;
