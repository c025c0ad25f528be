//! A JSON value model that keeps composite values as raw text and decodes
//! them only on demand.
pub mod number;

pub use number::Number;
pub mod value;

pub use value::{Scanner, Value};
