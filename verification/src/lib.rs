//! A codec for a two-outcome value that travels untagged: the wire form of an
//! outcome is the raw value of whichever payload it holds, and decoding finds
//! the side again by trying the success shape first and the error shape second.

pub mod codec;
pub mod diagnostic;
pub mod json;
pub mod sample;
pub mod tagged;
pub mod transparent;

pub use tagged::JsonResult;
