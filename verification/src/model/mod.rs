//! The platform's wire objects, as far as the dispatcher reads or builds them.
//! Identifiers are plain `u64` numbers, and a floating-point number is held as
//! the bits of its IEEE 754 encoding.

pub mod command;
pub mod interaction;
pub mod message;
pub mod response;
