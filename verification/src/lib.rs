//! The core of a four-function desk calculator.
//!
//! The calculator is a record of three fields (the text being typed, the
//! running result and the operator last chosen) that changes with each key
//! press. Every decision about those fields is made here and proved against a
//! mathematical model, [`State`].
//!
//! Numbers are binary32 values, carried as their bit patterns. Which texts
//! read as a number is decided here ([`number`]). What number such a text
//! reads as, and the sum, difference, product or quotient of two numbers, is
//! left to the caller: [`Calculator::operand`] hands out the text to be read,
//! [`Calculator::update`] takes what it read as and hands back the arithmetic
//! that is owed, and [`Calculator::settle`] stores its outcome.

pub mod text;
pub mod number;
pub mod operation;
pub mod message;
pub mod state;
pub mod calculator;
pub mod laws;

pub use calculator::Calculator;
pub use message::Message;
pub use operation::Operation;
pub use state::{Arithmetic, State, ZERO};
