//! The events that the keypad and the input field send.

use vstd::prelude::*;
use crate::operation::Operation;

verus! {

/// One event of the user interface.
#[derive(Debug, Clone)]
pub enum Message {
    /// Clear everything typed and the running result.
    C,
    /// Clear what is being typed.
    Ce,
    /// Replace what is being typed by this text, if it reads as a number or
    /// is empty.
    Num(String),
    /// Put a token (a digit or the decimal point) behind what is being typed.
    Add(&'static str),
    /// Take the last character off what is being typed.
    Del,
    /// Choose an operator; what was typed becomes the running result.
    Op(Operation),
    /// Put a minus sign before what is being typed.
    Negative,
    /// Combine the running result with what was typed.
    Result,
}

} // verus!
