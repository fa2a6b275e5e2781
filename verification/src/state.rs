//! The mathematical model of the calculator and of its transitions.

use vstd::prelude::*;
use crate::message::Message;
use crate::operation::Operation;
use crate::number::is_number;
use crate::text::trimmed;

verus! {

/// The bit pattern of positive zero.
pub const ZERO: u32 = 0;

/// An arithmetic operation on two numbers, each given by its binary32 bit
/// pattern: `left op right`.
#[derive(Debug, Clone, Copy, PartialEq, Eq, Structural)]
pub struct Arithmetic {
    pub op: Operation,
    pub left: u32,
    pub right: u32,
}

/// What a calculator holds, as plain mathematical values.
pub ghost struct State {
    /// The text being typed.
    pub num: Seq<char>,
    /// The bit pattern of the running result.
    pub result: u32,
    /// The operator last chosen, if any.
    pub op: Option<Operation>,
}

impl State {
    /// The state of a calculator that has seen no event.
    pub open spec fn fresh() -> State {
        State { num: Seq::empty(), result: ZERO, op: None }
    }

    /// Whether what is typed is empty or reads as a number once the white
    /// space around it is taken off.
    pub open spec fn input_is_readable(self) -> bool {
        self.num.len() == 0 || is_number(trimmed(self.num))
    }

    /// The text whose number `message` works with, if it works with one:
    /// what is typed, without the white space around it, where that reads as
    /// a number and the message chooses an operator, or asks for the result
    /// while an operator is chosen.
    pub open spec fn operand(self, message: Message) -> Option<Seq<char>> {
        let typed = trimmed(self.num);
        match message {
            Message::Op(_) if is_number(typed) => Some(typed),
            Message::Result if self.op.is_some() && is_number(typed) => Some(typed),
            _ => None,
        }
    }

    /// The number that `message` works with, where `reading` is the bit
    /// pattern of the number that the text `self.operand(message)` reads as:
    /// that number, and positive zero where what is typed reads as none.
    pub open spec fn number(self, message: Message, reading: Option<u32>) -> u32 {
        if self.operand(message).is_some() {
            reading.unwrap_or(ZERO)
        } else {
            ZERO
        }
    }

    /// The state after `message`, with `reading` as in `number`.
    /// After `Message::Result` the running result is still the old one: the
    /// outcome of `self.owed(message, reading)` has to be stored with
    /// `settled`.
    pub open spec fn step(self, message: Message, reading: Option<u32>) -> State {
        match message {
            Message::C => State { num: Seq::empty(), result: ZERO, op: self.op },
            Message::Ce => State { num: Seq::empty(), ..self },
            Message::Num(text) => if is_number(trimmed(text@)) || text@.len() == 0 {
                State { num: text@, ..self }
            } else {
                self
            },
            Message::Add(token) => State { num: self.num + token@, ..self },
            Message::Del => if self.num.len() > 0 {
                State { num: self.num.drop_last(), ..self }
            } else {
                self
            },
            Message::Op(op) => State {
                num: Seq::empty(),
                result: self.number(message, reading),
                op: Some(op),
            },
            Message::Negative => State { num: seq!['-'] + self.num, ..self },
            Message::Result => if self.op.is_some() {
                State { num: Seq::empty(), ..self }
            } else {
                self
            },
        }
    }

    /// The arithmetic that `message` leaves to be done: none but for
    /// `Message::Result` with an operator chosen, which asks for the running
    /// result combined with what was typed, or with zero where that is no
    /// number.
    pub open spec fn owed(self, message: Message, reading: Option<u32>) -> Option<Arithmetic> {
        match (message, self.op) {
            (Message::Result, Some(op)) => Some(
                Arithmetic { op, left: self.result, right: self.number(message, reading) },
            ),
            _ => None,
        }
    }

    /// The state once the outcome of an owed arithmetic is stored.
    pub open spec fn settled(self, value: u32) -> State {
        State { result: value, ..self }
    }

    /// The state after the same event has come `times` times, each time with
    /// the same reading.
    pub open spec fn repeated(self, message: Message, reading: Option<u32>, times: nat) -> State
        decreases times,
    {
        if times == 0 {
            self
        } else {
            self.step(message, reading).repeated(message, reading, (times - 1) as nat)
        }
    }
}

} // verus!
