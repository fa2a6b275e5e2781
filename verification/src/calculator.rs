//! The calculator itself.

use vstd::prelude::*;
use crate::message::Message;
use crate::operation::Operation;
use crate::state::{Arithmetic, State, ZERO};
use crate::number::reads_as_number;
use crate::text::trim;

verus! {

/// A calculator: the text being typed, the running result and the operator
/// last chosen.
pub struct Calculator {
    num: String,
    result: u32,
    op: Option<Operation>,
}

impl View for Calculator {
    type V = State;

    closed spec fn view(&self) -> State {
        State { num: self.num@, result: self.result, op: self.op }
    }
}

impl Calculator {
    /// A calculator that has seen no event: nothing typed, a result of
    /// positive zero, no operator.
    pub fn new() -> (calc: Calculator)
        ensures
            calc@ == State::fresh(),
    {
        Calculator { num: String::new(), result: ZERO, op: None }
    }

    /// The name of the application.
    pub fn title(&self) -> (name: String)
        ensures
            name@ == "Calculator"@,
    {
        String::from_str("Calculator")
    }

    /// The text being typed.
    pub fn num(&self) -> (text: &str)
        ensures
            text@ == self@.num,
    {
        self.num.as_str()
    }

    /// The bit pattern of the running result.
    pub fn result(&self) -> (bits: u32)
        ensures
            bits == self@.result,
    {
        self.result
    }

    /// The operator last chosen.
    pub fn op(&self) -> (op: Option<Operation>)
        ensures
            op == self@.op,
    {
        self.op
    }

    /// The text that the caller has to read as a number before it hands
    /// `message` to `update`, if there is one: what is typed, without the
    /// white space around it, where `message` works with its number. A text
    /// that is handed out reads as a number.
    pub fn operand<'a>(&'a self, message: &Message) -> (text: Option<&'a str>)
        ensures
            match text {
                Some(inner) => self@.operand(*message) == Some(inner@),
                None => self@.operand(*message).is_none(),
            },
    {
        let wanted = match message {
            Message::Op(_) => true,
            Message::Result => self.op.is_some(),
            _ => false,
        };
        if !wanted {
            return None;
        }
        let typed = trim(self.num.as_str());
        if reads_as_number(typed) {
            Some(typed)
        } else {
            None
        }
    }

    /// Applies one event. `reading` is the bit pattern of the number that
    /// the text `self.operand(&message)` reads as; where no text was asked
    /// for it is not looked at.
    ///
    /// Every event is accepted. The result is the arithmetic that the event
    /// leaves to be done; its outcome goes to `settle`.
    pub fn update(&mut self, message: Message, reading: Option<u32>) -> (owed: Option<Arithmetic>)
        ensures
            final(self)@ == old(self)@.step(message, reading),
            owed == old(self)@.owed(message, reading),
    {
        let number = if self.operand(&message).is_some() {
            reading.unwrap_or(ZERO)
        } else {
            ZERO
        };
        match message {
            Message::C => {
                self.result = ZERO;
                self.num = String::new();
                None
            },
            Message::Ce => {
                self.num = String::new();
                None
            },
            Message::Num(text) => {
                if reads_as_number(trim(text.as_str())) || text.as_str().is_empty() {
                    self.num = text;
                }
                None
            },
            Message::Add(token) => {
                self.num.append(token);
                None
            },
            Message::Del => {
                let count = self.num.as_str().unicode_len();
                if count > 0 {
                    let kept = String::from_str(self.num.as_str().substring_char(0, count - 1));
                    self.num = kept;
                }
                None
            },
            Message::Op(op) => {
                self.op = Some(op);
                self.result = number;
                self.num = String::new();
                None
            },
            Message::Negative => {
                let mut text = String::from_str("-");
                proof {
                    reveal_strlit("-");
                    assert("-"@ =~= seq!['-']);
                }
                text.append(self.num.as_str());
                self.num = text;
                None
            },
            Message::Result => {
                match self.op {
                    Some(op) => {
                        let owed = Arithmetic { op, left: self.result, right: number };
                        self.num = String::new();
                        Some(owed)
                    },
                    None => None,
                }
            },
        }
    }

    /// Stores the outcome of the arithmetic that `update` handed back as the
    /// running result.
    pub fn settle(&mut self, value: u32)
        ensures
            final(self)@ == old(self)@.settled(value),
    {
        self.result = value;
    }
}

} // verus!
