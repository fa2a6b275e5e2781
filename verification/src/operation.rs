//! The four arithmetic operators.

use vstd::prelude::*;

verus! {

/// An arithmetic operator of the keypad.
#[derive(Debug, Clone, Copy, PartialEq, Eq, Structural)]
pub enum Operation {
    Sum,
    Sub,
    Mul,
    Div,
}

impl Operation {
    /// The sign that stands for the operator.
    pub open spec fn symbol(self) -> Seq<char> {
        match self {
            Operation::Sum => seq!['+'],
            Operation::Sub => seq!['-'],
            Operation::Mul => seq!['x'],
            Operation::Div => seq!['/'],
        }
    }

    /// The operator's sign as a text of one character.
    pub fn to_string(&self) -> (text: String)
        ensures
            text@ == self.symbol(),
    {
        proof {
            reveal_strlit("+");
            reveal_strlit("-");
            reveal_strlit("x");
            reveal_strlit("/");
        }
        let sign = match self {
            Operation::Sum => "+",
            Operation::Sub => "-",
            Operation::Mul => "x",
            Operation::Div => "/",
        };
        assert(sign@ =~= self.symbol());
        String::from_str(sign)
    }
}

} // verus!
