//! What holds of the transitions whatever the state they start from.

use vstd::prelude::*;
use crate::message::Message;
use crate::number::is_number;
use crate::operation::Operation;
use crate::state::{State, ZERO};
use crate::text::trimmed;

verus! {

/// A text that reads as a number once the white space around it is taken
/// off, or the empty text, replaces what is being typed, character for
/// character; the running result and the operator stay.
pub proof fn number_replaces_input(state: State, text: String, reading: Option<u32>)
    requires
        is_number(trimmed(text@)) || text@.len() == 0,
    ensures
        state.step(Message::Num(text), reading).num == text@,
        state.step(Message::Num(text), reading).result == state.result,
        state.step(Message::Num(text), reading).op == state.op,
        state.owed(Message::Num(text), reading).is_none(),
{
}

/// A text that is not empty and reads as no number is refused: the state
/// stays as it was.
pub proof fn other_text_is_refused(state: State, text: String, reading: Option<u32>)
    requires
        text@.len() > 0,
        !is_number(trimmed(text@)),
    ensures
        state.step(Message::Num(text), reading) == state,
        state.owed(Message::Num(text), reading).is_none(),
{
}

/// Replacing what is typed never makes it unreadable, and neither does any
/// event but those that edit it character by character (appending, deleting
/// and negating, which look at nothing).
pub proof fn input_stays_readable(state: State, message: Message, reading: Option<u32>)
    requires
        state.input_is_readable(),
        !(message is Add),
        !(message is Del),
        !(message is Negative),
    ensures
        state.step(message, reading).input_is_readable(),
{
}

/// Clearing everything leaves nothing typed and a running result of positive
/// zero, whatever was there before; the operator stays.
pub proof fn clear_all_resets(state: State, reading: Option<u32>)
    ensures
        state.step(Message::C, reading).num == Seq::<char>::empty(),
        state.step(Message::C, reading).result == ZERO,
        state.step(Message::C, reading).op == state.op,
        state.owed(Message::C, reading).is_none(),
{
}

/// Clearing the entry leaves nothing typed and touches neither the running
/// result nor the operator.
pub proof fn clear_entry_keeps_result(state: State, reading: Option<u32>)
    ensures
        state.step(Message::Ce, reading).num == Seq::<char>::empty(),
        state.step(Message::Ce, reading).result == state.result,
        state.step(Message::Ce, reading).op == state.op,
        state.owed(Message::Ce, reading).is_none(),
{
}

/// Choosing an operator turns what was typed into the running result,
/// positive zero where it reads as no number, and leaves nothing typed.
pub proof fn operator_commits_input(state: State, op: Operation, reading: u32)
    ensures
        state.step(Message::Op(op), Some(reading)).num == Seq::<char>::empty(),
        state.step(Message::Op(op), Some(reading)).op == Some(op),
        is_number(trimmed(state.num)) ==> state.step(Message::Op(op), Some(reading)).result
            == reading,
        !is_number(trimmed(state.num)) ==> state.step(Message::Op(op), Some(reading)).result
            == ZERO,
        state.owed(Message::Op(op), Some(reading)).is_none(),
{
}

/// Asking for the result while no operator is chosen changes nothing and
/// asks for no arithmetic.
pub proof fn result_without_operator_is_idle(state: State, reading: Option<u32>)
    requires
        state.op.is_none(),
    ensures
        state.step(Message::Result, reading) == state,
        state.owed(Message::Result, reading).is_none(),
{
}

/// Asking for the result with an operator chosen owes the running result
/// combined with what was typed, with positive zero where that reads as no
/// number. Once the outcome is stored nothing is typed and the operator is
/// still chosen, so that the next request applies it again.
pub proof fn result_keeps_operator(state: State, reading: u32, value: u32)
    requires
        state.op.is_some(),
    ensures
        state.step(Message::Result, Some(reading)).settled(value).op == state.op,
        state.step(Message::Result, Some(reading)).settled(value).num == Seq::<char>::empty(),
        state.step(Message::Result, Some(reading)).settled(value).result == value,
        state.owed(Message::Result, Some(reading)).is_some(),
        state.owed(Message::Result, Some(reading)).unwrap().op == state.op.unwrap(),
        state.owed(Message::Result, Some(reading)).unwrap().left == state.result,
        is_number(trimmed(state.num)) ==> state.owed(Message::Result, Some(reading)).unwrap().right
            == reading,
        !is_number(trimmed(state.num)) ==> state.owed(
            Message::Result,
            Some(reading),
        ).unwrap().right == ZERO,
{
}

/// Only choosing an operator changes the operator, and no event takes it
/// away once one is chosen.
pub proof fn operator_stays_chosen(state: State, message: Message, reading: Option<u32>)
    ensures
        !(message is Op) ==> state.step(message, reading).op == state.op,
        state.op.is_some() ==> state.step(message, reading).op.is_some(),
{
}

/// Only clearing everything and choosing an operator change the running
/// result in a step; asking for the result changes it through the arithmetic
/// owed, and no other event owes any.
pub proof fn result_changes_by_three_events(state: State, message: Message, reading: Option<u32>)
    ensures
        !(message is C) && !(message is Op) ==> state.step(message, reading).result
            == state.result,
        !(message is Result) ==> state.owed(message, reading).is_none(),
{
}

/// Deleting from an empty input, any number of times, leaves the state as it
/// was.
pub proof fn delete_on_empty_is_idle(state: State, reading: Option<u32>, times: nat)
    requires
        state.num.len() == 0,
    ensures
        state.repeated(Message::Del, reading, times) == state,
    decreases times,
{
    if times > 0 {
        assert(state.step(Message::Del, reading) == state);
        delete_on_empty_is_idle(state, reading, (times - 1) as nat);
    }
}

} // verus!
