use vstd::prelude::*;
use crate::participant::Field;

verus! {

/// What the conversation waits for next. `AwaitingField(f, true)` is one step
/// of the onboarding wizard; `AwaitingField(f, false)` is a standalone edit of
/// field `f`.
#[derive(Clone, Copy, Debug, PartialEq, Eq, Structural)]
pub enum DialogueState {
    Idle,
    AwaitingField(Field, bool),
}

/// The field that the wizard asks for after `f`, or `None` after the last one.
pub open spec fn next_field(f: Field) -> Option<Field> {
    match f {
        Field::GivenName => Some(Field::LastName),
        Field::LastName => Some(Field::Gender),
        Field::Gender => Some(Field::Street),
        Field::Street => Some(Field::City),
        Field::City => Some(Field::Phone),
        Field::Phone => Some(Field::Email),
        Field::Email => Some(Field::Status),
        Field::Status => Some(Field::StatusInfo),
        Field::StatusInfo => None,
    }
}

impl DialogueState {
    /// Whether the conversation is running the onboarding wizard.
    pub open spec fn in_sequence(self) -> bool {
        match self {
            DialogueState::Idle => false,
            DialogueState::AwaitingField(_, b) => b,
        }
    }

    /// The state in which a new onboarding wizard starts.
    pub fn start_wizard() -> (s: DialogueState)
        ensures
            s == DialogueState::AwaitingField(Field::GivenName, true),
    {
        DialogueState::AwaitingField(Field::GivenName, true)
    }

    /// The state in which a standalone edit of field `f` starts.
    pub fn start_edit(f: Field) -> (s: DialogueState)
        ensures
            s == DialogueState::AwaitingField(f, false),
    {
        DialogueState::AwaitingField(f, false)
    }

    /// Whether the conversation is running the onboarding wizard.
    pub fn is_in_dialogue(&self) -> (r: bool)
        ensures
            r == self.in_sequence(),
    {
        match self {
            DialogueState::Idle => false,
            DialogueState::AwaitingField(_, b) => *b,
        }
    }
}

/// The field that the wizard asks for after `f`, or `None` after the last one.
pub fn successor(f: Field) -> (r: Option<Field>)
    ensures
        r == next_field(f),
{
    match f {
        Field::GivenName => Some(Field::LastName),
        Field::LastName => Some(Field::Gender),
        Field::Gender => Some(Field::Street),
        Field::Street => Some(Field::City),
        Field::City => Some(Field::Phone),
        Field::Phone => Some(Field::Email),
        Field::Email => Some(Field::Status),
        Field::Status => Some(Field::StatusInfo),
        Field::StatusInfo => None,
    }
}

} // verus!
