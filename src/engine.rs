use vstd::prelude::*;
use crate::dialogue::{next_field, successor, DialogueState};
use crate::participant::{Field, Participant};
use crate::texts::{
    changed_confirmation, changed_text, completion_message, completion_text, label_text,
    retry_prompt, retry_text,
};

verus! {

/// What one inbound message does to a conversation: the participant record
/// afterwards, whether it has to be written back, the dialogue state
/// afterwards, and the reply to send, if any.
pub struct Turn {
    pub participant: Participant,
    pub stored: bool,
    pub state: DialogueState,
    pub reply: Option<String>,
}

/// The mathematical content of a `Turn`, with the reply as a character sequence.
pub struct TurnView {
    pub participant: Participant,
    pub stored: bool,
    pub state: DialogueState,
    pub reply: Option<Seq<char>>,
}

/// The characters of an optional reply.
pub open spec fn reply_view(r: Option<String>) -> Option<Seq<char>> {
    match r {
        Some(s) => Some(s@),
        None => None,
    }
}

impl View for Turn {
    type V = TurnView;

    open spec fn view(&self) -> TurnView {
        TurnView {
            participant: self.participant,
            stored: self.stored,
            state: self.state,
            reply: reply_view(self.reply),
        }
    }
}

/// The state after field `field` was captured, where `state` is the stored
/// state read after the capture: the next wizard step, or `Idle` at the end
/// of the wizard and after a standalone edit.
pub open spec fn next_state(field: Field, state: DialogueState) -> DialogueState {
    if state.in_sequence() {
        match next_field(field) {
            Some(n) => DialogueState::AwaitingField(n, true),
            None => DialogueState::Idle,
        }
    } else {
        DialogueState::Idle
    }
}

/// The reply after field `field` was captured: nothing between wizard steps,
/// the completion message after the last one, and the field's confirmation
/// after a standalone edit.
pub open spec fn success_reply(field: Field, state: DialogueState, label: Seq<char>) -> Option<
    Seq<char>,
> {
    if state.in_sequence() {
        match next_field(field) {
            Some(_) => None,
            None => Some(completion_text()),
        }
    } else {
        Some(changed_text(field, label))
    }
}

/// One turn of the handler for `field`, given the stored state, the loaded
/// participant and the message's text.
pub open spec fn turn_spec(
    field: Field,
    state: DialogueState,
    p: Participant,
    text: Option<String>,
) -> TurnView {
    match text {
        Some(v) => TurnView {
            participant: p.with_field(field, v),
            stored: true,
            state: next_state(field, state),
            reply: success_reply(field, state, label_text(p)),
        },
        None => TurnView {
            participant: p,
            stored: false,
            state: state,
            reply: Some(retry_text(field, label_text(p))),
        },
    }
}

/// A conversation that receives the messages `msgs` one after another,
/// starting in `state` with record `p`: the final state, the final record and
/// the replies sent, in order. Messages that arrive while no field is awaited
/// reach no handler.
pub open spec fn run(state: DialogueState, p: Participant, msgs: Seq<Option<String>>) -> (
    DialogueState,
    Participant,
    Seq<Seq<char>>,
)
    decreases msgs.len(),
{
    if msgs.len() == 0 {
        (state, p, Seq::empty())
    } else {
        match state {
            DialogueState::Idle => (state, p, Seq::empty()),
            DialogueState::AwaitingField(f, _) => {
                let t = turn_spec(f, state, p, msgs[0]);
                let rest = run(t.state, t.participant, msgs.drop_first());
                let sent = match t.reply {
                    Some(r) => seq![r] + rest.2,
                    None => rest.2,
                };
                (rest.0, rest.1, sent)
            },
        }
    }
}

/// Writes the message's text, if there is one, into field `field`; returns
/// whether it did, that is, whether the record has to be stored.
pub fn capture(field: Field, participant: &mut Participant, text: Option<String>) -> (stored: bool)
    ensures
        stored == text is Some,
        *final(participant) == match text {
            Some(v) => old(participant).with_field(field, v),
            None => *old(participant),
        },
{
    match text {
        Some(v) => {
            participant.set_field(field, v);
            true
        },
        None => false,
    }
}

/// What follows a successful capture of `field`, where `state` is the stored
/// state read after the record was written and `label` the label of the
/// status-specific field: the next state and the reply.
pub fn conclude(field: Field, state: DialogueState, label: &str) -> (r: (
    DialogueState,
    Option<String>,
))
    ensures
        r.0 == next_state(field, state),
        reply_view(r.1) == success_reply(field, state, label@),
{
    if state.is_in_dialogue() {
        match successor(field) {
            Some(n) => (DialogueState::AwaitingField(n, true), None),
            None => (DialogueState::Idle, Some(completion_message())),
        }
    } else {
        (DialogueState::Idle, Some(changed_confirmation(field, label)))
    }
}

/// Handles one inbound message while `field` is awaited.
pub fn handle(field: Field, state: DialogueState, participant: Participant, text: Option<String>) -> (t: Turn)
    ensures
        t@ == turn_spec(field, state, participant, text),
{
    let label = participant.status_related_info_label();
    let mut p = participant;
    match text {
        Some(v) => {
            p.set_field(field, v);
            let (next, reply) = conclude(field, state, label.as_str());
            Turn { participant: p, stored: true, state: next, reply }
        },
        None => {
            let reply = retry_prompt(field, label.as_str());
            Turn { participant: p, stored: false, state, reply: Some(reply) }
        },
    }
}

/// Handles one inbound message while the given name is awaited.
pub fn receive_given_name(state: DialogueState, participant: Participant, text: Option<String>) -> (t: Turn)
    ensures
        t@ == turn_spec(Field::GivenName, state, participant, text),
{
    handle(Field::GivenName, state, participant, text)
}

/// Handles one inbound message while the last name is awaited.
pub fn receive_last_name(state: DialogueState, participant: Participant, text: Option<String>) -> (t: Turn)
    ensures
        t@ == turn_spec(Field::LastName, state, participant, text),
{
    handle(Field::LastName, state, participant, text)
}

/// Handles one inbound message while the street and house number is awaited.
pub fn receive_street(state: DialogueState, participant: Participant, text: Option<String>) -> (t: Turn)
    ensures
        t@ == turn_spec(Field::Street, state, participant, text),
{
    handle(Field::Street, state, participant, text)
}

/// Handles one inbound message while the postal code and locality is awaited.
pub fn receive_city(state: DialogueState, participant: Participant, text: Option<String>) -> (t: Turn)
    ensures
        t@ == turn_spec(Field::City, state, participant, text),
{
    handle(Field::City, state, participant, text)
}

/// Handles one inbound message while the phone number is awaited.
pub fn receive_phone(state: DialogueState, participant: Participant, text: Option<String>) -> (t: Turn)
    ensures
        t@ == turn_spec(Field::Phone, state, participant, text),
{
    handle(Field::Phone, state, participant, text)
}

/// Handles one inbound message while the email address is awaited.
pub fn receive_email(state: DialogueState, participant: Participant, text: Option<String>) -> (t: Turn)
    ensures
        t@ == turn_spec(Field::Email, state, participant, text),
{
    handle(Field::Email, state, participant, text)
}

/// Handles one inbound message while the status-specific information is awaited.
pub fn receive_status_related_info(state: DialogueState, participant: Participant, text: Option<String>) -> (t: Turn)
    ensures
        t@ == turn_spec(Field::StatusInfo, state, participant, text),
{
    handle(Field::StatusInfo, state, participant, text)
}

/// Routes an inbound message to the handler of the awaited field; `None`
/// while no field is awaited.
pub fn dispatch(state: DialogueState, participant: Participant, text: Option<String>) -> (r: Option<
    Turn,
>)
    ensures
        match state {
            DialogueState::Idle => r is None,
            DialogueState::AwaitingField(f, _) => r matches Some(t) && t@ == turn_spec(
                f,
                state,
                participant,
                text,
            ),
        },
{
    match state {
        DialogueState::Idle => None,
        DialogueState::AwaitingField(f, _) => Some(handle(f, state, participant, text)),
    }
}

} // verus!
