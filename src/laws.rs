use vstd::prelude::*;
use crate::dialogue::DialogueState;
use crate::engine::{run, turn_spec};
use crate::participant::{Field, Participant};
use crate::texts::{changed_text, completion_text, label_text, retry_text};

verus! {

/// A standalone edit of any field stores the text in that field, keeps the
/// other fields, returns to `Idle` and confirms the change.
pub proof fn lemma_edit_stores_and_confirms(f: Field, p: Participant, t: String)
    ensures
        ({
            let r = turn_spec(f, DialogueState::AwaitingField(f, false), p, Some(t));
            &&& r.participant.field(f) == Some(t)
            &&& r.participant.id == p.id
            &&& forall|g: Field| g != f ==> #[trigger] r.participant.field(g) == p.field(g)
            &&& r.stored
            &&& r.state == DialogueState::Idle
            &&& r.reply == Some(changed_text(f, label_text(p)))
        }),
{
}

/// A message without text changes neither the state nor the record, and is
/// answered with the awaited field's prompt.
pub proof fn lemma_no_text_changes_nothing(f: Field, b: bool, p: Participant)
    ensures
        ({
            let s = DialogueState::AwaitingField(f, b);
            let r = turn_spec(f, s, p, None);
            &&& r.participant == p
            &&& !r.stored
            &&& r.state == s
            &&& r.reply == Some(retry_text(f, label_text(p)))
        }),
{
}

/// Any number of messages without text leave state and record as they were,
/// and each is answered with the same prompt: nothing counts the retries.
pub proof fn lemma_repeated_no_text(f: Field, b: bool, p: Participant, n: nat)
    ensures
        run(DialogueState::AwaitingField(f, b), p, Seq::new(n, |i: int| None::<String>)) == (
            DialogueState::AwaitingField(f, b),
            p,
            Seq::new(n, |i: int| retry_text(f, label_text(p))),
        ),
    decreases n,
{
    let s = DialogueState::AwaitingField(f, b);
    let msgs = Seq::new(n, |i: int| None::<String>);
    if n > 0 {
        lemma_repeated_no_text(f, b, p, (n - 1) as nat);
        assert(msgs.drop_first() =~= Seq::new((n - 1) as nat, |i: int| None::<String>));
        assert(seq![retry_text(f, label_text(p))] + Seq::new(
            (n - 1) as nat,
            |i: int| retry_text(f, label_text(p)),
        ) =~= Seq::new(n, |i: int| retry_text(f, label_text(p))));
    } else {
        assert(Seq::new(n, |i: int| retry_text(f, label_text(p))) =~= Seq::empty());
    }
}

/// One wizard step on a message with text moves to the next field without a
/// reply.
proof fn lemma_wizard_step(f: Field, n: Field, p: Participant, msgs: Seq<Option<String>>)
    requires
        crate::dialogue::next_field(f) == Some(n),
        msgs.len() > 0,
        msgs[0] is Some,
    ensures
        run(DialogueState::AwaitingField(f, true), p, msgs) == run(
            DialogueState::AwaitingField(n, true),
            p.with_field(f, msgs[0]->Some_0),
            msgs.drop_first(),
        ),
{
}

/// Nine messages with text drive the wizard from its first field to `Idle`,
/// with the completion message as the only reply and every field filled in
/// the wizard's order.
pub proof fn lemma_wizard_completes(p: Participant, msgs: Seq<Option<String>>)
    requires
        msgs.len() == 9,
        forall|i: int| 0 <= i < 9 ==> #[trigger] msgs[i] is Some,
    ensures
        ({
            let r = run(DialogueState::AwaitingField(Field::GivenName, true), p, msgs);
            &&& r.0 == DialogueState::Idle
            &&& r.2 == seq![completion_text()]
            &&& r.1.id == p.id
            &&& r.1.field(Field::GivenName) == msgs[0]
            &&& r.1.field(Field::LastName) == msgs[1]
            &&& r.1.field(Field::Gender) == msgs[2]
            &&& r.1.field(Field::Street) == msgs[3]
            &&& r.1.field(Field::City) == msgs[4]
            &&& r.1.field(Field::Phone) == msgs[5]
            &&& r.1.field(Field::Email) == msgs[6]
            &&& r.1.field(Field::Status) == msgs[7]
            &&& r.1.field(Field::StatusInfo) == msgs[8]
        }),
{
    let m0 = msgs;
    let q0 = p;
    lemma_wizard_step(Field::GivenName, Field::LastName, q0, m0);
    let q1 = q0.with_field(Field::GivenName, m0[0]->Some_0);
    let m1 = m0.drop_first();
    assert(m1[0] == msgs[1]);
    lemma_wizard_step(Field::LastName, Field::Gender, q1, m1);
    let q2 = q1.with_field(Field::LastName, m1[0]->Some_0);
    let m2 = m1.drop_first();
    assert(m2[0] == msgs[2]);
    lemma_wizard_step(Field::Gender, Field::Street, q2, m2);
    let q3 = q2.with_field(Field::Gender, m2[0]->Some_0);
    let m3 = m2.drop_first();
    assert(m3[0] == msgs[3]);
    lemma_wizard_step(Field::Street, Field::City, q3, m3);
    let q4 = q3.with_field(Field::Street, m3[0]->Some_0);
    let m4 = m3.drop_first();
    assert(m4[0] == msgs[4]);
    lemma_wizard_step(Field::City, Field::Phone, q4, m4);
    let q5 = q4.with_field(Field::City, m4[0]->Some_0);
    let m5 = m4.drop_first();
    assert(m5[0] == msgs[5]);
    lemma_wizard_step(Field::Phone, Field::Email, q5, m5);
    let q6 = q5.with_field(Field::Phone, m5[0]->Some_0);
    let m6 = m5.drop_first();
    assert(m6[0] == msgs[6]);
    lemma_wizard_step(Field::Email, Field::Status, q6, m6);
    let q7 = q6.with_field(Field::Email, m6[0]->Some_0);
    let m7 = m6.drop_first();
    assert(m7[0] == msgs[7]);
    lemma_wizard_step(Field::Status, Field::StatusInfo, q7, m7);
    let q8 = q7.with_field(Field::Status, m7[0]->Some_0);
    let m8 = m7.drop_first();
    assert(m8[0] == msgs[8]);
    let q9 = q8.with_field(Field::StatusInfo, m8[0]->Some_0);
    assert(m8.drop_first().len() == 0);
    assert(run(DialogueState::Idle, q9, m8.drop_first()) == (
        DialogueState::Idle,
        q9,
        Seq::<Seq<char>>::empty(),
    ));
    assert(seq![completion_text()] + Seq::<Seq<char>>::empty() =~= seq![completion_text()]);
}

/// Two standalone edits of the status-specific field, on records whose
/// derived labels differ, are answered with different wording, both on
/// success and on retry.
pub proof fn lemma_label_changes_wording(first: Participant, second: Participant, first_text: String, second_text: String)
    requires
        label_text(first) != label_text(second),
    ensures
        turn_spec(
            Field::StatusInfo,
            DialogueState::AwaitingField(Field::StatusInfo, false),
            first,
            Some(first_text),
        ).reply != turn_spec(
            Field::StatusInfo,
            DialogueState::AwaitingField(Field::StatusInfo, false),
            second,
            Some(second_text),
        ).reply,
        turn_spec(
            Field::StatusInfo,
            DialogueState::AwaitingField(Field::StatusInfo, false),
            first,
            None,
        ).reply != turn_spec(
            Field::StatusInfo,
            DialogueState::AwaitingField(Field::StatusInfo, false),
            second,
            None,
        ).reply,
{
    let first_label = label_text(first);
    let second_label = label_text(second);
    assert(Seq::<char>::empty() + first_label =~= first_label);
    assert(Seq::<char>::empty() + second_label =~= second_label);
    lemma_infix_determined(Seq::empty(), first_label, second_label, " geändert."@);
    lemma_infix_determined(
        "Das habe ich nicht verstanden. Bitte gib deine "@,
        first_label,
        second_label,
        " ein."@,
    );
}

/// Sequences with equal prefix and suffix are equal only if their middles are.
proof fn lemma_infix_determined(a: Seq<char>, x: Seq<char>, y: Seq<char>, b: Seq<char>)
    ensures
        a + x + b == a + y + b ==> x == y,
{
    if a + x + b == a + y + b {
        let s = a + x + b;
        assert(s.len() == a.len() + x.len() + b.len());
        assert((a + y + b).len() == a.len() + y.len() + b.len());
        assert(x =~= s.subrange(a.len() as int, (a.len() + x.len()) as int));
        assert(y =~= (a + y + b).subrange(a.len() as int, (a.len() + y.len()) as int));
    }
}

} // verus!
