use registration_wizard::{
    capture, changed_confirmation, completion_message, conclude, dispatch, handle,
    receive_city, receive_email, receive_given_name, receive_last_name, receive_phone,
    receive_status_related_info, receive_street, retry_prompt, successor, DialogueState, Field,
    Participant,
};

const COMPLETION: &str = "Super! Damit habe ich alle Daten, die ich brauche.

Wenn du deine Daten ändern willst, nutze die /edit... Befehle. Diese findest du auch, wenn du dir deine Daten mittels /show_data anzeigen lässt.

Wenn Trainings anstehen, wirst du von mir benachrichtigt. Du kannst dann antworten und dich anmelden lassen.";

const ALL_FIELDS: [Field; 9] = [
    Field::GivenName,
    Field::LastName,
    Field::Gender,
    Field::Street,
    Field::City,
    Field::Phone,
    Field::Email,
    Field::Status,
    Field::StatusInfo,
];

fn field_of(p: &Participant, f: Field) -> Option<String> {
    match f {
        Field::GivenName => p.given_name.clone(),
        Field::LastName => p.last_name.clone(),
        Field::Gender => p.gender.clone(),
        Field::Street => p.street.clone(),
        Field::City => p.city.clone(),
        Field::Phone => p.phone.clone(),
        Field::Email => p.email.clone(),
        Field::Status => p.status.clone(),
        Field::StatusInfo => p.status_related_info.clone(),
    }
}

fn student(id: i64) -> Participant {
    let mut p = Participant::new(id);
    p.status = Some("Student".to_string());
    p
}

#[test]
fn new_participant_is_empty() {
    let p = Participant::new(42);
    assert_eq!(p.id, 42);
    for f in ALL_FIELDS {
        assert_eq!(field_of(&p, f), None);
    }
}

#[test]
fn given_name_in_wizard_moves_to_last_name() {
    let t = handle(
        Field::GivenName,
        DialogueState::AwaitingField(Field::GivenName, true),
        Participant::new(1),
        Some("Anna".to_string()),
    );
    assert_eq!(t.state, DialogueState::AwaitingField(Field::LastName, true));
    assert_eq!(t.participant.given_name, Some("Anna".to_string()));
    assert!(t.stored);
    assert_eq!(t.reply, None);
}

#[test]
fn status_info_in_wizard_completes() {
    let t = receive_status_related_info(
        DialogueState::AwaitingField(Field::StatusInfo, true),
        student(2),
        Some("12345".to_string()),
    );
    assert_eq!(t.state, DialogueState::Idle);
    assert_eq!(t.reply, Some(COMPLETION.to_string()));
    assert_eq!(t.participant.status_related_info, Some("12345".to_string()));
}

#[test]
fn edit_of_each_field_confirms_and_goes_idle() {
    let expected = [
        "Vorname geändert.",
        "Nachname geändert.",
        "Geschlecht geändert.",
        "Straße und Hausnummer geändert.",
        "Postleitzahl und Ort geändert.",
        "Telefonnummer geändert.",
        "E-Mail-Adresse geändert.",
        "Status geändert.",
        "Matrikelnummer geändert.",
    ];
    for (f, e) in ALL_FIELDS.iter().zip(expected.iter()) {
        let t = handle(
            *f,
            DialogueState::AwaitingField(*f, false),
            student(3),
            Some("neu".to_string()),
        );
        assert_eq!(field_of(&t.participant, *f), Some("neu".to_string()));
        assert_eq!(t.state, DialogueState::Idle);
        assert_eq!(t.reply, Some(e.to_string()));
        assert!(t.stored);
    }
}

#[test]
fn edit_keeps_other_fields() {
    let mut p = student(4);
    p.city = Some("50678 Köln".to_string());
    let t = receive_phone(
        DialogueState::AwaitingField(Field::Phone, false),
        p,
        Some("0221 123".to_string()),
    );
    assert_eq!(t.participant.phone, Some("0221 123".to_string()));
    assert_eq!(t.participant.city, Some("50678 Köln".to_string()));
    assert_eq!(t.participant.status, Some("Student".to_string()));
    assert_eq!(t.participant.id, 4);
}

#[test]
fn no_text_leaves_everything_and_prompts() {
    let expected = [
        "Das habe ich nicht verstanden. Bitte gib deinen Vornamen ein.",
        "Das habe ich nicht verstanden. Bitte gib deinen Nachnamen ein.",
        "Das habe ich nicht verstanden. Bitte gib dein Geschlecht an.",
        "Das habe ich nicht verstanden. Bitte gib deine Straße und deine Hausnummer ein. Beispiel: Musterstr. 123",
        "Das habe ich nicht verstanden. Bitte gib deine Postleitzahl und deinen Ort ein.\n\nBeispiel: 50678 Köln",
        "Das habe ich nicht verstanden. Bitte gib deine Telefonnummer ein.",
        "Das habe ich nicht verstanden. Bitte gib deine E-Mail-Adresse ein.",
        "Das habe ich nicht verstanden. Bitte gib deinen Status an.",
        "Das habe ich nicht verstanden. Bitte gib deine Matrikelnummer ein.",
    ];
    for b in [true, false] {
        for (f, e) in ALL_FIELDS.iter().zip(expected.iter()) {
            let mut p = student(5);
            p.email = Some("a@b.de".to_string());
            let state = DialogueState::AwaitingField(*f, b);
            let t = handle(*f, state, p, None);
            assert_eq!(t.state, state);
            assert!(!t.stored);
            assert_eq!(t.participant.email, Some("a@b.de".to_string()));
            assert_eq!(t.participant.status, Some("Student".to_string()));
            assert_eq!(field_of(&t.participant, *f), if *f == Field::Email {
                Some("a@b.de".to_string())
            } else if *f == Field::Status {
                Some("Student".to_string())
            } else {
                None
            });
            assert_eq!(t.reply, Some(e.to_string()));
        }
    }
}

#[test]
fn repeated_no_text_is_idempotent() {
    let mut state = DialogueState::AwaitingField(Field::City, true);
    let mut p = student(6);
    let mut replies = Vec::new();
    for _ in 0..5 {
        let t = receive_city(state, p, None);
        state = t.state;
        p = t.participant;
        replies.push(t.reply.unwrap());
    }
    assert_eq!(state, DialogueState::AwaitingField(Field::City, true));
    assert_eq!(p.city, None);
    assert_eq!(p.status, Some("Student".to_string()));
    assert!(replies.iter().all(|r| r == &replies[0]));
    assert_eq!(
        replies[0],
        "Das habe ich nicht verstanden. Bitte gib deine Postleitzahl und deinen Ort ein.\n\nBeispiel: 50678 Köln"
    );
}

#[test]
fn wizard_runs_to_completion() {
    let texts = [
        "Anna", "Muster", "weiblich", "Musterstr. 123", "50678 Köln", "0221 123", "anna@example.org",
        "Student", "12345",
    ];
    let mut state = DialogueState::AwaitingField(Field::GivenName, true);
    let mut p = Participant::new(7);
    let mut replies = Vec::new();
    for t in texts {
        let turn = dispatch(state, p, Some(t.to_string())).unwrap();
        assert!(turn.stored);
        state = turn.state;
        p = turn.participant;
        if let Some(r) = turn.reply {
            replies.push(r);
        }
    }
    assert_eq!(state, DialogueState::Idle);
    assert_eq!(replies, vec![COMPLETION.to_string()]);
    for (f, t) in ALL_FIELDS.iter().zip(texts.iter()) {
        assert_eq!(field_of(&p, *f), Some(t.to_string()));
    }
}

#[test]
fn dispatch_in_idle_does_nothing() {
    assert!(dispatch(DialogueState::Idle, Participant::new(8), Some("x".to_string())).is_none());
}

#[test]
fn label_change_changes_wording() {
    let mut p = Participant::new(9);
    p.status = Some("Student".to_string());
    let first = receive_status_related_info(
        DialogueState::AwaitingField(Field::StatusInfo, false),
        p,
        Some("12345".to_string()),
    );
    assert_eq!(first.reply, Some("Matrikelnummer geändert.".to_string()));
    let mut p = first.participant;
    p.status = Some("Angestellt".to_string());
    let second = receive_status_related_info(
        DialogueState::AwaitingField(Field::StatusInfo, false),
        p,
        Some("ACME".to_string()),
    );
    assert_eq!(second.reply, Some("Arbeitgeber geändert.".to_string()));
    assert_ne!(first.reply, second.reply);
    let retry = receive_status_related_info(
        DialogueState::AwaitingField(Field::StatusInfo, false),
        second.participant,
        None,
    );
    assert_eq!(
        retry.reply,
        Some("Das habe ich nicht verstanden. Bitte gib deine Arbeitgeber ein.".to_string())
    );
}

#[test]
fn status_info_without_status_uses_empty_label() {
    let p = Participant::new(10);
    assert_eq!(p.status_related_info_name(), None);
    assert_eq!(p.status_related_info_label(), "");
    let t = receive_status_related_info(
        DialogueState::AwaitingField(Field::StatusInfo, false),
        p,
        Some("x".to_string()),
    );
    assert_eq!(t.reply, Some(" geändert.".to_string()));
}

#[test]
fn status_related_info_name_follows_status() {
    assert_eq!(student(11).status_related_info_name(), Some("Matrikelnummer".to_string()));
    let mut p = Participant::new(11);
    p.status = Some("Selbstständig".to_string());
    assert_eq!(p.status_related_info_name(), Some("Arbeitgeber".to_string()));
}

#[test]
fn edit_mode_when_state_changed_to_idle_meanwhile() {
    let t = receive_given_name(DialogueState::Idle, Participant::new(12), Some("Ben".to_string()));
    assert_eq!(t.state, DialogueState::Idle);
    assert_eq!(t.reply, Some("Vorname geändert.".to_string()));
}

#[test]
fn each_receive_handler_writes_its_field() {
    let s = |f| DialogueState::AwaitingField(f, true);
    let p = Participant::new(13);
    let t = receive_given_name(s(Field::GivenName), p, Some("a".to_string()));
    assert_eq!(t.state, s(Field::LastName));
    let t = receive_last_name(s(Field::LastName), t.participant, Some("b".to_string()));
    assert_eq!(t.state, s(Field::Gender));
    let t = receive_street(s(Field::Street), t.participant, Some("c".to_string()));
    assert_eq!(t.state, s(Field::City));
    let t = receive_city(s(Field::City), t.participant, Some("d".to_string()));
    assert_eq!(t.state, s(Field::Phone));
    let t = receive_phone(s(Field::Phone), t.participant, Some("e".to_string()));
    assert_eq!(t.state, s(Field::Email));
    let t = receive_email(s(Field::Email), t.participant, Some("f".to_string()));
    assert_eq!(t.state, s(Field::Status));
    let p = t.participant;
    assert_eq!(p.given_name, Some("a".to_string()));
    assert_eq!(p.last_name, Some("b".to_string()));
    assert_eq!(p.street, Some("c".to_string()));
    assert_eq!(p.city, Some("d".to_string()));
    assert_eq!(p.phone, Some("e".to_string()));
    assert_eq!(p.email, Some("f".to_string()));
}

#[test]
fn capture_and_conclude_compose() {
    let mut p = Participant::new(14);
    assert!(!capture(Field::Street, &mut p, None));
    assert_eq!(p.street, None);
    assert!(capture(Field::Street, &mut p, Some("Weg 1".to_string())));
    assert_eq!(p.street, Some("Weg 1".to_string()));
    let (s, r) = conclude(Field::Street, DialogueState::AwaitingField(Field::Street, true), "");
    assert_eq!(s, DialogueState::AwaitingField(Field::City, true));
    assert_eq!(r, None);
    let (s, r) = conclude(Field::StatusInfo, DialogueState::AwaitingField(Field::StatusInfo, false), "Arbeitgeber");
    assert_eq!(s, DialogueState::Idle);
    assert_eq!(r, Some("Arbeitgeber geändert.".to_string()));
}

#[test]
fn texts_with_label_are_spliced() {
    assert_eq!(
        retry_prompt(Field::StatusInfo, "Schule"),
        "Das habe ich nicht verstanden. Bitte gib deine Schule ein."
    );
    assert_eq!(changed_confirmation(Field::StatusInfo, "Schule"), "Schule geändert.");
    assert_eq!(completion_message(), COMPLETION);
}

#[test]
fn successor_table() {
    let mut f = Field::GivenName;
    let mut seen = vec![f];
    while let Some(n) = successor(f) {
        seen.push(n);
        f = n;
    }
    assert_eq!(seen, ALL_FIELDS.to_vec());
    assert!(DialogueState::start_wizard().is_in_dialogue());
    assert!(!DialogueState::start_edit(Field::Email).is_in_dialogue());
    assert!(!DialogueState::Idle.is_in_dialogue());
}

#[test]
fn field_tags_round_trip() {
    for (i, f) in ALL_FIELDS.iter().enumerate() {
        assert_eq!(f.index() as usize, i);
        assert_eq!(Field::from_index(f.index()), Some(*f));
    }
    assert_eq!(Field::from_index(9), None);
    assert_eq!(Field::from_index(255), None);
}
