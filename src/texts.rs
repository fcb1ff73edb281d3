use vstd::prelude::*;
use crate::participant::{Field, Participant};

verus! {

/// The category label of the status-specific field: a student gives a
/// matriculation number, everybody else an employer.
pub open spec fn label_for_status(status: Seq<char>) -> Seq<char> {
    if status == "Student"@ {
        "Matrikelnummer"@
    } else {
        "Arbeitgeber"@
    }
}

/// The label of the status-specific field, derived from the participant's
/// status category, or `None` while no status is set.
pub open spec fn status_info_name(p: Participant) -> Option<Seq<char>> {
    match p.status {
        Some(s) => Some(label_for_status(s@)),
        None => None,
    }
}

/// The label used in prompts: the derived label, or empty while there is none.
pub open spec fn label_text(p: Participant) -> Seq<char> {
    match status_info_name(p) {
        Some(l) => l,
        None => Seq::empty(),
    }
}

/// The reply to a message without text while field `f` is awaited.
pub open spec fn retry_text(f: Field, label: Seq<char>) -> Seq<char> {
    match f {
        Field::GivenName => "Das habe ich nicht verstanden. Bitte gib deinen Vornamen ein."@,
        Field::LastName => "Das habe ich nicht verstanden. Bitte gib deinen Nachnamen ein."@,
        Field::Gender => "Das habe ich nicht verstanden. Bitte gib dein Geschlecht an."@,
        Field::Street => "Das habe ich nicht verstanden. Bitte gib deine Straße und deine Hausnummer ein. Beispiel: Musterstr. 123"@,
        Field::City => "Das habe ich nicht verstanden. Bitte gib deine Postleitzahl und deinen Ort ein.\n\nBeispiel: 50678 Köln"@,
        Field::Phone => "Das habe ich nicht verstanden. Bitte gib deine Telefonnummer ein."@,
        Field::Email => "Das habe ich nicht verstanden. Bitte gib deine E-Mail-Adresse ein."@,
        Field::Status => "Das habe ich nicht verstanden. Bitte gib deinen Status an."@,
        Field::StatusInfo => "Das habe ich nicht verstanden. Bitte gib deine "@ + label + " ein."@,
    }
}

/// The confirmation of a standalone edit of field `f`.
pub open spec fn changed_text(f: Field, label: Seq<char>) -> Seq<char> {
    match f {
        Field::GivenName => "Vorname geändert."@,
        Field::LastName => "Nachname geändert."@,
        Field::Gender => "Geschlecht geändert."@,
        Field::Street => "Straße und Hausnummer geändert."@,
        Field::City => "Postleitzahl und Ort geändert."@,
        Field::Phone => "Telefonnummer geändert."@,
        Field::Email => "E-Mail-Adresse geändert."@,
        Field::Status => "Status geändert."@,
        Field::StatusInfo => label + " geändert."@,
    }
}

/// The message that ends the onboarding wizard.
pub open spec fn completion_text() -> Seq<char> {
    "Super! Damit habe ich alle Daten, die ich brauche.

Wenn du deine Daten ändern willst, nutze die /edit... Befehle. Diese findest du auch, wenn du dir deine Daten mittels /show_data anzeigen lässt.

Wenn Trainings anstehen, wirst du von mir benachrichtigt. Du kannst dann antworten und dich anmelden lassen."@
}



/// Relies on String::push_str: appends the characters of `t` to `s`.
#[verifier::external_body]
fn append(s: &mut String, t: &str)
    ensures
        final(s)@ == old(s)@ + t@,
{
    s.push_str(t)
}

impl Participant {
    /// The label of the status-specific field, derived afresh from the
    /// status category; `None` while no status is set.
    pub fn status_related_info_name(&self) -> (r: Option<String>)
        ensures
            r matches Some(l) ==> status_info_name(*self) == Some(l@),
            r is None <==> status_info_name(*self) is None,
    {
        match &self.status {
            Some(s) => {
                let student = "Student".to_owned();
                if s.eq(&student) {
                    Some("Matrikelnummer".to_owned())
                } else {
                    Some("Arbeitgeber".to_owned())
                }
            },
            None => None,
        }
    }

    /// The label used in prompts: empty while no status is set.
    pub fn status_related_info_label(&self) -> (r: String)
        ensures
            r@ == label_text(*self),
    {
        match self.status_related_info_name() {
            Some(l) => l,
            None => {
                proof {
                    reveal_strlit("");
                }
                "".to_owned()
            },
        }
    }
}

/// The reply to a message without text while field `f` is awaited.
pub fn retry_prompt(f: Field, label: &str) -> (r: String)
    ensures
        r@ == retry_text(f, label@),
{
    match f {
        Field::GivenName => "Das habe ich nicht verstanden. Bitte gib deinen Vornamen ein.".to_owned(),
        Field::LastName => "Das habe ich nicht verstanden. Bitte gib deinen Nachnamen ein.".to_owned(),
        Field::Gender => "Das habe ich nicht verstanden. Bitte gib dein Geschlecht an.".to_owned(),
        Field::Street => "Das habe ich nicht verstanden. Bitte gib deine Straße und deine Hausnummer ein. Beispiel: Musterstr. 123".to_owned(),
        Field::City => "Das habe ich nicht verstanden. Bitte gib deine Postleitzahl und deinen Ort ein.\n\nBeispiel: 50678 Köln".to_owned(),
        Field::Phone => "Das habe ich nicht verstanden. Bitte gib deine Telefonnummer ein.".to_owned(),
        Field::Email => "Das habe ich nicht verstanden. Bitte gib deine E-Mail-Adresse ein.".to_owned(),
        Field::Status => "Das habe ich nicht verstanden. Bitte gib deinen Status an.".to_owned(),
        Field::StatusInfo => {
            let mut s = "Das habe ich nicht verstanden. Bitte gib deine ".to_owned();
            append(&mut s, label);
            append(&mut s, " ein.");
            s
        },
    }
}

/// The confirmation of a standalone edit of field `f`.
pub fn changed_confirmation(f: Field, label: &str) -> (r: String)
    ensures
        r@ == changed_text(f, label@),
{
    match f {
        Field::GivenName => "Vorname geändert.".to_owned(),
        Field::LastName => "Nachname geändert.".to_owned(),
        Field::Gender => "Geschlecht geändert.".to_owned(),
        Field::Street => "Straße und Hausnummer geändert.".to_owned(),
        Field::City => "Postleitzahl und Ort geändert.".to_owned(),
        Field::Phone => "Telefonnummer geändert.".to_owned(),
        Field::Email => "E-Mail-Adresse geändert.".to_owned(),
        Field::Status => "Status geändert.".to_owned(),
        Field::StatusInfo => {
            let mut s = label.to_owned();
            append(&mut s, " geändert.");
            s
        },
    }
}

/// The message that ends the onboarding wizard.
pub fn completion_message() -> (r: String)
    ensures
        r@ == completion_text(),
{
    "Super! Damit habe ich alle Daten, die ich brauche.

Wenn du deine Daten ändern willst, nutze die /edit... Befehle. Diese findest du auch, wenn du dir deine Daten mittels /show_data anzeigen lässt.

Wenn Trainings anstehen, wirst du von mir benachrichtigt. Du kannst dann antworten und dich anmelden lassen.".to_owned()
}

} // verus!
