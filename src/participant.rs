use vstd::prelude::*;

verus! {

/// One editable attribute of a participant, in the order in which the
/// onboarding wizard asks for them.
#[derive(Clone, Copy, Debug, PartialEq, Eq, Structural)]
pub enum Field {
    GivenName,
    LastName,
    Gender,
    Street,
    City,
    Phone,
    Email,
    Status,
    StatusInfo,
}

impl Field {
    /// The position of the field in the wizard, used as its stored tag.
    pub open spec fn spec_index(self) -> u8 {
        match self {
            Field::GivenName => 0,
            Field::LastName => 1,
            Field::Gender => 2,
            Field::Street => 3,
            Field::City => 4,
            Field::Phone => 5,
            Field::Email => 6,
            Field::Status => 7,
            Field::StatusInfo => 8,
        }
    }

    /// The position of the field in the wizard, used as its stored tag.
    pub fn index(&self) -> (r: u8)
        ensures
            r == self.spec_index(),
            r < 9,
    {
        match self {
            Field::GivenName => 0,
            Field::LastName => 1,
            Field::Gender => 2,
            Field::Street => 3,
            Field::City => 4,
            Field::Phone => 5,
            Field::Email => 6,
            Field::Status => 7,
            Field::StatusInfo => 8,
        }
    }

    /// The field stored under tag `i`, or `None` for a tag that names none.
    pub fn from_index(i: u8) -> (r: Option<Field>)
        ensures
            r matches Some(f) ==> f.spec_index() == i,
            r is None <==> i >= 9,
    {
        match i {
            0 => Some(Field::GivenName),
            1 => Some(Field::LastName),
            2 => Some(Field::Gender),
            3 => Some(Field::Street),
            4 => Some(Field::City),
            5 => Some(Field::Phone),
            6 => Some(Field::Email),
            7 => Some(Field::Status),
            8 => Some(Field::StatusInfo),
            _ => None,
        }
    }
}

/// Reading back the stored tag of a field gives the field again.
pub proof fn lemma_index_round_trip(f: Field)
    ensures
        f.spec_index() < 9,
        forall|g: Field| #[trigger] g.spec_index() == f.spec_index() ==> g == f,
{
}

/// The record kept for one conversation. Every attribute is unset until the
/// participant supplies it.
#[derive(Clone, Debug)]
pub struct Participant {
    pub id: i64,
    pub given_name: Option<String>,
    pub last_name: Option<String>,
    pub gender: Option<String>,
    pub street: Option<String>,
    pub city: Option<String>,
    pub phone: Option<String>,
    pub email: Option<String>,
    pub status: Option<String>,
    pub status_related_info: Option<String>,
}

impl Participant {
    /// The value stored for field `f`.
    pub open spec fn field(self, f: Field) -> Option<String> {
        match f {
            Field::GivenName => self.given_name,
            Field::LastName => self.last_name,
            Field::Gender => self.gender,
            Field::Street => self.street,
            Field::City => self.city,
            Field::Phone => self.phone,
            Field::Email => self.email,
            Field::Status => self.status,
            Field::StatusInfo => self.status_related_info,
        }
    }

    /// This record with field `f` set to `v` and everything else kept.
    pub open spec fn with_field(self, f: Field, v: String) -> Participant {
        match f {
            Field::GivenName => Participant { given_name: Some(v), ..self },
            Field::LastName => Participant { last_name: Some(v), ..self },
            Field::Gender => Participant { gender: Some(v), ..self },
            Field::Street => Participant { street: Some(v), ..self },
            Field::City => Participant { city: Some(v), ..self },
            Field::Phone => Participant { phone: Some(v), ..self },
            Field::Email => Participant { email: Some(v), ..self },
            Field::Status => Participant { status: Some(v), ..self },
            Field::StatusInfo => Participant { status_related_info: Some(v), ..self },
        }
    }

    /// A fresh record for conversation `id`, with nothing filled in.
    pub fn new(id: i64) -> (p: Participant)
        ensures
            p.id == id,
            forall|f: Field| #[trigger] p.field(f) is None,
    {
        Participant {
            id,
            given_name: None,
            last_name: None,
            gender: None,
            street: None,
            city: None,
            phone: None,
            email: None,
            status: None,
            status_related_info: None,
        }
    }

    /// Stores `v` as the value of field `f`.
    pub fn set_field(&mut self, f: Field, v: String)
        ensures
            *final(self) == old(self).with_field(f, v),
    {
        match f {
            Field::GivenName => self.given_name = Some(v),
            Field::LastName => self.last_name = Some(v),
            Field::Gender => self.gender = Some(v),
            Field::Street => self.street = Some(v),
            Field::City => self.city = Some(v),
            Field::Phone => self.phone = Some(v),
            Field::Email => self.email = Some(v),
            Field::Status => self.status = Some(v),
            Field::StatusInfo => self.status_related_info = Some(v),
        }
    }
}

} // verus!
