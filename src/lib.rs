//! A registration wizard: the dialogue state machine that collects a
//! participant's personal data one field per message, and edits single fields.
pub mod dialogue;
pub mod engine;
pub mod laws;
pub mod participant;
pub mod texts;

pub use dialogue::{successor, DialogueState};
pub use engine::{
    capture, conclude, dispatch, handle, receive_city, receive_email, receive_given_name,
    receive_last_name, receive_phone, receive_status_related_info, receive_street, Turn,
};
pub use participant::{Field, Participant};
pub use texts::{changed_confirmation, completion_message, retry_prompt};
