//! Inbound messages as the transport hands them to the engine.
use vstd::prelude::*;

verus! {

/// The sender of a message.
#[derive(Debug, Default)]
pub struct User {
    pub first_name: String,
    pub last_name: Option<String>,
    pub username: Option<String>,
}

/// One inbound message: the participant id, its raw text and its arrival time.
#[derive(Debug)]
pub struct UserInput {
    pub chat_id: i64,
    pub text: String,
    pub date: u64,
}

impl UserInput {
    pub fn new(chat_id: i64, text: String, date: u64) -> (r: UserInput)
        ensures
            r.chat_id == chat_id,
            r.text@ == text@,
            r.date == date,
    {
        UserInput { chat_id, text, date }
    }
}

} // verus!
