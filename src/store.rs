//! Records exchanged with the storage collaborator, and the spacing rule between saves.
use vstd::prelude::*;

verus! {

/// A participant's identity record.
#[derive(Debug, Clone)]
pub struct User {
    pub id: u64,
    pub name: String,
    pub manager: String,
    pub chat_id: i64,
}

impl User {
    /// The placeholder identity.
    pub fn new() -> (r: User)
        ensures
            r.id == 0,
            r.name@ == "John Doe"@,
            r.manager@ == "Richard Roe"@,
            r.chat_id == 0,
    {
        User {
            id: 0,
            name: String::from_str("John Doe"),
            manager: String::from_str("Richard Roe"),
            chat_id: 0,
        }
    }
}

/// One survey submission as stored.
#[derive(Debug, Clone)]
pub struct SurveyEntry {
    pub id: u64,
    pub user_id: u64,
    pub timestamp: String,
    pub electricity: bool,
    pub network: bool,
}

impl SurveyEntry {
    /// An empty submission: no time, both services working.
    pub fn new() -> (r: SurveyEntry)
        ensures
            r.id == 0,
            r.user_id == 0,
            r.timestamp@.len() == 0,
            r.electricity,
            r.network,
    {
        SurveyEntry {
            id: 0,
            user_id: 0,
            timestamp: String::new(),
            electricity: true,
            network: true,
        }
    }
}

/// Minimum spacing between two saved surveys of one participant, in seconds.
pub const COOLDOWN: i64 = 600;

/// Seconds still to wait before a save is allowed, after one at `last`, at `now`.
pub open spec fn cooldown_left(last: int, now: int) -> int {
    COOLDOWN as int - (now - last)
}

/// The spacing rule: `None` when a save may go ahead at `now`, else the wait in whole minutes
/// (the remaining cooldown's whole minutes, plus one).
pub open spec fn wait_for(last: Option<i64>, now: i64) -> Option<i64> {
    match last {
        None => None,
        Some(t) => if cooldown_left(t as int, now as int) > 0 {
            Some((cooldown_left(t as int, now as int) / 60 + 1) as i64)
        } else {
            None
        },
    }
}

/// Applies the spacing rule to the time of the participant's previous save, if any.
pub fn debounce(last: Option<i64>, now: i64) -> (r: Option<i64>)
    ensures
        r == wait_for(last, now),
{
    match last {
        None => None,
        Some(t) => {
            let left: i128 = (COOLDOWN as i128) - ((now as i128) - (t as i128));
            if left > 0 {
                Some((left / 60 + 1) as i64)
            } else {
                None
            }
        },
    }
}

} // verus!
