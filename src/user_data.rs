//! The session store: one state per participant, addressed by participant id.
use vstd::prelude::*;

use crate::clock::DAY;
use crate::error::Error;
use crate::event::Event;
use crate::fsm::{
    opt_save_view, spec_consume, spec_transit, restored, text_event, Answer, Data, State,
    StateTag, StateView, SurveySave, Transition, empty_data,
};
use crate::reply::ReplyEnum;
use crate::report::Report;

verus! {

pub open spec fn key(s: State) -> i64 {
    s.data_of().chat_id
}

/// The chat ids of the states, in order.
pub open spec fn keys(t: Seq<State>) -> Seq<i64> {
    t.map_values(|s: State| key(s))
}

/// The chat ids of the states idle for more than a day as of `now`, in order.
pub open spec fn expired_keys(t: Seq<State>, now: i64) -> Seq<i64>
    decreases t.len(),
{
    if t.len() == 0 {
        Seq::empty()
    } else {
        let prev = expired_keys(t.drop_last(), now);
        if now as int - t.last().data_of().utc as int > DAY as int {
            prev.push(key(t.last()))
        } else {
            prev
        }
    }
}

/// The chat ids of the states with an unresolved issue report, in order.
pub open spec fn issue_keys(t: Seq<State>) -> Seq<i64>
    decreases t.len(),
{
    if t.len() == 0 {
        Seq::empty()
    } else {
        let prev = issue_keys(t.drop_last());
        if t.last().data_of().issues is Some {
            prev.push(key(t.last()))
        } else {
            prev
        }
    }
}

/// The last row for participant `id`, if any.
pub open spec fn last_row_for(rows: Seq<Report>, id: i64) -> Option<Report>
    decreases rows.len(),
{
    if rows.len() == 0 {
        None
    } else if rows.last().chat_id == id {
        Some(rows.last())
    } else {
        last_row_for(rows.drop_last(), id)
    }
}

/// The sessions of all participants seen so far.
pub struct UserData {
    user_data_table: Vec<State>,
}

impl UserData {
    pub closed spec fn states(&self) -> Seq<State> {
        self.user_data_table@
    }

    /// No two sessions share a participant id.
    pub open spec fn wf(&self) -> bool {
        forall|i: int, j: int|
            0 <= i < j < self.states().len() ==> key(self.states()[i]) != key(self.states()[j])
    }

    pub open spec fn has(&self, id: i64) -> bool {
        exists|i: int| 0 <= i < self.states().len() && key(#[trigger] self.states()[i]) == id
    }

    /// The session of participant `id`, if one exists.
    pub open spec fn session(&self, id: i64) -> Option<StateView> {
        if self.has(id) {
            Some(
                self.states()[choose|i: int|
                    0 <= i < self.states().len() && key(#[trigger] self.states()[i]) == id].view(),
            )
        } else {
            None
        }
    }

    proof fn lemma_session_at(&self, i: int)
        requires
            self.wf(),
            0 <= i < self.states().len(),
        ensures
            self.session(key(self.states()[i])) == Some(self.states()[i].view()),
    {
        let id = key(self.states()[i]);
        assert(self.has(id));
        let j = choose|j: int| 0 <= j < self.states().len() && key(#[trigger] self.states()[j]) == id;
        if j != i {
            if j < i {
                assert(key(self.states()[j]) != key(self.states()[i]));
            } else {
                assert(key(self.states()[i]) != key(self.states()[j]));
            }
        }
    }

    /// An empty store.
    pub fn new() -> (r: UserData)
        ensures
            r.wf(),
            forall|id: i64| r.session(id) is None,
    {
        UserData { user_data_table: Vec::new() }
    }

    fn find(&self, id: i64) -> (r: Option<usize>)
        ensures
            match r {
                Some(i) => i < self.states().len() && key(self.states()[i as int]) == id,
                None => !self.has(id),
            },
    {
        let mut i: usize = 0;
        while i < self.user_data_table.len()
            invariant
                i <= self.states().len(),
                forall|k: int| 0 <= k < i ==> key(#[trigger] self.states()[k]) != id,
            decreases self.states().len() - i,
        {
            if self.user_data_table[i].data().chat_id == id {
                return Some(i);
            }
            i = i + 1;
        }
        None
    }

    /// Stores a state as the session of its participant, replacing the previous one.
    pub fn insert(&mut self, s: State)
        requires
            old(self).wf(),
        ensures
            final(self).wf(),
            final(self).session(key(s)) == Some(s.view()),
            forall|id: i64| id != key(s) ==> final(self).session(id) == old(self).session(id),
    {
        let ghost k = key(s);
        let ghost before = *self;
        match self.find(s.data().chat_id) {
            Some(i) => {
                self.user_data_table.set(i, s);
                proof {
                    self.lemma_session_at(i as int);
                    assert forall|id: i64| id != k implies self.session(id) == before.session(id) by {
                        if before.has(id) {
                            let j = choose|j: int|
                                0 <= j < before.states().len() && key(#[trigger] before.states()[j]) == id;
                            assert(self.states()[j] == before.states()[j]);
                            before.lemma_session_at(j);
                            self.lemma_session_at(j);
                        }
                        if self.has(id) {
                            let j = choose|j: int|
                                0 <= j < self.states().len() && key(#[trigger] self.states()[j]) == id;
                            assert(before.states()[j] == self.states()[j]);
                        }
                    }
                }
            },
            None => {
                self.user_data_table.push(s);
                proof {
                    let n = before.states().len() as int;
                    assert(self.states()[n] == s);
                    assert forall|i: int, j: int|
                        0 <= i < j < self.states().len() implies key(self.states()[i]) != key(
                            self.states()[j],
                        ) by {
                        if j == n {
                            assert(before.states()[i] == self.states()[i]);
                        }
                    }
                    self.lemma_session_at(n);
                    assert forall|id: i64| id != k implies self.session(id) == before.session(id) by {
                        if before.has(id) {
                            let j = choose|j: int|
                                0 <= j < before.states().len() && key(#[trigger] before.states()[j]) == id;
                            assert(self.states()[j] == before.states()[j]);
                            before.lemma_session_at(j);
                            self.lemma_session_at(j);
                        }
                        if self.has(id) {
                            let j = choose|j: int|
                                0 <= j < self.states().len() && key(#[trigger] self.states()[j]) == id;
                            if j < n {
                                assert(before.states()[j] == self.states()[j]);
                            }
                        }
                    }
                }
            },
        }
    }

    /// The session of participant `chat_id`, if one exists.
    pub fn get(&self, chat_id: i64) -> (r: Option<&State>)
        requires
            self.wf(),
        ensures
            match r {
                Some(s) => self.session(chat_id) == Some(s.view()),
                None => self.session(chat_id) is None,
            },
    {
        match self.find(chat_id) {
            Some(i) => {
                proof {
                    self.lemma_session_at(i as int);
                }
                Some(&self.user_data_table[i])
            },
            None => None,
        }
    }

    /// Restores an idle session, active as of `now`, for each participant of the stored rows;
    /// a later row of a participant wins over an earlier one.
    pub fn init(self, rows: &Vec<Report>, now: i64) -> (r: UserData)
        requires
            self.wf(),
        ensures
            r.wf(),
            forall|id: i64|
                #[trigger] r.session(id) == match last_row_for(rows@, id) {
                    Some(row) => Some(StateView { tag: StateTag::Idle, data: restored(row, now) }),
                    None => self.session(id),
                },
    {
        let mut store = self;
        let mut i: usize = 0;
        while i < rows.len()
            invariant
                i <= rows@.len(),
                store.wf(),
                forall|id: i64|
                    #[trigger] store.session(id) == match last_row_for(rows@.subrange(0, i as int), id) {
                        Some(row) => Some(StateView { tag: StateTag::Idle, data: restored(row, now) }),
                        None => self.session(id),
                    },
            decreases rows@.len() - i,
        {
            let s = Data::restore(&rows[i], now).wrap(StateTag::Idle, now);
            store.insert(s);
            proof {
                assert(rows@.subrange(0, i + 1).drop_last() =~= rows@.subrange(0, i as int));
            }
            i = i + 1;
        }
        proof {
            assert(rows@.subrange(0, rows@.len() as int) =~= rows@);
        }
        store
    }

    /// The participant ids of all sessions.
    pub fn collect_chat_ids(&self) -> (r: Vec<i64>)
        ensures
            r@ == keys(self.states()),
    {
        let mut out: Vec<i64> = Vec::new();
        let mut i: usize = 0;
        while i < self.user_data_table.len()
            invariant
                i <= self.states().len(),
                out@ == keys(self.states().subrange(0, i as int)),
            decreases self.states().len() - i,
        {
            out.push(self.user_data_table[i].data().chat_id);
            i = i + 1;
            assert(out@ =~= keys(self.states().subrange(0, i as int)));
        }
        assert(self.states().subrange(0, self.states().len() as int) =~= self.states());
        out
    }

    /// The participant ids whose last activity is more than a day before `now`.
    pub fn find_expired(&self, now: i64) -> (r: Vec<i64>)
        ensures
            r@ == expired_keys(self.states(), now),
    {
        let mut out: Vec<i64> = Vec::new();
        let mut i: usize = 0;
        while i < self.user_data_table.len()
            invariant
                i <= self.states().len(),
                out@ == expired_keys(self.states().subrange(0, i as int), now),
            decreases self.states().len() - i,
        {
            let d = self.user_data_table[i].data();
            proof {
                assert(self.states().subrange(0, i + 1).drop_last() =~= self.states().subrange(0, i as int));
            }
            if (now as i128) - (d.utc as i128) > (DAY as i128) {
                out.push(d.chat_id);
            }
            i = i + 1;
        }
        assert(self.states().subrange(0, self.states().len() as int) =~= self.states());
        out
    }

    /// The participant ids with an unresolved issue report.
    pub fn find_with_issues(&self) -> (r: Vec<i64>)
        ensures
            r@ == issue_keys(self.states()),
    {
        let mut out: Vec<i64> = Vec::new();
        let mut i: usize = 0;
        while i < self.user_data_table.len()
            invariant
                i <= self.states().len(),
                out@ == issue_keys(self.states().subrange(0, i as int)),
            decreases self.states().len() - i,
        {
            let d = self.user_data_table[i].data();
            proof {
                assert(self.states().subrange(0, i + 1).drop_last() =~= self.states().subrange(0, i as int));
            }
            if d.issues.is_some() {
                out.push(d.chat_id);
            }
            i = i + 1;
        }
        assert(self.states().subrange(0, self.states().len() as int) =~= self.states());
        out
    }

    /// Starts a turn: reads the text against the participant's session, or against a new
    /// session (active as of `now`) for a participant not seen before. The store is unchanged
    /// until the turn is finished.
    pub fn begin(&self, chat_id: i64, text: &str, now: i64) -> (r: Transition)
        requires
            self.wf(),
        ensures
            exists|e: Event| text_event(
                self.start_of(chat_id, now).tag,
                text@,
                e,
            ) && r.view() == spec_consume(self.start_of(chat_id, now), e),
    {
        let s = match self.find(chat_id) {
            Some(i) => {
                proof {
                    self.lemma_session_at(i as int);
                }
                self.user_data_table[i].duplicate()
            },
            None => Data::new(chat_id).wrap(StateTag::New, now),
        };
        s.consume_as_str(text)
    }

    /// The state a turn of participant `chat_id` starts from.
    pub open spec fn start_of(&self, chat_id: i64, now: i64) -> StateView {
        match self.session(chat_id) {
            Some(s) => s,
            None => StateView { tag: StateTag::New, data: crate::fsm::DataView { utc: now, ..empty_data(chat_id) } },
        }
    }

    /// Finishes a turn: commits the transition with the storage's answer, stores the new state
    /// as its participant's session, and hands back the reply (or, when the turn gave none,
    /// an error naming the skipped input) and the survey row to store, if any.
    pub fn finish(&mut self, t: Transition, answer: &Answer, now: i64, text: &str) -> (r: (
        Result<ReplyEnum, Error>,
        Option<SurveySave>,
    ))
        requires
            old(self).wf(),
        ensures
            final(self).wf(),
            ({
                let (sv, save) = spec_transit(t.view(), *answer, now);
                &&& final(self).session(sv.data.chat_id) == Some(sv)
                &&& forall|id: i64| id != sv.data.chat_id ==> final(self).session(id) == old(self).session(id)
                &&& opt_save_view(r.1) == save
                &&& match r.0 {
                    Ok(reply) => sv.data.reply == Some(reply.view()),
                    Err(e) => sv.data.reply is None && (e matches Error::Verbose(msg) && msg@
                        == "Skipped input: "@ + text@),
                }
            }),
    {
        let (s, save) = t.transit(answer, now);
        let reply = s.reply();
        self.insert(s);
        match reply {
            Some(x) => (Ok(x), save),
            None => {
                let msg = String::from_str("Skipped input: ").concat(text);
                (Err(Error::Verbose(msg)), save)
            },
        }
    }
}

} // verus!
