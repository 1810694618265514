//! The conversational state engine: session data, dialogue states, the transition table and
//! the handlers that run on each transition.
use vstd::prelude::*;

use crate::error::Error;
use crate::clock::{parsed_time, shown_time, text_to_time, time_to_text, TIME_FORMAT};
use crate::event::{label, Event, UserDisplay};
use crate::reply::{
    is_shown, help_text, issue_reply, make_reply_text, manager_reply, period_reply,
    reply_help_event, reply_issue_event, reply_reg_manager, reply_report_event,
    reply_report_period_event, reply_start_event, reply_survey_event, scope_reply, start_text,
    survey_reply, ReplyEnum, ReplyView,
};
use crate::report::{report_reply, rows_report_text, Report, ReportType, TimeOffset};
use crate::store::{debounce, wait_for, SurveyEntry, User};
use crate::text::{is_name_text, is_plain_name, i64_to_text, signed_decimal, trim, trimmed};

verus! {

/// Problems reported during one survey round.
#[derive(Debug, Clone, Copy, PartialEq, Eq, Structural)]
pub struct Issues {
    pub no_network: bool,
    pub no_electricity: bool,
    pub impcat: u8,
}

impl Issues {
    /// No problem reported yet.
    pub fn new() -> (r: Issues)
        ensures
            r == no_issues(),
    {
        Issues { no_network: false, no_electricity: false, impcat: 0 }
    }
}

pub open spec fn no_issues() -> Issues {
    Issues { no_network: false, no_electricity: false, impcat: 0 }
}

/// A report request being put together: scope first, then window.
#[derive(Debug, Clone)]
pub struct ReportData {
    pub report_type: ReportType,
    pub offset: TimeOffset,
}

/// The scope of a report, as a mathematical value.
pub enum ReportTypeView {
    Me(i64),
    Team(Seq<char>),
    All,
}

pub open spec fn report_type_view(t: ReportType) -> ReportTypeView {
    match t {
        ReportType::Me(id) => ReportTypeView::Me(id),
        ReportType::Team(m) => ReportTypeView::Team(m@),
        ReportType::All => ReportTypeView::All,
    }
}

pub struct ReportDataView {
    pub report_type: ReportTypeView,
    pub offset: TimeOffset,
}

pub open spec fn fresh_request() -> ReportDataView {
    ReportDataView { report_type: ReportTypeView::All, offset: TimeOffset::Day(1) }
}

impl ReportData {
    pub open spec fn view(&self) -> ReportDataView {
        ReportDataView { report_type: report_type_view(self.report_type), offset: self.offset }
    }

    /// A request for everyone over one day.
    pub fn new() -> (r: ReportData)
        ensures
            r.view() == fresh_request(),
    {
        ReportData { report_type: ReportType::All, offset: TimeOffset::Day(1) }
    }
}

/// The per-participant session record threaded through every transition.
#[derive(Debug, Clone)]
pub struct Data {
    pub chat_id: i64,
    pub name: String,
    pub manager: String,
    pub utc: i64,
    pub issues: Option<Issues>,
    pub reply: Option<ReplyEnum>,
    pub report: Option<ReportData>,
}

/// The session record as a mathematical value.
pub struct DataView {
    pub chat_id: i64,
    pub name: Seq<char>,
    pub manager: Seq<char>,
    pub utc: i64,
    pub issues: Option<Issues>,
    pub reply: Option<ReplyView>,
    pub report: Option<ReportDataView>,
}

impl Data {
    pub open spec fn view(&self) -> DataView {
        DataView {
            chat_id: self.chat_id,
            name: self.name@,
            manager: self.manager@,
            utc: self.utc,
            issues: self.issues,
            reply: match self.reply {
                Some(r) => Some(r.view()),
                None => None,
            },
            report: match self.report {
                Some(r) => Some(r.view()),
                None => None,
            },
        }
    }

    /// Places the record, active as of `now`, at a dialogue position.
    pub fn wrap(self, tag: StateTag, now: i64) -> (r: State)
        ensures
            r.view() == (StateView { tag, data: DataView { utc: now, ..self.view() } }),
    {
        let mut data = self;
        data.utc = now;
        State::wrap(tag, data)
    }

    /// A fresh record for a participant seen for the first time.
    pub fn new(chat_id: i64) -> (r: Data)
        ensures
            r.view() == empty_data(chat_id),
    {
        Data {
            chat_id,
            name: String::new(),
            manager: String::new(),
            utc: 0,
            issues: None,
            reply: None,
            report: None,
        }
    }
}

pub open spec fn empty_data(chat_id: i64) -> DataView {
    DataView {
        chat_id,
        name: Seq::empty(),
        manager: Seq::empty(),
        utc: 0,
        issues: None,
        reply: None,
        report: None,
    }
}

/// The dialogue position of a session.
#[derive(Debug, Clone, Copy, PartialEq, Eq, Structural)]
pub enum StateTag {
    New,
    Idle,
    RegName,
    RegManager,
    SurvEntry,
    SurvMore,
    Report,
    ReportFrame,
}

/// A session: its dialogue position, wrapping its record.
#[derive(Debug, Clone)]
pub enum State {
    New(Data),
    Idle(Data),
    RegName(Data),
    RegManager(Data),
    SurvEntry(Data),
    SurvMore(Data),
    Report(Data),
    ReportFrame(Data),
}

pub struct StateView {
    pub tag: StateTag,
    pub data: DataView,
}

impl State {
    pub open spec fn tag_of(&self) -> StateTag {
        match self {
            State::New(_) => StateTag::New,
            State::Idle(_) => StateTag::Idle,
            State::RegName(_) => StateTag::RegName,
            State::RegManager(_) => StateTag::RegManager,
            State::SurvEntry(_) => StateTag::SurvEntry,
            State::SurvMore(_) => StateTag::SurvMore,
            State::Report(_) => StateTag::Report,
            State::ReportFrame(_) => StateTag::ReportFrame,
        }
    }

    pub open spec fn data_of(&self) -> Data {
        match self {
            State::New(d) => *d,
            State::Idle(d) => *d,
            State::RegName(d) => *d,
            State::RegManager(d) => *d,
            State::SurvEntry(d) => *d,
            State::SurvMore(d) => *d,
            State::Report(d) => *d,
            State::ReportFrame(d) => *d,
        }
    }

    pub open spec fn view(&self) -> StateView {
        StateView { tag: self.tag_of(), data: self.data_of().view() }
    }

    /// Places a record at a dialogue position.
    pub fn wrap(tag: StateTag, data: Data) -> (r: State)
        ensures
            r.tag_of() == tag,
            r.data_of() == data,
    {
        match tag {
            StateTag::New => State::New(data),
            StateTag::Idle => State::Idle(data),
            StateTag::RegName => State::RegName(data),
            StateTag::RegManager => State::RegManager(data),
            StateTag::SurvEntry => State::SurvEntry(data),
            StateTag::SurvMore => State::SurvMore(data),
            StateTag::Report => State::Report(data),
            StateTag::ReportFrame => State::ReportFrame(data),
        }
    }

    /// The dialogue position.
    pub fn tag(&self) -> (r: StateTag)
        ensures
            r == self.tag_of(),
    {
        match self {
            State::New(_) => StateTag::New,
            State::Idle(_) => StateTag::Idle,
            State::RegName(_) => StateTag::RegName,
            State::RegManager(_) => StateTag::RegManager,
            State::SurvEntry(_) => StateTag::SurvEntry,
            State::SurvMore(_) => StateTag::SurvMore,
            State::Report(_) => StateTag::Report,
            State::ReportFrame(_) => StateTag::ReportFrame,
        }
    }

    /// The record, given up by the state.
    pub fn into_data(self) -> (r: Data)
        ensures
            r == self.data_of(),
    {
        match self {
            State::New(d) => d,
            State::Idle(d) => d,
            State::RegName(d) => d,
            State::RegManager(d) => d,
            State::SurvEntry(d) => d,
            State::SurvMore(d) => d,
            State::Report(d) => d,
            State::ReportFrame(d) => d,
        }
    }

    /// The record.
    pub fn data(&self) -> (r: &Data)
        ensures
            *r == self.data_of(),
    {
        match self {
            State::New(d) => d,
            State::Idle(d) => d,
            State::RegName(d) => d,
            State::RegManager(d) => d,
            State::SurvEntry(d) => d,
            State::SurvMore(d) => d,
            State::Report(d) => d,
            State::ReportFrame(d) => d,
        }
    }

    /// The record, for changing it in place.
    pub fn data_mut(&mut self) -> (r: &mut Data)
        ensures
            *r == old(self).data_of(),
            final(self).tag_of() == old(self).tag_of(),
            final(self).data_of() == *final(r),
    {
        match self {
            State::New(d) => d,
            State::Idle(d) => d,
            State::RegName(d) => d,
            State::RegManager(d) => d,
            State::SurvEntry(d) => d,
            State::SurvMore(d) => d,
            State::Report(d) => d,
            State::ReportFrame(d) => d,
        }
    }

    /// The pending reply of the session.
    pub fn reply(&self) -> (r: Option<ReplyEnum>)
        ensures
            match r {
                Some(x) => self.data_of().reply matches Some(y) && x.view() == y.view(),
                None => self.data_of().reply is None,
            },
    {
        match &self.data().reply {
            Some(x) => Some(copy_reply(x)),
            None => None,
        }
    }
}

fn copy_rows(kb: &Vec<Vec<String>>) -> (r: Vec<Vec<String>>)
    ensures
        crate::reply::board_view(r@) == crate::reply::board_view(kb@),
{
    let mut out: Vec<Vec<String>> = Vec::new();
    let mut i: usize = 0;
    while i < kb.len()
        invariant
            i <= kb@.len(),
            out@.len() == i,
            forall|k: int|
                0 <= k < i ==> (#[trigger] out@[k])@.map_values(|s: String| s@) == kb@[k]@.map_values(
                    |s: String| s@,
                ),
        decreases kb@.len() - i,
    {
        let row = &kb[i];
        let mut cells: Vec<String> = Vec::new();
        let mut j: usize = 0;
        while j < row.len()
            invariant
                j <= row@.len(),
                cells@.len() == j,
                forall|k: int| 0 <= k < j ==> (#[trigger] cells@[k])@ == row@[k]@,
            decreases row@.len() - j,
        {
            cells.push(row[j].clone());
            j = j + 1;
        }
        assert(cells@.map_values(|s: String| s@) =~= row@.map_values(|s: String| s@));
        out.push(cells);
        i = i + 1;
    }
    assert(crate::reply::board_view(out@) =~= crate::reply::board_view(kb@));
    out
}

/// A copy of a reply with the same content.
pub fn copy_reply(r: &ReplyEnum) -> (c: ReplyEnum)
    ensures
        c.view() == r.view(),
{
    match r {
        ReplyEnum::Text(t) => ReplyEnum::Text(t.clone()),
        ReplyEnum::KeyboardMenu(m) => ReplyEnum::KeyboardMenu(
            crate::reply::ReplyMenu { text: m.text.clone(), keyboard: copy_rows(&m.keyboard) },
        ),
        ReplyEnum::KeyboardInline(m) => ReplyEnum::KeyboardInline(
            crate::reply::ReplyInline { text: m.text.clone(), keyboard: copy_rows(&m.keyboard) },
        ),
        ReplyEnum::NoReply => ReplyEnum::NoReply,
    }
}

/// The work a transition does on the session record.
#[derive(Debug, Clone, Copy, PartialEq, Eq, Structural)]
pub enum Handler {
    Start,
    Help,
    Survey,
    RegName,
    RegManager,
    SurveyAllright,
    SurveyMore,
    SurveyIssue,
    Report,
    ReportOffset,
    ReportType,
}

pub open spec fn is_manager_choice(e: Event) -> bool {
    e is LMMikhail || e is LMElina || e is LMOleksandr || e is LMVladyslav || e is LMYevgen
}

pub open spec fn is_issue(e: Event) -> bool {
    e is NoNetwork || e is NoElectricity || e is FullBlackout
}

pub open spec fn is_scope(e: Event) -> bool {
    e is ReportMe || e is ReportTeam || e is ReportAll
}

pub open spec fn is_window(e: Event) -> bool {
    e is ReportOffsetDay || e is ReportOffsetWeek || e is ReportOffsetMonth
}

/// The declared pairs: for a position and an event, the fallback position, the success
/// position and the handler.
pub open spec fn declared(tag: StateTag, e: Event) -> Option<(StateTag, StateTag, Handler)> {
    match tag {
        StateTag::New => if e is Start {
            Some((StateTag::New, StateTag::RegName, Handler::Start))
        } else {
            None
        },
        StateTag::Idle => if e is Start || e is Survey {
            Some((StateTag::Idle, StateTag::SurvEntry, Handler::Survey))
        } else if e is Report {
            Some((StateTag::Idle, StateTag::Report, Handler::Report))
        } else {
            None
        },
        StateTag::RegName => if e is Start {
            Some((StateTag::RegName, StateTag::RegName, Handler::Start))
        } else if e is Name {
            Some((StateTag::RegName, StateTag::RegManager, Handler::RegName))
        } else {
            None
        },
        StateTag::RegManager => if is_manager_choice(e) {
            Some((StateTag::RegManager, StateTag::SurvEntry, Handler::RegManager))
        } else if e is Start {
            Some((StateTag::RegManager, StateTag::RegName, Handler::Start))
        } else {
            None
        },
        StateTag::SurvEntry => if e is Start || e is Survey {
            Some((StateTag::SurvEntry, StateTag::SurvEntry, Handler::Survey))
        } else if e is Allright {
            Some((StateTag::SurvEntry, StateTag::Idle, Handler::SurveyAllright))
        } else if e is More {
            Some((StateTag::SurvEntry, StateTag::SurvMore, Handler::SurveyMore))
        } else if e is Report {
            Some((StateTag::SurvEntry, StateTag::Report, Handler::Report))
        } else {
            None
        },
        StateTag::SurvMore => if e is Start || e is Survey {
            Some((StateTag::SurvMore, StateTag::SurvEntry, Handler::Survey))
        } else if is_issue(e) {
            Some((StateTag::SurvMore, StateTag::Idle, Handler::SurveyIssue))
        } else if e is Back {
            Some((StateTag::SurvMore, StateTag::SurvEntry, Handler::Survey))
        } else if e is Report {
            Some((StateTag::SurvMore, StateTag::Report, Handler::Report))
        } else {
            None
        },
        StateTag::Report => if is_scope(e) {
            Some((StateTag::Report, StateTag::ReportFrame, Handler::ReportType))
        } else if e is Survey {
            Some((StateTag::Report, StateTag::SurvEntry, Handler::Survey))
        } else {
            None
        },
        StateTag::ReportFrame => if e is Back {
            Some((StateTag::ReportFrame, StateTag::Report, Handler::Report))
        } else if is_window(e) {
            Some((StateTag::ReportFrame, StateTag::Idle, Handler::ReportOffset))
        } else if e is Survey {
            Some((StateTag::ReportFrame, StateTag::SurvEntry, Handler::Survey))
        } else {
            None
        },
    }
}

fn declared_pair(tag: StateTag, e: &Event) -> (r: Option<(StateTag, StateTag, Handler)>)
    ensures
        r == declared(tag, *e),
{
    match tag {
        StateTag::New => match e {
            Event::Start => Some((StateTag::New, StateTag::RegName, Handler::Start)),
            _ => None,
        },
        StateTag::Idle => match e {
            Event::Start | Event::Survey => Some(
                (StateTag::Idle, StateTag::SurvEntry, Handler::Survey),
            ),
            Event::Report => Some((StateTag::Idle, StateTag::Report, Handler::Report)),
            _ => None,
        },
        StateTag::RegName => match e {
            Event::Start => Some((StateTag::RegName, StateTag::RegName, Handler::Start)),
            Event::Name(_) => Some((StateTag::RegName, StateTag::RegManager, Handler::RegName)),
            _ => None,
        },
        StateTag::RegManager => match e {
            Event::LMElina | Event::LMMikhail | Event::LMOleksandr | Event::LMVladyslav
            | Event::LMYevgen => Some(
                (StateTag::RegManager, StateTag::SurvEntry, Handler::RegManager),
            ),
            Event::Start => Some((StateTag::RegManager, StateTag::RegName, Handler::Start)),
            _ => None,
        },
        StateTag::SurvEntry => match e {
            Event::Start | Event::Survey => Some(
                (StateTag::SurvEntry, StateTag::SurvEntry, Handler::Survey),
            ),
            Event::Allright => Some((StateTag::SurvEntry, StateTag::Idle, Handler::SurveyAllright)),
            Event::More => Some((StateTag::SurvEntry, StateTag::SurvMore, Handler::SurveyMore)),
            Event::Report => Some((StateTag::SurvEntry, StateTag::Report, Handler::Report)),
            _ => None,
        },
        StateTag::SurvMore => match e {
            Event::Start | Event::Survey => Some(
                (StateTag::SurvMore, StateTag::SurvEntry, Handler::Survey),
            ),
            Event::NoElectricity | Event::NoNetwork | Event::FullBlackout => Some(
                (StateTag::SurvMore, StateTag::Idle, Handler::SurveyIssue),
            ),
            Event::Back => Some((StateTag::SurvMore, StateTag::SurvEntry, Handler::Survey)),
            Event::Report => Some((StateTag::SurvMore, StateTag::Report, Handler::Report)),
            _ => None,
        },
        StateTag::Report => match e {
            Event::ReportMe | Event::ReportTeam | Event::ReportAll => Some(
                (StateTag::Report, StateTag::ReportFrame, Handler::ReportType),
            ),
            Event::Survey => Some((StateTag::Report, StateTag::SurvEntry, Handler::Survey)),
            _ => None,
        },
        StateTag::ReportFrame => match e {
            Event::Back => Some((StateTag::ReportFrame, StateTag::Report, Handler::Report)),
            Event::ReportOffsetDay | Event::ReportOffsetWeek | Event::ReportOffsetMonth => Some(
                (StateTag::ReportFrame, StateTag::Idle, Handler::ReportOffset),
            ),
            Event::Survey => Some((StateTag::ReportFrame, StateTag::SurvEntry, Handler::Survey)),
            _ => None,
        },
    }
}

/// The effect of feeding an event into a state.
pub enum Transition {
    /// Run the handler, then land in `success` or, if it fails, in `fallback`.
    Valid { fallback: StateTag, success: StateTag, data: Data, event: Event, handler: Handler },
    /// Run the handler on the state's record and stay in the state.
    General { next: State, event: Event, handler: Handler },
    /// Stay in the state; nothing runs.
    Shallow { next: State, event: Event },
}

pub enum TransitionView {
    Valid {
        fallback: StateTag,
        success: StateTag,
        data: DataView,
        event: Event,
        handler: Handler,
    },
    General { next: StateView, event: Event, handler: Handler },
    Shallow { next: StateView, event: Event },
}

impl Transition {
    pub open spec fn view(&self) -> TransitionView {
        match self {
            Transition::Valid { fallback, success, data, event, handler } => TransitionView::Valid {
                fallback: *fallback,
                success: *success,
                data: data.view(),
                event: *event,
                handler: *handler,
            },
            Transition::General { next, event, handler } => TransitionView::General {
                next: next.view(),
                event: *event,
                handler: *handler,
            },
            Transition::Shallow { next, event } => TransitionView::Shallow {
                next: next.view(),
                event: *event,
            },
        }
    }

    pub fn make_valid(
        wrap_fallback: StateTag,
        wrap: StateTag,
        data: Data,
        event: Event,
        func: Handler,
    ) -> (r: Transition)
        ensures
            r == (Transition::Valid {
                fallback: wrap_fallback,
                success: wrap,
                data,
                event,
                handler: func,
            }),
    {
        Transition::Valid { fallback: wrap_fallback, success: wrap, data, event, handler: func }
    }

    pub fn make_general(next: State, event: Event, func: Handler) -> (r: Transition)
        ensures
            r == (Transition::General { next, event, handler: func }),
    {
        Transition::General { next, event, handler: func }
    }

    pub fn make_shallow(next: State, event: Event) -> (r: Transition)
        ensures
            r == (Transition::Shallow { next, event }),
    {
        Transition::Shallow { next, event }
    }
}

/// The record with its pending reply cleared.
pub open spec fn cleared(d: DataView) -> DataView {
    DataView { reply: None, ..d }
}

/// What feeding `e` into `s` yields: a declared pair branches on its handler; Help runs in
/// place from every state; Rename restarts registration from every state; anything else leaves
/// the state as it is. The pending reply is cleared first in every case.
pub open spec fn spec_consume(s: StateView, e: Event) -> TransitionView {
    let d = cleared(s.data);
    match declared(s.tag, e) {
        Some(p) => TransitionView::Valid {
            fallback: p.0,
            success: p.1,
            data: d,
            event: e,
            handler: p.2,
        },
        None => if e is Help {
            TransitionView::General {
                next: StateView { tag: s.tag, data: d },
                event: e,
                handler: Handler::Help,
            }
        } else if e is Rename {
            TransitionView::Valid {
                fallback: StateTag::Idle,
                success: StateTag::RegName,
                data: d,
                event: e,
                handler: Handler::Start,
            }
        } else {
            TransitionView::Shallow { next: StateView { tag: s.tag, data: d }, event: e }
        },
    }
}

impl State {
    /// Feeds an event into the state, after clearing the pending reply.
    pub fn consume(self, e: Event) -> (r: Transition)
        ensures
            r.view() == spec_consume(self.view(), e),
    {
        let tag = self.tag();
        let mut data = self.into_data();
        data.reply = None;
        assert(data.view() == cleared(self.view().data));
        match declared_pair(tag, &e) {
            Some(p) => Transition::make_valid(p.0, p.1, data, e, p.2),
            None => match e {
                Event::Help => Transition::make_general(State::wrap(tag, data), e, Handler::Help),
                Event::Rename => Transition::make_valid(
                    StateTag::Idle,
                    StateTag::RegName,
                    data,
                    e,
                    Handler::Start,
                ),
                _ => Transition::make_shallow(State::wrap(tag, data), e),
            },
        }
    }
}

/// What the storage collaborator is asked before a transition's handler runs.
#[derive(Debug, Clone)]
pub enum Request {
    Nothing,
    /// Insert or update the identity record, keyed by the participant id.
    SaveUser(User),
    /// The timestamp text of the participant's latest survey row, if any.
    LastSurvey(i64),
    /// The survey rows in scope and window.
    Rows(ReportType, TimeOffset),
}

pub enum RequestView {
    Nothing,
    SaveUser { name: Seq<char>, manager: Seq<char>, chat_id: i64 },
    LastSurvey(i64),
    Rows(ReportTypeView, TimeOffset),
}

impl Request {
    pub open spec fn view(&self) -> RequestView {
        match self {
            Request::Nothing => RequestView::Nothing,
            Request::SaveUser(u) => RequestView::SaveUser {
                name: u.name@,
                manager: u.manager@,
                chat_id: u.chat_id,
            },
            Request::LastSurvey(id) => RequestView::LastSurvey(*id),
            Request::Rows(t, o) => RequestView::Rows(report_type_view(*t), *o),
        }
    }
}

/// What the storage collaborator answered.
#[derive(Debug)]
pub enum Answer {
    Nothing,
    /// The identity record was saved, or the storage's error message.
    Saved(Result<(), String>),
    /// The timestamp text of the latest survey row, or `None` when there is none.
    LastSurvey(Option<String>),
    /// The rows, or the storage's error message.
    Rows(Result<Vec<Report>, String>),
}

/// A survey row to store: the identity to look up (and insert if missing), then the entry.
#[derive(Debug, Clone)]
pub struct SurveySave {
    pub user: User,
    pub entry: SurveyEntry,
}

pub struct SaveView {
    pub chat_id: i64,
    pub name: Seq<char>,
    pub manager: Seq<char>,
    pub timestamp: Seq<char>,
    pub electricity: bool,
    pub network: bool,
}

pub open spec fn save_view(s: SurveySave) -> SaveView {
    SaveView {
        chat_id: s.user.chat_id,
        name: s.user.name@,
        manager: s.user.manager@,
        timestamp: s.entry.timestamp@,
        electricity: s.entry.electricity,
        network: s.entry.network,
    }
}

pub open spec fn opt_save_view(s: Option<SurveySave>) -> Option<SaveView> {
    match s {
        Some(x) => Some(save_view(x)),
        None => None,
    }
}

/// What a handler leaves behind: the record, whether it succeeded, and a row to store.
pub struct Outcome {
    pub data: DataView,
    pub ok: bool,
    pub save: Option<SaveView>,
}

pub open spec fn with_reply(d: DataView, r: ReplyView) -> DataView {
    DataView { reply: Some(r), ..d }
}

pub open spec fn replied(d: DataView, r: ReplyView) -> Outcome {
    Outcome { data: with_reply(d, r), ok: true, save: None }
}

/// The survey row the record stands for: its identity, its time, and the services working.
pub open spec fn save_of(d: DataView) -> SaveView {
    SaveView {
        chat_id: d.chat_id,
        name: d.name,
        manager: d.manager,
        timestamp: shown_time(d.utc),
        electricity: match d.issues {
            Some(i) => !i.no_electricity,
            None => true,
        },
        network: match d.issues {
            Some(i) => !i.no_network,
            None => true,
        },
    }
}

pub open spec fn prior_time(a: Answer) -> Option<i64> {
    match a {
        Answer::LastSurvey(Some(ts)) => parsed_time(ts@, TIME_FORMAT@),
        _ => None,
    }
}

pub open spec fn prior_text(a: Answer) -> Seq<char> {
    match a {
        Answer::LastSurvey(Some(ts)) => ts@,
        _ => Seq::empty(),
    }
}

pub open spec fn busy_text(now: i64, last: Seq<char>, minutes: i64) -> Seq<char> {
    "Too many requests now: "@ + shown_time(now) + ", last on: "@ + last + ", plesase wait for "@
        + signed_decimal(minutes as int) + " minute(s) "@
}

/// A survey save: stored with a farewell, or refused with the wait while the cooldown runs.
pub open spec fn survey_saved(d: DataView, a: Answer, now: i64) -> Outcome {
    match wait_for(prior_time(a), now) {
        None => Outcome {
            data: with_reply(d, ReplyView::Text("Take care"@)),
            ok: true,
            save: Some(save_of(d)),
        },
        Some(m) => Outcome {
            data: with_reply(d, ReplyView::Text(busy_text(now, prior_text(a), m))),
            ok: true,
            save: None,
        },
    }
}

pub open spec fn with_issue(d: DataView, e: Event) -> DataView {
    let base = match d.issues {
        Some(i) => i,
        None => no_issues(),
    };
    let i = match e {
        Event::NoNetwork => Issues { no_network: true, ..base },
        Event::NoElectricity => Issues { no_electricity: true, ..base },
        Event::FullBlackout => Issues { no_network: true, no_electricity: true, ..base },
        _ => base,
    };
    DataView { issues: Some(i), ..d }
}

pub open spec fn report_base(d: DataView) -> ReportDataView {
    match d.report {
        Some(r) => r,
        None => fresh_request(),
    }
}

/// The record with the report scope chosen by `e`: oneself, one's manager's team, or everyone.
pub open spec fn with_scope(d: DataView, e: Event) -> DataView {
    let b = report_base(d);
    let t = match e {
        Event::ReportMe => ReportTypeView::Me(d.chat_id),
        Event::ReportTeam => ReportTypeView::Team(d.manager),
        Event::ReportAll => ReportTypeView::All,
        _ => b.report_type,
    };
    DataView { report: Some(ReportDataView { report_type: t, ..b }), ..d }
}

/// The record with the report window chosen by `e`: a day, a week or a month back.
pub open spec fn with_window(d: DataView, e: Event) -> DataView {
    let b = report_base(d);
    let o = match e {
        Event::ReportOffsetDay => TimeOffset::Day(-1i64),
        Event::ReportOffsetWeek => TimeOffset::Day(-7i64),
        Event::ReportOffsetMonth => TimeOffset::Month(-1i64),
        _ => b.offset,
    };
    DataView { report: Some(ReportDataView { offset: o, ..b }), ..d }
}

pub open spec fn answered_rows(a: Answer) -> Seq<Report> {
    match a {
        Answer::Rows(Ok(v)) => v@,
        _ => Seq::empty(),
    }
}

pub open spec fn manager_saved(d: DataView, e: Event, a: Answer) -> Outcome {
    let d2 = DataView { manager: label(e), ..d };
    match a {
        Answer::Saved(Ok(_)) => replied(d2, survey_reply()),
        Answer::Saved(Err(m)) => Outcome {
            data: with_reply(d2, ReplyView::Text("Can't save: "@ + m@)),
            ok: false,
            save: None,
        },
        _ => Outcome {
            data: with_reply(d2, ReplyView::Text("Can't save: "@)),
            ok: false,
            save: None,
        },
    }
}

pub open spec fn name_taken(d: DataView, e: Event) -> Outcome {
    match e {
        Event::Name(s) => if is_plain_name(s@) {
            Outcome {
                data: DataView { name: trimmed(s@), reply: Some(manager_reply()), ..d },
                ok: true,
                save: None,
            }
        } else {
            Outcome {
                data: with_reply(d, ReplyView::Text("Only characters allowed"@)),
                ok: false,
                save: None,
            }
        },
        _ => Outcome { data: d, ok: false, save: None },
    }
}

/// What each handler does to the record, given the storage's answer and the current time.
pub open spec fn spec_handle(h: Handler, d: DataView, e: Event, a: Answer, now: i64) -> Outcome {
    match h {
        Handler::Start => replied(d, ReplyView::Text(start_text())),
        Handler::Help => replied(d, ReplyView::Text(help_text())),
        Handler::Survey => replied(d, survey_reply()),
        Handler::SurveyMore => replied(d, issue_reply()),
        Handler::Report => replied(d, scope_reply()),
        Handler::RegName => name_taken(d, e),
        Handler::RegManager => manager_saved(d, e, a),
        Handler::SurveyAllright => survey_saved(DataView { issues: None, ..d }, a, now),
        Handler::SurveyIssue => {
            let o = survey_saved(with_issue(d, e), a, now);
            Outcome { ok: is_issue(e), ..o }
        },
        Handler::ReportType => Outcome {
            data: with_reply(with_scope(d, e), period_reply()),
            ok: is_scope(e),
            save: None,
        },
        Handler::ReportOffset => {
            let d2 = with_window(d, e);
            Outcome {
                data: with_reply(
                    d2,
                    ReplyView::Text(
                        rows_report_text(answered_rows(a), report_base(d2).offset, now),
                    ),
                ),
                ok: is_window(e),
                save: None,
            }
        },
    }
}

/// What the storage is asked for before handler `h` runs on record `d` with event `e`.
pub open spec fn request_for(h: Handler, d: DataView, e: Event) -> RequestView {
    match h {
        Handler::RegManager => RequestView::SaveUser {
            name: d.name,
            manager: label(e),
            chat_id: d.chat_id,
        },
        Handler::SurveyAllright => RequestView::LastSurvey(d.chat_id),
        Handler::SurveyIssue => RequestView::LastSurvey(d.chat_id),
        Handler::ReportOffset => {
            let b = report_base(with_window(d, e));
            RequestView::Rows(b.report_type, b.offset)
        },
        _ => RequestView::Nothing,
    }
}

pub open spec fn spec_request(t: TransitionView) -> RequestView {
    match t {
        TransitionView::Valid { data, event, handler, .. } => request_for(handler, data, event),
        TransitionView::General { next, event, handler } => request_for(handler, next.data, event),
        TransitionView::Shallow { .. } => RequestView::Nothing,
    }
}

/// Committing a transition: a branching one lands in its success or fallback position with the
/// record as the handler left it (no rollback) and the activity time refreshed; a general one
/// stays in place after its handler; a shallow one changes nothing.
pub open spec fn spec_transit(t: TransitionView, a: Answer, now: i64) -> (StateView, Option<SaveView>) {
    match t {
        TransitionView::Valid { fallback, success, data, event, handler } => {
            let o = spec_handle(handler, data, event, a, now);
            (
                StateView {
                    tag: if o.ok {
                        success
                    } else {
                        fallback
                    },
                    data: DataView { utc: now, ..o.data },
                },
                o.save,
            )
        },
        TransitionView::General { next, event, handler } => {
            let o = spec_handle(handler, next.data, event, a, now);
            (StateView { tag: next.tag, data: o.data }, o.save)
        },
        TransitionView::Shallow { next, .. } => (next, None),
    }
}

fn copy_report_type(t: &ReportType) -> (r: ReportType)
    ensures
        report_type_view(r) == report_type_view(*t),
{
    match t {
        ReportType::Me(id) => ReportType::Me(*id),
        ReportType::Team(m) => ReportType::Team(m.clone()),
        ReportType::All => ReportType::All,
    }
}

impl Data {
    fn set_reply(&mut self, r: ReplyEnum)
        ensures
            final(self).view() == with_reply(old(self).view(), r.view()),
    {
        self.reply = Some(r);
    }

    /// The survey row this record stands for.
    pub fn save_record(&self) -> (r: SurveySave)
        ensures
            save_view(r) == save_of(self.view()),
            r.user.id == 0,
            r.entry.id == 0,
            r.entry.user_id == 0,
    {
        let (electricity, network) = match self.issues {
            Some(i) => (!i.no_electricity, !i.no_network),
            None => (true, true),
        };
        SurveySave {
            user: User {
                id: 0,
                name: self.name.clone(),
                manager: self.manager.clone(),
                chat_id: self.chat_id,
            },
            entry: SurveyEntry {
                id: 0,
                user_id: 0,
                timestamp: time_to_text(self.utc),
                electricity,
                network,
            },
        }
    }

    fn busy_message(now: i64, last: &str, minutes: i64) -> (r: String)
        ensures
            r@ == busy_text(now, last@, minutes),
    {
        let now_text = time_to_text(now);
        let m = i64_to_text(minutes);
        String::from_str("Too many requests now: ").concat(now_text.as_str()).concat(
            ", last on: ",
        ).concat(last).concat(", plesase wait for ").concat(m.as_str()).concat(" minute(s) ")
    }

    /// Attempts a survey save under the spacing rule, given the time text of the latest row.
    fn survey_save(&mut self, a: &Answer, now: i64) -> (r: Option<SurveySave>)
        ensures
            final(self).view() == survey_saved(old(self).view(), *a, now).data,
            opt_save_view(r) == survey_saved(old(self).view(), *a, now).save,
    {
        match survey_save(self, a, now) {
            Ok(rec) => {
                self.set_reply(make_reply_text("Take care"));
                Some(rec)
            },
            Err(e) => {
                let msg = match e {
                    Error::Verbose(m) => m,
                    Error::Default => String::new(),
                };
                self.set_reply(ReplyEnum::Text(msg));
                None
            },
        }
    }

    fn on_reg_name(&mut self, e: &Event) -> (ok: bool)
        ensures
            final(self).view() == name_taken(old(self).view(), *e).data,
            ok == name_taken(old(self).view(), *e).ok,
    {
        match e {
            Event::Name(name) => {
                if is_name_text(name.as_str()) {
                    self.name = trim(name.as_str());
                    self.set_reply(reply_reg_manager());
                    true
                } else {
                    self.set_reply(make_reply_text("Only characters allowed"));
                    false
                }
            },
            _ => false,
        }
    }

    fn on_reg_manager(&mut self, e: &Event, a: &Answer) -> (ok: bool)
        ensures
            final(self).view() == manager_saved(old(self).view(), *e, *a).data,
            ok == manager_saved(old(self).view(), *e, *a).ok,
    {
        self.manager = e.to_user_string();
        match a {
            Answer::Saved(Ok(_)) => {
                self.set_reply(reply_survey_event());
                true
            },
            Answer::Saved(Err(m)) => {
                let t = String::from_str("Can't save: ").concat(m.as_str());
                self.set_reply(ReplyEnum::Text(t));
                false
            },
            _ => {
                self.set_reply(make_reply_text("Can't save: "));
                false
            },
        }
    }

    fn on_survey_issue(&mut self, e: &Event, a: &Answer, now: i64) -> (r: (
        bool,
        Option<SurveySave>,
    ))
        ensures
            final(self).view() == spec_handle(Handler::SurveyIssue, old(self).view(), *e, *a, now).data,
            r.0 == spec_handle(Handler::SurveyIssue, old(self).view(), *e, *a, now).ok,
            opt_save_view(r.1) == spec_handle(Handler::SurveyIssue, old(self).view(), *e, *a, now).save,
    {
        let base = match self.issues {
            Some(i) => i,
            None => Issues::new(),
        };
        let (i, ok) = match e {
            Event::NoNetwork => (Issues { no_network: true, ..base }, true),
            Event::NoElectricity => (Issues { no_electricity: true, ..base }, true),
            Event::FullBlackout => (Issues { no_network: true, no_electricity: true, ..base }, true),
            _ => (base, false),
        };
        self.issues = Some(i);
        let save = self.survey_save(a, now);
        (ok, save)
    }

    fn current_request(&self) -> (r: ReportData)
        ensures
            r.view() == report_base(self.view()),
    {
        match &self.report {
            Some(r) => ReportData { report_type: copy_report_type(&r.report_type), offset: r.offset },
            None => ReportData::new(),
        }
    }

    fn on_report_type(&mut self, e: &Event) -> (ok: bool)
        ensures
            final(self).view() == with_reply(with_scope(old(self).view(), *e), period_reply()),
            ok == is_scope(*e),
    {
        let base = self.current_request();
        let (t, ok) = match e {
            Event::ReportMe => (ReportType::Me(self.chat_id), true),
            Event::ReportTeam => (ReportType::Team(self.manager.clone()), true),
            Event::ReportAll => (ReportType::All, true),
            _ => (base.report_type, false),
        };
        self.report = Some(ReportData { report_type: t, offset: base.offset });
        self.set_reply(reply_report_period_event());
        ok
    }

    fn window_request(&self, e: &Event) -> (r: ReportData)
        ensures
            r.view() == report_base(with_window(self.view(), *e)),
    {
        let base = self.current_request();
        let o = match e {
            Event::ReportOffsetDay => TimeOffset::Day(-1),
            Event::ReportOffsetWeek => TimeOffset::Day(-7),
            Event::ReportOffsetMonth => TimeOffset::Month(-1),
            _ => base.offset,
        };
        ReportData { report_type: base.report_type, offset: o }
    }

    fn on_report_offset(&mut self, e: &Event, a: &Answer, now: i64) -> (ok: bool)
        ensures
            final(self).view() == spec_handle(Handler::ReportOffset, old(self).view(), *e, *a, now).data,
            ok == is_window(*e),
    {
        let req = self.window_request(e);
        let offset = req.offset;
        self.report = Some(req);
        let text = match a {
            Answer::Rows(Ok(rows)) => report_reply(rows, offset, now),
            _ => {
                let none: Vec<Report> = Vec::new();
                assert(none@ =~= answered_rows(*a));
                report_reply(&none, offset, now)
            },
        };
        self.set_reply(ReplyEnum::Text(text));
        match e {
            Event::ReportOffsetDay | Event::ReportOffsetWeek | Event::ReportOffsetMonth => true,
            _ => false,
        }
    }

    /// Runs a handler on the record.
    pub fn handle(&mut self, h: Handler, e: &Event, a: &Answer, now: i64) -> (r: (
        bool,
        Option<SurveySave>,
    ))
        ensures
            final(self).view() == spec_handle(h, old(self).view(), *e, *a, now).data,
            r.0 == spec_handle(h, old(self).view(), *e, *a, now).ok,
            opt_save_view(r.1) == spec_handle(h, old(self).view(), *e, *a, now).save,
    {
        match h {
            Handler::Start => {
                self.set_reply(reply_start_event());
                (true, None)
            },
            Handler::Help => {
                self.set_reply(reply_help_event());
                (true, None)
            },
            Handler::Survey => {
                self.set_reply(reply_survey_event());
                (true, None)
            },
            Handler::SurveyMore => {
                self.set_reply(reply_issue_event());
                (true, None)
            },
            Handler::Report => {
                self.set_reply(reply_report_event());
                (true, None)
            },
            Handler::RegName => (self.on_reg_name(e), None),
            Handler::RegManager => (self.on_reg_manager(e, a), None),
            Handler::SurveyAllright => {
                self.issues = None;
                let save = self.survey_save(a, now);
                (true, save)
            },
            Handler::SurveyIssue => self.on_survey_issue(e, a, now),
            Handler::ReportType => (self.on_report_type(e), None),
            Handler::ReportOffset => (self.on_report_offset(e, a, now), None),
        }
    }
}

fn request_for_exec(h: Handler, d: &Data, e: &Event) -> (r: Request)
    ensures
        r.view() == request_for(h, d.view(), *e),
{
    match h {
        Handler::RegManager => Request::SaveUser(
            User { id: 0, name: d.name.clone(), manager: e.to_user_string(), chat_id: d.chat_id },
        ),
        Handler::SurveyAllright => Request::LastSurvey(d.chat_id),
        Handler::SurveyIssue => Request::LastSurvey(d.chat_id),
        Handler::ReportOffset => {
            let b = d.window_request(e);
            Request::Rows(b.report_type, b.offset)
        },
        _ => Request::Nothing,
    }
}

/// How raw text is read in a given position: verbatim as a name while registering the name,
/// else as the first event whose label it contains, or no event.
pub open spec fn text_event(tag: StateTag, text: Seq<char>, e: Event) -> bool {
    if tag == StateTag::RegName {
        e matches Event::Name(s) && s@ == text
    } else {
        ||| crate::event::matches_lowered(crate::text::lower_of(text), Some(e))
        ||| (e is NoEvent && crate::event::matches_lowered(crate::text::lower_of(text), None))
    }
}

impl Transition {
    /// What the storage must be asked before this transition commits.
    pub fn request(&self) -> (r: Request)
        ensures
            r.view() == spec_request(self.view()),
    {
        match self {
            Transition::Valid { data, event, handler, .. } => request_for_exec(*handler, data, event),
            Transition::General { next, event, handler } => request_for_exec(
                *handler,
                next.data(),
                event,
            ),
            Transition::Shallow { .. } => Request::Nothing,
        }
    }

    /// Commits the transition, given the storage's answer to `request` and the current time;
    /// also yields the survey row to store, if the handler saved one.
    pub fn transit(self, answer: &Answer, now: i64) -> (r: (State, Option<SurveySave>))
        ensures
            (r.0.view(), opt_save_view(r.1)) == spec_transit(self.view(), *answer, now),
    {
        match self {
            Transition::Valid { fallback, success, data, event, handler } => {
                let mut data = data;
                let (ok, save) = data.handle(handler, &event, answer, now);
                let tag = if ok {
                    success
                } else {
                    fallback
                };
                (data.wrap(tag, now), save)
            },
            Transition::General { next, event, handler } => {
                let mut next = next;
                let tag = next.tag();
                let mut data = next.into_data();
                let (_, save) = data.handle(handler, &event, answer, now);
                (State::wrap(tag, data), save)
            },
            Transition::Shallow { next, .. } => (next, None),
        }
    }
}

impl State {
    /// Reads raw text in this position and feeds the resulting event into the state.
    pub fn consume_as_str(self, text: &str) -> (r: Transition)
        ensures
            exists|e: Event| text_event(self.view().tag, text@, e) && r.view() == spec_consume(self.view(), e),
    {
        let tag = self.tag();
        let ghost v = self.view();
        match tag {
            StateTag::RegName => {
                let e = Event::Name(String::from_str(text));
                assert(text_event(v.tag, text@, e));
                self.consume(e)
            },
            _ => match Event::from_string(text) {
                Some(e) => {
                    assert(text_event(v.tag, text@, e));
                    self.consume(e)
                },
                None => {
                    assert(text_event(v.tag, text@, Event::NoEvent));
                    self.consume(Event::NoEvent)
                },
            },
        }
    }
}

/// Help, from every state, keeps the dialogue position and the record, stores nothing, and
/// answers with the (non-empty) list of commands.
pub proof fn lemma_help_keeps_state(s: StateView, a: Answer, now: i64)
    ensures
        spec_transit(spec_consume(s, Event::Help), a, now).0.tag == s.tag,
        spec_transit(spec_consume(s, Event::Help), a, now).0.data == with_reply(
            s.data,
            ReplyView::Text(help_text()),
        ),
        spec_transit(spec_consume(s, Event::Help), a, now).1 is None,
        is_shown(ReplyView::Text(help_text())),
{
    reveal_strlit(
        "/help - Prints this help\n/start - Start of registration\n/survey - Start servey\n/report - Generate report\n/rename - Change name report\n",
    );
}

/// Feeding any event clears the pending reply before anything else happens.
pub proof fn lemma_consume_clears_reply(s: StateView, e: Event)
    ensures
        match spec_consume(s, e) {
            TransitionView::Valid { data, .. } => data == cleared(s.data),
            TransitionView::General { next, .. } => next.tag == s.tag && next.data == cleared(s.data),
            TransitionView::Shallow { next, .. } => next.tag == s.tag && next.data == cleared(s.data),
        },
{
}

/// An event that matches no declared pair (and is neither Help nor Rename) leaves the state as
/// it was, with no reply and nothing stored.
pub proof fn lemma_unmatched_turn_is_silent(s: StateView, e: Event, a: Answer, now: i64)
    requires
        declared(s.tag, e) is None,
        !(e is Help),
        !(e is Rename),
    ensures
        spec_transit(spec_consume(s, e), a, now).0 == (StateView { tag: s.tag, data: cleared(s.data) }),
        spec_transit(spec_consume(s, e), a, now).0.data.reply is None,
        spec_transit(spec_consume(s, e), a, now).1 is None,
{
}

/// While registering the name, a name of letters, digits and whitespace moves on to the
/// manager choice with the trimmed name; any other name stays put with an error reply.
pub proof fn lemma_name_registration(d: DataView, e: Event, a: Answer, now: i64)
    requires
        e is Name,
    ensures
        ({
            let s2 = spec_transit(spec_consume(StateView { tag: StateTag::RegName, data: d }, e), a, now).0;
            match e {
                Event::Name(t) => if is_plain_name(t@) {
                    s2.tag == StateTag::RegManager && s2.data.name == trimmed(t@) && s2.data.reply
                        == Some(manager_reply())
                } else {
                    s2.tag == StateTag::RegName && s2.data.name == d.name && s2.data.reply == Some(
                        ReplyView::Text("Only characters allowed"@),
                    )
                },
                _ => false,
            }
        }),
{
}

/// Choosing a manager asks the storage to save the identity (name, the manager's label,
/// participant id); when the choice has to be sent again from the manager choice, it asks
/// for the very same record.
pub proof fn lemma_manager_choice_repeatable(d: DataView, e: Event, a: Answer, now: i64)
    requires
        is_manager_choice(e),
    ensures
        spec_request(spec_consume(StateView { tag: StateTag::RegManager, data: d }, e))
            == (RequestView::SaveUser { name: d.name, manager: label(e), chat_id: d.chat_id }),
        ({
            let t1 = spec_consume(StateView { tag: StateTag::RegManager, data: d }, e);
            let s2 = spec_transit(t1, a, now).0;
            s2.tag == StateTag::RegManager ==> spec_request(spec_consume(s2, e)) == spec_request(
                t1,
            )
        }),
{
}

fn copy_report_data(r: &ReportData) -> (c: ReportData)
    ensures
        c.view() == r.view(),
{
    ReportData { report_type: copy_report_type(&r.report_type), offset: r.offset }
}

impl Data {
    /// A copy of the record with the same content.
    pub fn duplicate(&self) -> (r: Data)
        ensures
            r.view() == self.view(),
    {
        Data {
            chat_id: self.chat_id,
            name: self.name.clone(),
            manager: self.manager.clone(),
            utc: self.utc,
            issues: self.issues,
            reply: match &self.reply {
                Some(x) => Some(copy_reply(x)),
                None => None,
            },
            report: match &self.report {
                Some(x) => Some(copy_report_data(x)),
                None => None,
            },
        }
    }

    /// The record of a participant known from a stored survey row, active as of `now`.
    pub fn restore(row: &Report, now: i64) -> (r: Data)
        ensures
            r.view() == restored(*row, now),
    {
        Data {
            chat_id: row.chat_id,
            name: row.name.clone(),
            manager: row.manager.clone(),
            utc: now,
            issues: None,
            reply: None,
            report: None,
        }
    }
}

pub open spec fn restored(row: Report, now: i64) -> DataView {
    DataView {
        chat_id: row.chat_id,
        name: row.name@,
        manager: row.manager@,
        utc: now,
        issues: None,
        reply: None,
        report: None,
    }
}

impl State {
    /// A copy of the state with the same content.
    pub fn duplicate(&self) -> (r: State)
        ensures
            r.view() == self.view(),
    {
        State::wrap(self.tag(), self.data().duplicate())
    }
}

/// The survey save of a record under the spacing rule, given the storage's answer for the
/// participant's latest row: the row to store, or the refusal naming the wait in minutes.
/// No latest row, or one whose time does not parse, lets the save through.
pub fn survey_save(data: &Data, a: &Answer, now: i64) -> (r: Result<SurveySave, Error>)
    ensures
        match wait_for(prior_time(*a), now) {
            None => r matches Ok(rec) && save_view(rec) == save_of(data.view()) && rec.user.id == 0
                && rec.entry.user_id == 0,
            Some(m) => r matches Err(Error::Verbose(msg)) && msg@ == busy_text(
                now,
                prior_text(*a),
                m,
            ),
        },
{
    let prior = match a {
        Answer::LastSurvey(Some(ts)) => text_to_time(ts.as_str()),
        _ => None,
    };
    match debounce(prior, now) {
        None => Ok(data.save_record()),
        Some(m) => {
            let msg = match a {
                Answer::LastSurvey(Some(ts)) => Data::busy_message(now, ts.as_str(), m),
                _ => {
                    let empty = String::new();
                    Data::busy_message(now, empty.as_str(), m)
                },
            };
            Err(Error::Verbose(msg))
        },
    }
}

} // verus!
