//! The closed vocabulary of dialogue inputs and the mapping from raw text to it.
use vstd::prelude::*;

use crate::text::{chars_of, contains_chars, i64_to_text, lower_of, lowercase, seq_contains, signed_decimal};

verus! {

/// One classified input to the conversation engine.
#[derive(Debug, Clone, PartialEq, Eq)]
pub enum Event {
    NoEvent,
    Help,
    Report,
    Rename,
    Start,
    Survey,
    Back,
    Name(String),
    Allright,
    More,
    NoNetwork,
    NoElectricity,
    FullBlackout,
    Impact(u8),
    ReportMe,
    ReportTeam,
    ReportAll,
    ReportOffsetDay,
    ReportOffsetWeek,
    ReportOffsetMonth,
    LMMikhail,
    LMElina,
    LMOleksandr,
    LMVladyslav,
    LMYevgen,
}

/// Number of variants, each tried in turn when raw text is matched.
pub const EVENT_KINDS: usize = 25;

/// Position of an event's variant in the declared order.
pub open spec fn kind(e: Event) -> int {
    match e {
        Event::NoEvent => 0,
        Event::Help => 1,
        Event::Report => 2,
        Event::Rename => 3,
        Event::Start => 4,
        Event::Survey => 5,
        Event::Back => 6,
        Event::Name(_) => 7,
        Event::Allright => 8,
        Event::More => 9,
        Event::NoNetwork => 10,
        Event::NoElectricity => 11,
        Event::FullBlackout => 12,
        Event::Impact(_) => 13,
        Event::ReportMe => 14,
        Event::ReportTeam => 15,
        Event::ReportAll => 16,
        Event::ReportOffsetDay => 17,
        Event::ReportOffsetWeek => 18,
        Event::ReportOffsetMonth => 19,
        Event::LMMikhail => 20,
        Event::LMElina => 21,
        Event::LMOleksandr => 22,
        Event::LMVladyslav => 23,
        Event::LMYevgen => 24,
    }
}

/// The representative of variant `i` that text matching produces: payloads are empty or zero.
pub open spec fn is_candidate(e: Event, i: int) -> bool {
    &&& kind(e) == i
    &&& (e matches Event::Name(s) ==> s@.len() == 0)
    &&& (e matches Event::Impact(n) ==> n == 0)
}

/// The label a participant sees for an event (button text, manager display name).
pub open spec fn label(e: Event) -> Seq<char> {
    match e {
        Event::NoEvent => "None"@,
        Event::Help => "Help"@,
        Event::Report => "Report"@,
        Event::Rename => "Rename"@,
        Event::Start => "Start"@,
        Event::Survey => "Survey"@,
        Event::Back => "Back"@,
        Event::Name(s) => "Name(\""@ + s@ + "\")"@,
        Event::Allright => "Allright"@,
        Event::More => "More"@,
        Event::NoNetwork => "No Network"@,
        Event::NoElectricity => "No Electricity"@,
        Event::FullBlackout => "Full Blackout"@,
        Event::Impact(n) => "Impact("@ + signed_decimal(n as int) + ")"@,
        Event::ReportMe => "Me"@,
        Event::ReportTeam => "My Team"@,
        Event::ReportAll => "All"@,
        Event::ReportOffsetDay => "Day"@,
        Event::ReportOffsetWeek => "Week"@,
        Event::ReportOffsetMonth => "Month"@,
        Event::LMMikhail => "Mikhail Maslyukov"@,
        Event::LMElina => "Elina Bodzhek"@,
        Event::LMOleksandr => "Oleksandr Ovadenko"@,
        Event::LMVladyslav => "Vladyslav Symonenko"@,
        Event::LMYevgen => "Yevgen Kutsenko"@,
    }
}

/// The lowercase label of the representative of variant `i`, as text matching looks for it.
pub open spec fn match_label(i: int) -> Seq<char> {
    if i == 0 {
        "none"@
    } else if i == 1 {
        "help"@
    } else if i == 2 {
        "report"@
    } else if i == 3 {
        "rename"@
    } else if i == 4 {
        "start"@
    } else if i == 5 {
        "survey"@
    } else if i == 6 {
        "back"@
    } else if i == 7 {
        "name(\"\")"@
    } else if i == 8 {
        "allright"@
    } else if i == 9 {
        "more"@
    } else if i == 10 {
        "no network"@
    } else if i == 11 {
        "no electricity"@
    } else if i == 12 {
        "full blackout"@
    } else if i == 13 {
        "impact(0)"@
    } else if i == 14 {
        "me"@
    } else if i == 15 {
        "my team"@
    } else if i == 16 {
        "all"@
    } else if i == 17 {
        "day"@
    } else if i == 18 {
        "week"@
    } else if i == 19 {
        "month"@
    } else if i == 20 {
        "mikhail maslyukov"@
    } else if i == 21 {
        "elina bodzhek"@
    } else if i == 22 {
        "oleksandr ovadenko"@
    } else if i == 23 {
        "vladyslav symonenko"@
    } else {
        "yevgen kutsenko"@
    }
}

/// The first variant, from `i` on, whose lowercase label occurs in the lowercase text `t`.
pub open spec fn first_match_from(t: Seq<char>, i: int) -> Option<int>
    decreases 25 - i,
{
    if i >= 25 || i < 0 {
        None
    } else if seq_contains(t, match_label(i)) {
        Some(i)
    } else {
        first_match_from(t, i + 1)
    }
}

/// What text matching yields for an already lowercased text: the first variant in declared
/// order whose lowercase label occurs in it.
pub open spec fn matches_lowered(t: Seq<char>, r: Option<Event>) -> bool {
    match first_match_from(t, 0) {
        None => r is None,
        Some(i) => r is Some && is_candidate(r->0, i),
    }
}

/// Rendering of events for participants.
pub trait UserDisplay {
    spec fn user_label(&self) -> Seq<char>;

    fn to_user_string(&self) -> (r: String)
        ensures
            r@ == self.user_label(),
    ;
}

fn lit(s: &str) -> (r: String)
    ensures
        r@ == s@,
{
    String::from_str(s)
}

impl UserDisplay for Event {
    open spec fn user_label(&self) -> Seq<char> {
        label(*self)
    }

    fn to_user_string(&self) -> (r: String) {
        match self {
            Event::NoEvent => lit("None"),
            Event::Help => lit("Help"),
            Event::Report => lit("Report"),
            Event::Rename => lit("Rename"),
            Event::Start => lit("Start"),
            Event::Survey => lit("Survey"),
            Event::Back => lit("Back"),
            Event::Name(s) => lit("Name(\"").concat(s.as_str()).concat("\")"),
            Event::Allright => lit("Allright"),
            Event::More => lit("More"),
            Event::NoNetwork => lit("No Network"),
            Event::NoElectricity => lit("No Electricity"),
            Event::FullBlackout => lit("Full Blackout"),
            Event::Impact(n) => {
                let digits = i64_to_text(*n as i64);
                lit("Impact(").concat(digits.as_str()).concat(")")
            },
            Event::ReportMe => lit("Me"),
            Event::ReportTeam => lit("My Team"),
            Event::ReportAll => lit("All"),
            Event::ReportOffsetDay => lit("Day"),
            Event::ReportOffsetWeek => lit("Week"),
            Event::ReportOffsetMonth => lit("Month"),
            Event::LMMikhail => lit("Mikhail Maslyukov"),
            Event::LMElina => lit("Elina Bodzhek"),
            Event::LMOleksandr => lit("Oleksandr Ovadenko"),
            Event::LMVladyslav => lit("Vladyslav Symonenko"),
            Event::LMYevgen => lit("Yevgen Kutsenko"),
        }
    }
}

fn match_label_text(i: usize) -> (r: &'static str)
    requires
        i < 25,
    ensures
        r@ == match_label(i as int),
{
    if i == 0 {
        "none"
    } else if i == 1 {
        "help"
    } else if i == 2 {
        "report"
    } else if i == 3 {
        "rename"
    } else if i == 4 {
        "start"
    } else if i == 5 {
        "survey"
    } else if i == 6 {
        "back"
    } else if i == 7 {
        "name(\"\")"
    } else if i == 8 {
        "allright"
    } else if i == 9 {
        "more"
    } else if i == 10 {
        "no network"
    } else if i == 11 {
        "no electricity"
    } else if i == 12 {
        "full blackout"
    } else if i == 13 {
        "impact(0)"
    } else if i == 14 {
        "me"
    } else if i == 15 {
        "my team"
    } else if i == 16 {
        "all"
    } else if i == 17 {
        "day"
    } else if i == 18 {
        "week"
    } else if i == 19 {
        "month"
    } else if i == 20 {
        "mikhail maslyukov"
    } else if i == 21 {
        "elina bodzhek"
    } else if i == 22 {
        "oleksandr ovadenko"
    } else if i == 23 {
        "vladyslav symonenko"
    } else {
        "yevgen kutsenko"
    }
}

fn candidate(i: usize) -> (e: Event)
    requires
        i < 25,
    ensures
        is_candidate(e, i as int),
{
    if i == 0 {
        Event::NoEvent
    } else if i == 1 {
        Event::Help
    } else if i == 2 {
        Event::Report
    } else if i == 3 {
        Event::Rename
    } else if i == 4 {
        Event::Start
    } else if i == 5 {
        Event::Survey
    } else if i == 6 {
        Event::Back
    } else if i == 7 {
        Event::Name(String::new())
    } else if i == 8 {
        Event::Allright
    } else if i == 9 {
        Event::More
    } else if i == 10 {
        Event::NoNetwork
    } else if i == 11 {
        Event::NoElectricity
    } else if i == 12 {
        Event::FullBlackout
    } else if i == 13 {
        Event::Impact(0)
    } else if i == 14 {
        Event::ReportMe
    } else if i == 15 {
        Event::ReportTeam
    } else if i == 16 {
        Event::ReportAll
    } else if i == 17 {
        Event::ReportOffsetDay
    } else if i == 18 {
        Event::ReportOffsetWeek
    } else if i == 19 {
        Event::ReportOffsetMonth
    } else if i == 20 {
        Event::LMMikhail
    } else if i == 21 {
        Event::LMElina
    } else if i == 22 {
        Event::LMOleksandr
    } else if i == 23 {
        Event::LMVladyslav
    } else {
        Event::LMYevgen
    }
}

impl Event {
    /// Maps a lowercased text to the first event, in declared order, whose lowercase label
    /// it contains.
    pub fn from_lowered(lowered: &str) -> (r: Option<Event>)
        ensures
            matches_lowered(lowered@, r),
    {
        let t = chars_of(lowered);
        let mut i: usize = 0;
        while i < EVENT_KINDS
            invariant
                t@ == lowered@,
                i <= 25,
                first_match_from(lowered@, 0) == first_match_from(lowered@, i as int),
            decreases 25 - i,
        {
            let l = chars_of(match_label_text(i));
            if contains_chars(&t, &l) {
                return Some(candidate(i));
            }
            i = i + 1;
        }
        None
    }

    /// Maps raw text to the first event, in declared order, whose lowercase label occurs in
    /// the lowercased text; `None` when no label occurs.
    pub fn from_string(text: &str) -> (r: Option<Event>)
        ensures
            matches_lowered(lower_of(text@), r),
    {
        let lowered = lowercase(text);
        Event::from_lowered(lowered.as_str())
    }

    /// An equal copy of the event.
    pub fn duplicate(&self) -> (r: Event)
        ensures
            r == *self,
    {
        match self {
            Event::Name(s) => Event::Name(s.clone()),
            Event::Impact(n) => Event::Impact(*n),
            Event::NoEvent => Event::NoEvent,
            Event::Help => Event::Help,
            Event::Report => Event::Report,
            Event::Rename => Event::Rename,
            Event::Start => Event::Start,
            Event::Survey => Event::Survey,
            Event::Back => Event::Back,
            Event::Allright => Event::Allright,
            Event::More => Event::More,
            Event::NoNetwork => Event::NoNetwork,
            Event::NoElectricity => Event::NoElectricity,
            Event::FullBlackout => Event::FullBlackout,
            Event::ReportMe => Event::ReportMe,
            Event::ReportTeam => Event::ReportTeam,
            Event::ReportAll => Event::ReportAll,
            Event::ReportOffsetDay => Event::ReportOffsetDay,
            Event::ReportOffsetWeek => Event::ReportOffsetWeek,
            Event::ReportOffsetMonth => Event::ReportOffsetMonth,
            Event::LMMikhail => Event::LMMikhail,
            Event::LMElina => Event::LMElina,
            Event::LMOleksandr => Event::LMOleksandr,
            Event::LMVladyslav => Event::LMVladyslav,
            Event::LMYevgen => Event::LMYevgen,
        }
    }
}

} // verus!
