//! Replies handed back to the transport: plain text, or text with a grid of buttons.
use vstd::prelude::*;

use crate::event::{label, Event, UserDisplay};

verus! {

/// A text with a grid of buttons, each carrying its label as callback payload.
#[derive(Debug, Clone)]
pub struct ReplyInline {
    pub text: String,
    pub keyboard: Vec<Vec<String>>,
}

/// A text with a persistent keyboard of reply buttons.
#[derive(Debug, Clone)]
pub struct ReplyMenu {
    pub text: String,
    pub keyboard: Vec<Vec<String>>,
}

/// What a turn answers to the participant.
#[derive(Debug, Clone)]
pub enum ReplyEnum {
    Text(String),
    KeyboardMenu(ReplyMenu),
    KeyboardInline(ReplyInline),
    NoReply,
}

/// The mathematical content of a reply.
pub enum ReplyView {
    Text(Seq<char>),
    Menu(Seq<char>, Seq<Seq<Seq<char>>>),
    Inline(Seq<char>, Seq<Seq<Seq<char>>>),
    NoReply,
}

pub open spec fn board_view(kb: Seq<Vec<String>>) -> Seq<Seq<Seq<char>>> {
    kb.map_values(|row: Vec<String>| row@.map_values(|s: String| s@))
}

pub open spec fn row_labels(row: Seq<Event>) -> Seq<Seq<char>> {
    row.map_values(|e: Event| label(e))
}

pub open spec fn board_labels(rows: Seq<Vec<Event>>) -> Seq<Seq<Seq<char>>> {
    rows.map_values(|row: Vec<Event>| row_labels(row@))
}

impl ReplyEnum {
    pub open spec fn view(&self) -> ReplyView {
        match self {
            ReplyEnum::Text(t) => ReplyView::Text(t@),
            ReplyEnum::KeyboardMenu(m) => ReplyView::Menu(m.text@, board_view(m.keyboard@)),
            ReplyEnum::KeyboardInline(m) => ReplyView::Inline(m.text@, board_view(m.keyboard@)),
            ReplyEnum::NoReply => ReplyView::NoReply,
        }
    }
}

/// A reply shows something to the participant: it is not `NoReply` and its text is not empty.
pub open spec fn is_shown(r: ReplyView) -> bool {
    match r {
        ReplyView::Text(t) => t.len() > 0,
        ReplyView::Menu(t, _) => t.len() > 0,
        ReplyView::Inline(t, _) => t.len() > 0,
        ReplyView::NoReply => false,
    }
}

impl ReplyInline {
    pub fn new(text: &str, keyboard: Vec<Vec<String>>) -> (r: ReplyInline)
        ensures
            r.text@ == text@,
            r.keyboard == keyboard,
    {
        ReplyInline { text: String::from_str(text), keyboard }
    }
}

impl ReplyMenu {
    pub fn new(text: &str, keyboard: Vec<Vec<String>>) -> (r: ReplyMenu)
        ensures
            r.text@ == text@,
            r.keyboard == keyboard,
    {
        ReplyMenu { text: String::from_str(text), keyboard }
    }
}

/// A plain text reply.
pub fn make_reply_text(text: &str) -> (r: ReplyEnum)
    ensures
        r.view() == ReplyView::Text(text@),
{
    ReplyEnum::Text(String::from_str(text))
}

fn labels_of_row(row: &Vec<Event>) -> (r: Vec<String>)
    ensures
        r@.map_values(|s: String| s@) == row_labels(row@),
{
    let mut out: Vec<String> = Vec::new();
    let mut i: usize = 0;
    while i < row.len()
        invariant
            i <= row@.len(),
            out@.len() == i,
            forall|j: int| 0 <= j < i ==> (#[trigger] out@[j])@ == label(row@[j]),
        decreases row@.len() - i,
    {
        let l = row[i].to_user_string();
        out.push(l);
        i = i + 1;
    }
    assert(out@.map_values(|s: String| s@) =~= row_labels(row@));
    out
}

/// A text reply with a grid of buttons labelled by the events' labels; plain text when no
/// grid is given.
pub fn make_reply_inline(text: &str, rows: Option<&Vec<Vec<Event>>>) -> (r: ReplyEnum)
    ensures
        r.view() == (match rows {
            Some(b) => ReplyView::Inline(text@, board_labels(b@)),
            None => ReplyView::Text(text@),
        }),
{
    match rows {
        None => make_reply_text(text),
        Some(b) => {
            let mut kb: Vec<Vec<String>> = Vec::new();
            let mut i: usize = 0;
            while i < b.len()
                invariant
                    i <= b@.len(),
                    kb@.len() == i,
                    forall|j: int|
                        0 <= j < i ==> (#[trigger] kb@[j])@.map_values(|s: String| s@)
                            == row_labels(b@[j]@),
                decreases b@.len() - i,
            {
                let row = labels_of_row(&b[i]);
                kb.push(row);
                i = i + 1;
            }
            assert(board_view(kb@) =~= board_labels(b@));
            ReplyEnum::KeyboardInline(ReplyInline::new(text, kb))
        },
    }
}

pub open spec fn help_text() -> Seq<char> {
    "/help - Prints this help\n/start - Start of registration\n/survey - Start servey\n/report - Generate report\n/rename - Change name report\n"@
}

pub open spec fn start_text() -> Seq<char> {
    "Enter your Full name (the same as in company profile)"@
}

/// The list of commands.
pub fn reply_help_event() -> (r: ReplyEnum)
    ensures
        r.view() == ReplyView::Text(help_text()),
        is_shown(r.view()),
{
    proof {
        reveal_strlit(
            "/help - Prints this help\n/start - Start of registration\n/survey - Start servey\n/report - Generate report\n/rename - Change name report\n",
        );
    }
    make_reply_text(
        "/help - Prints this help\n/start - Start of registration\n/survey - Start servey\n/report - Generate report\n/rename - Change name report\n",
    )
}

/// The prompt for the participant's name.
pub fn reply_start_event() -> (r: ReplyEnum)
    ensures
        r.view() == ReplyView::Text(start_text()),
{
    make_reply_text("Enter your Full name (the same as in company profile)")
}

pub open spec fn survey_reply() -> ReplyView {
    ReplyView::Inline(
        "How are doing you today?"@,
        seq![seq![label(Event::Allright), label(Event::More)]],
    )
}

pub open spec fn issue_reply() -> ReplyView {
    ReplyView::Inline(
        "What's up?"@,
        seq![
            seq![label(Event::NoNetwork), label(Event::NoElectricity)],
            seq![label(Event::FullBlackout), label(Event::Back)],
        ],
    )
}

pub open spec fn period_reply() -> ReplyView {
    ReplyView::Inline(
        "What report do you whant"@,
        seq![
            seq![label(Event::ReportOffsetDay), label(Event::ReportOffsetWeek)],
            seq![label(Event::ReportOffsetMonth), label(Event::Back)],
        ],
    )
}

pub open spec fn scope_reply() -> ReplyView {
    ReplyView::Inline(
        "What kind of report do you want"@,
        seq![seq![label(Event::ReportMe), label(Event::ReportTeam), label(Event::ReportAll)]],
    )
}

pub open spec fn manager_reply() -> ReplyView {
    ReplyView::Inline(
        "Choose your manager"@,
        seq![
            seq![label(Event::LMElina)],
            seq![label(Event::LMMikhail)],
            seq![label(Event::LMOleksandr)],
            seq![label(Event::LMVladyslav)],
            seq![label(Event::LMYevgen)],
        ],
    )
}

/// The survey question with its two answers.
pub fn reply_survey_event() -> (r: ReplyEnum)
    ensures
        r.view() == survey_reply(),
{
    let rows = vec![vec![Event::Allright, Event::More]];
    let r = make_reply_inline("How are doing you today?", Some(&rows));
    assert(board_labels(rows@) =~~= seq![seq![label(Event::Allright), label(Event::More)]]);
    r
}

/// The detail question listing the kinds of outage.
pub fn reply_issue_event() -> (r: ReplyEnum)
    ensures
        r.view() == issue_reply(),
{
    let rows = vec![
        vec![Event::NoNetwork, Event::NoElectricity],
        vec![Event::FullBlackout, Event::Back],
    ];
    let r = make_reply_inline("What's up?", Some(&rows));
    assert(board_labels(rows@) =~~= seq![
        seq![label(Event::NoNetwork), label(Event::NoElectricity)],
        seq![label(Event::FullBlackout), label(Event::Back)],
    ]);
    r
}

/// The choice of report window.
pub fn reply_report_period_event() -> (r: ReplyEnum)
    ensures
        r.view() == period_reply(),
{
    let rows = vec![
        vec![Event::ReportOffsetDay, Event::ReportOffsetWeek],
        vec![Event::ReportOffsetMonth, Event::Back],
    ];
    let r = make_reply_inline("What report do you whant", Some(&rows));
    assert(board_labels(rows@) =~~= seq![
        seq![label(Event::ReportOffsetDay), label(Event::ReportOffsetWeek)],
        seq![label(Event::ReportOffsetMonth), label(Event::Back)],
    ]);
    r
}

/// The choice of report scope.
pub fn reply_report_event() -> (r: ReplyEnum)
    ensures
        r.view() == scope_reply(),
{
    let rows = vec![vec![Event::ReportMe, Event::ReportTeam, Event::ReportAll]];
    let r = make_reply_inline("What kind of report do you want", Some(&rows));
    assert(board_labels(rows@) =~~= seq![
        seq![label(Event::ReportMe), label(Event::ReportTeam), label(Event::ReportAll)],
    ]);
    r
}

/// The choice among the five managers, one per row.
pub fn reply_reg_manager() -> (r: ReplyEnum)
    ensures
        r.view() == manager_reply(),
{
    let rows = vec![
        vec![Event::LMElina],
        vec![Event::LMMikhail],
        vec![Event::LMOleksandr],
        vec![Event::LMVladyslav],
        vec![Event::LMYevgen],
    ];
    let r = make_reply_inline("Choose your manager", Some(&rows));
    assert(board_labels(rows@) =~~= seq![
        seq![label(Event::LMElina)],
        seq![label(Event::LMMikhail)],
        seq![label(Event::LMOleksandr)],
        seq![label(Event::LMVladyslav)],
        seq![label(Event::LMYevgen)],
    ]);
    r
}

/// The command a participant types for an event: its variant name in lowercase.
pub open spec fn command_name(e: Event) -> Seq<char> {
    match e {
        Event::NoEvent => "none"@,
        Event::Help => "help"@,
        Event::Report => "report"@,
        Event::Rename => "rename"@,
        Event::Start => "start"@,
        Event::Survey => "survey"@,
        Event::Back => "back"@,
        Event::Name(_) => "name"@,
        Event::Allright => "allright"@,
        Event::More => "more"@,
        Event::NoNetwork => "nonetwork"@,
        Event::NoElectricity => "noelectricity"@,
        Event::FullBlackout => "fullblackout"@,
        Event::Impact(_) => "impact"@,
        Event::ReportMe => "reportme"@,
        Event::ReportTeam => "reportteam"@,
        Event::ReportAll => "reportall"@,
        Event::ReportOffsetDay => "reportoffsetday"@,
        Event::ReportOffsetWeek => "reportoffsetweek"@,
        Event::ReportOffsetMonth => "reportoffsetmonth"@,
        Event::LMMikhail => "lmmikhail"@,
        Event::LMElina => "lmelina"@,
        Event::LMOleksandr => "lmoleksandr"@,
        Event::LMVladyslav => "lmvladyslav"@,
        Event::LMYevgen => "lmyevgen"@,
    }
}

fn command_text(e: &Event) -> (r: &'static str)
    ensures
        r@ == command_name(*e),
{
    match e {
        Event::NoEvent => "none",
        Event::Help => "help",
        Event::Report => "report",
        Event::Rename => "rename",
        Event::Start => "start",
        Event::Survey => "survey",
        Event::Back => "back",
        Event::Name(_) => "name",
        Event::Allright => "allright",
        Event::More => "more",
        Event::NoNetwork => "nonetwork",
        Event::NoElectricity => "noelectricity",
        Event::FullBlackout => "fullblackout",
        Event::Impact(_) => "impact",
        Event::ReportMe => "reportme",
        Event::ReportTeam => "reportteam",
        Event::ReportAll => "reportall",
        Event::ReportOffsetDay => "reportoffsetday",
        Event::ReportOffsetWeek => "reportoffsetweek",
        Event::ReportOffsetMonth => "reportoffsetmonth",
        Event::LMMikhail => "lmmikhail",
        Event::LMElina => "lmelina",
        Event::LMOleksandr => "lmoleksandr",
        Event::LMVladyslav => "lmvladyslav",
        Event::LMYevgen => "lmyevgen",
    }
}

/// The reply-keyboard button of an event: `/command` and a line break.
pub open spec fn menu_button(e: Event) -> Seq<char> {
    "/"@ + command_name(e) + "\n"@
}

pub open spec fn menu_labels(rows: Seq<Vec<Event>>) -> Seq<Seq<Seq<char>>> {
    rows.map_values(|row: Vec<Event>| row@.map_values(|e: Event| menu_button(e)))
}

/// A text reply with a persistent keyboard of commands; plain text when no grid is given.
pub fn make_reply_menu(text: &str, rows: Option<&Vec<Vec<Event>>>) -> (r: ReplyEnum)
    ensures
        r.view() == (match rows {
            Some(b) => ReplyView::Menu(text@, menu_labels(b@)),
            None => ReplyView::Text(text@),
        }),
{
    match rows {
        None => make_reply_text(text),
        Some(b) => {
            let mut kb: Vec<Vec<String>> = Vec::new();
            let mut i: usize = 0;
            while i < b.len()
                invariant
                    i <= b@.len(),
                    kb@.len() == i,
                    forall|k: int|
                        0 <= k < i ==> (#[trigger] kb@[k])@.map_values(|s: String| s@)
                            == b@[k]@.map_values(|e: Event| menu_button(e)),
                decreases b@.len() - i,
            {
                let row = &b[i];
                let mut cells: Vec<String> = Vec::new();
                let mut j: usize = 0;
                while j < row.len()
                    invariant
                        j <= row@.len(),
                        cells@.len() == j,
                        forall|k: int| 0 <= k < j ==> (#[trigger] cells@[k])@ == menu_button(row@[k]),
                    decreases row@.len() - j,
                {
                    let cell = String::from_str("/").concat(command_text(&row[j])).concat("\n");
                    cells.push(cell);
                    j = j + 1;
                }
                assert(cells@.map_values(|s: String| s@) =~= row@.map_values(|e: Event| menu_button(e)));
                kb.push(cells);
                i = i + 1;
            }
            assert(board_view(kb@) =~= menu_labels(b@));
            ReplyEnum::KeyboardMenu(ReplyMenu::new(text, kb))
        },
    }
}

/// A text with the survey and report commands as a persistent keyboard.
pub fn reply_menu_texted(text: &str) -> (r: ReplyEnum)
    ensures
        r.view() == ReplyView::Menu(
            text@,
            seq![seq![menu_button(Event::Survey), menu_button(Event::Report)]],
        ),
{
    let rows = vec![vec![Event::Survey, Event::Report]];
    let r = make_reply_menu(text, Some(&rows));
    assert(menu_labels(rows@) =~~= seq![seq![menu_button(Event::Survey), menu_button(Event::Report)]]);
    r
}

/// The answer to a command that does nothing yet.
pub fn reply_not_emplemented() -> (r: ReplyEnum)
    ensures
        r.view() == ReplyView::Text("Not implemented, sorry"@),
{
    make_reply_text("Not implemented, sorry")
}

} // verus!
