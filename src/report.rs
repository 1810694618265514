//! Survey rows as the storage hands them over, and the availability report built from them.
use vstd::prelude::*;

use crate::clock::{parsed_time, text_to_time, DAY, TIME_FORMAT};
use crate::reply::board_view;
use crate::text::{decimal, digit_char, digit_str, i64_to_text, signed_decimal, u64_to_text};

verus! {

/// One persisted survey submission joined with its participant's identity.
#[derive(Debug, Clone)]
pub struct Report {
    pub name: String,
    pub manager: String,
    pub chat_id: i64,
    pub timestamp: String,
    pub electricity: bool,
    pub network: bool,
}

impl Report {
    /// An empty row: no name, no manager, no time, both services working.
    pub fn new() -> (r: Report)
        ensures
            r.name@.len() == 0,
            r.manager@.len() == 0,
            r.chat_id == 0,
            r.timestamp@.len() == 0,
            r.electricity,
            r.network,
    {
        Report {
            name: String::new(),
            manager: String::new(),
            chat_id: 0,
            timestamp: String::new(),
            electricity: true,
            network: true,
        }
    }
}

/// A trailing time window: a number of days or of months (negative: into the past).
#[derive(Debug, Clone, Copy, PartialEq, Eq, Structural)]
pub enum TimeOffset {
    Day(i64),
    Month(i64),
}

pub open spec fn offset_text(o: TimeOffset) -> Seq<char> {
    match o {
        TimeOffset::Day(d) => "Day("@ + signed_decimal(d as int) + ")"@,
        TimeOffset::Month(m) => "Month("@ + signed_decimal(m as int) + ")"@,
    }
}

impl TimeOffset {
    /// The window with nothing in it, shown when a report has no entries.
    pub fn default_offset() -> (r: TimeOffset)
        ensures
            r == TimeOffset::Day(0),
    {
        TimeOffset::Day(0)
    }

    /// The window as shown in a report heading, e.g. `Day(-7)`.
    pub fn to_text(&self) -> (r: String)
        ensures
            r@ == offset_text(*self),
    {
        match self {
            TimeOffset::Day(d) => {
                let n = i64_to_text(*d);
                String::from_str("Day(").concat(n.as_str()).concat(")")
            },
            TimeOffset::Month(m) => {
                let n = i64_to_text(*m);
                String::from_str("Month(").concat(n.as_str()).concat(")")
            },
        }
    }
}

/// Whose entries a report covers.
#[derive(Debug, Clone)]
pub enum ReportType {
    Me(i64),
    Team(String),
    All,
}

/// Availability of one participant over a window: `rows` entries, of which `full` had
/// network and power and `partial` had network only.
#[derive(Debug, Clone)]
pub struct ReportSummary {
    pub name: String,
    pub manager: String,
    pub period: TimeOffset,
    pub rows: u64,
    pub full: u64,
    pub partial: u64,
    pub last_update: i64,
}

pub open spec fn is_full(r: Report) -> bool {
    r.network && r.electricity
}

pub open spec fn is_partial(r: Report) -> bool {
    r.network && !r.electricity
}

/// Number of rows named `n`.
pub open spec fn group_count(rows: Seq<Report>, n: Seq<char>) -> nat
    decreases rows.len(),
{
    if rows.len() == 0 {
        0
    } else {
        group_count(rows.drop_last(), n) + if rows.last().name@ == n {
            1nat
        } else {
            0nat
        }
    }
}

/// Number of rows named `n` with network and power.
pub open spec fn group_full(rows: Seq<Report>, n: Seq<char>) -> nat
    decreases rows.len(),
{
    if rows.len() == 0 {
        0
    } else {
        group_full(rows.drop_last(), n) + if rows.last().name@ == n && is_full(rows.last()) {
            1nat
        } else {
            0nat
        }
    }
}

/// Number of rows named `n` with network but no power.
pub open spec fn group_partial(rows: Seq<Report>, n: Seq<char>) -> nat
    decreases rows.len(),
{
    if rows.len() == 0 {
        0
    } else {
        group_partial(rows.drop_last(), n) + if rows.last().name@ == n && is_partial(
            rows.last(),
        ) {
            1nat
        } else {
            0nat
        }
    }
}

/// The latest parsable timestamp among the rows named `n`, and never before the epoch.
pub open spec fn group_latest(rows: Seq<Report>, n: Seq<char>) -> i64
    decreases rows.len(),
{
    if rows.len() == 0 {
        0
    } else {
        let prev = group_latest(rows.drop_last(), n);
        match parsed_time(rows.last().timestamp@, TIME_FORMAT@) {
            Some(t) => if rows.last().name@ == n && t > prev {
                t
            } else {
                prev
            },
            None => prev,
        }
    }
}

/// The manager of the first row named `n`.
pub open spec fn group_manager(rows: Seq<Report>, n: Seq<char>) -> Seq<char>
    decreases rows.len(),
{
    if rows.len() == 0 {
        Seq::empty()
    } else if group_count(rows.drop_last(), n) == 0 && rows.last().name@ == n {
        rows.last().manager@
    } else {
        group_manager(rows.drop_last(), n)
    }
}

/// The distinct names of the rows, in order of first appearance.
pub open spec fn group_names(rows: Seq<Report>) -> Seq<Seq<char>>
    decreases rows.len(),
{
    if rows.len() == 0 {
        Seq::empty()
    } else {
        let prev = group_names(rows.drop_last());
        if prev.contains(rows.last().name@) {
            prev
        } else {
            prev.push(rows.last().name@)
        }
    }
}

/// `s` summarises the rows named `n` over window `period`.
pub open spec fn summarises(s: ReportSummary, rows: Seq<Report>, n: Seq<char>, period: TimeOffset) -> bool {
    &&& s.name@ == n
    &&& s.manager@ == group_manager(rows, n)
    &&& s.period == period
    &&& s.rows == group_count(rows, n)
    &&& s.full == group_full(rows, n)
    &&& s.partial == group_partial(rows, n)
    &&& s.last_update == group_latest(rows, n)
}

proof fn lemma_group_facts(rows: Seq<Report>, n: Seq<char>)
    ensures
        group_full(rows, n) + group_partial(rows, n) <= group_count(rows, n),
        group_count(rows, n) <= rows.len(),
        group_count(rows, n) > 0 <==> group_names(rows).contains(n),
        group_count(rows, n) == 0 ==> group_latest(rows, n) == 0,
    decreases rows.len(),
{
    if rows.len() > 0 {
        lemma_group_facts(rows.drop_last(), n);
        let prev = group_names(rows.drop_last());
        if !prev.contains(rows.last().name@) {
            assert(prev.push(rows.last().name@).last() == rows.last().name@);
            if prev.contains(n) {
                let k = choose|k: int| 0 <= k < prev.len() && prev[k] == n;
                assert(prev.push(rows.last().name@)[k] == n);
            }
            if prev.push(rows.last().name@).contains(n) && n != rows.last().name@ {
                let k = choose|k: int|
                    0 <= k < prev.len() + 1 && prev.push(rows.last().name@)[k] == n;
                assert(prev[k] == n);
            }
        }
    }
}

proof fn lemma_names_distinct(rows: Seq<Report>)
    ensures
        forall|a: int, b: int|
            0 <= a < b < group_names(rows).len() ==> group_names(rows)[a] != group_names(
                rows,
            )[b],
    decreases rows.len(),
{
    if rows.len() > 0 {
        lemma_names_distinct(rows.drop_last());
        let prev = group_names(rows.drop_last());
        let x = rows.last().name@;
        if !prev.contains(x) {
            assert forall|a: int, b: int|
                0 <= a < b < prev.len() + 1 implies prev.push(x)[a] != prev.push(x)[b] by {
                if b == prev.len() && prev[a] == x {
                    assert(prev.contains(x));
                }
            }
        }
    }
}

/// Groups rows by participant name, in order of first appearance, and summarises each group
/// over the window `period`.
pub fn make_report(rows: &Vec<Report>, period: TimeOffset) -> (r: Vec<ReportSummary>)
    ensures
        r@.len() == group_names(rows@).len(),
        forall|k: int|
            0 <= k < r@.len() ==> summarises(
                #[trigger] r@[k],
                rows@,
                group_names(rows@)[k],
                period,
            ),
{
    let mut out: Vec<ReportSummary> = Vec::new();
    let mut i: usize = 0;
    while i < rows.len()
        invariant
            i <= rows@.len(),
            out@.len() == group_names(rows@.subrange(0, i as int)).len(),
            forall|k: int|
                0 <= k < out@.len() ==> summarises(
                    #[trigger] out@[k],
                    rows@.subrange(0, i as int),
                    group_names(rows@.subrange(0, i as int))[k],
                    period,
                ),
        decreases rows@.len() - i,
    {
        let ghost pre = rows@.subrange(0, i as int);
        let ghost post = rows@.subrange(0, i + 1);
        let row = &rows[i];
        proof {
            assert(post.drop_last() =~= pre);
            assert(post.last() == rows@[i as int]);
            lemma_names_distinct(pre);
            lemma_group_facts(pre, row.name@);
        }
        let mut j: usize = 0;
        while j < out.len() && out[j].name != row.name
            invariant
                j <= out@.len(),
                forall|k: int| 0 <= k < j ==> (#[trigger] out@[k]).name@ != row.name@,
            decreases out@.len() - j,
        {
            j = j + 1;
        }
        let parsed = text_to_time(row.timestamp.as_str());
        if j < out.len() {
            let old = &out[j];
            proof {
                lemma_group_facts(pre, row.name@);
                assert(group_names(pre).contains(row.name@)) by {
                    assert(group_names(pre)[j as int] == row.name@);
                }
                assert(group_names(post) == group_names(pre));
                assert forall|n: Seq<char>| n != row.name@ implies group_count(post, n)
                    == group_count(pre, n) && group_full(post, n) == group_full(pre, n)
                    && group_partial(post, n) == group_partial(pre, n) && group_latest(post, n)
                    == group_latest(pre, n) && group_manager(post, n) == group_manager(
                    pre,
                    n,
                ) by {}
            }
            let latest = match parsed {
                Some(t) => if t > old.last_update {
                    t
                } else {
                    old.last_update
                },
                None => old.last_update,
            };
            let updated = ReportSummary {
                name: old.name.clone(),
                manager: old.manager.clone(),
                period,
                rows: old.rows + 1,
                full: old.full + if row.network && row.electricity {
                    1
                } else {
                    0
                },
                partial: old.partial + if row.network && !row.electricity {
                    1
                } else {
                    0
                },
                last_update: latest,
            };
            out.set(j, updated);
            proof {
                assert forall|k: int| 0 <= k < out@.len() implies summarises(
                    #[trigger] out@[k],
                    post,
                    group_names(post)[k],
                    period,
                ) by {
                    if k != j {
                        assert(group_names(pre)[k] != group_names(pre)[j as int]);
                    }
                }
            }
        } else {
            proof {
                assert(!group_names(pre).contains(row.name@)) by {
                    if group_names(pre).contains(row.name@) {
                        let k = choose|k: int|
                            0 <= k < group_names(pre).len() && group_names(pre)[k] == row.name@;
                        assert(out@[k].name@ == group_names(pre)[k]);
                    }
                }
                assert(group_names(post) == group_names(pre).push(row.name@));
                assert forall|n: Seq<char>| n != row.name@ implies group_count(post, n)
                    == group_count(pre, n) && group_full(post, n) == group_full(pre, n)
                    && group_partial(post, n) == group_partial(pre, n) && group_latest(post, n)
                    == group_latest(pre, n) && group_manager(post, n) == group_manager(
                    pre,
                    n,
                ) by {}
            }
            let latest = match parsed {
                Some(t) => if t > 0 {
                    t
                } else {
                    0
                },
                None => 0,
            };
            let fresh = ReportSummary {
                name: row.name.clone(),
                manager: row.manager.clone(),
                period,
                rows: 1,
                full: if row.network && row.electricity {
                    1
                } else {
                    0
                },
                partial: if row.network && !row.electricity {
                    1
                } else {
                    0
                },
                last_update: latest,
            };
            out.push(fresh);
            proof {
                lemma_group_facts(pre, row.name@);
                assert(group_count(pre, row.name@) == 0);
                assert(group_names(post)[out@.len() - 1] == row.name@);
                assert forall|k: int| 0 <= k < out@.len() implies summarises(
                    #[trigger] out@[k],
                    post,
                    group_names(post)[k],
                    period,
                ) by {
                    if k < out@.len() - 1 {
                        assert(group_names(pre)[k] != row.name@) by {
                            assert(group_names(pre).contains(group_names(pre)[k]));
                        }
                    }
                }
            }
        }
        i = i + 1;
    }
    proof {
        assert(rows@.subrange(0, rows@.len() as int) =~= rows@);
    }
    out
}

/// `n / d` rounded to the nearest integer, ties to even; zero when `d` is zero.
pub open spec fn round_half_even(n: nat, d: nat) -> nat {
    if d == 0 {
        0
    } else {
        let q = n / d;
        let r = n % d;
        if 2 * r > d || (2 * r == d && q % 2 == 1) {
            q + 1
        } else {
            q
        }
    }
}

/// Availability in tenths of a percent: `(full + partial / 2) / rows`, scaled by 1000.
pub open spec fn tenths_of(full: nat, partial: nat, rows: nat) -> nat {
    round_half_even(500 * (2 * full + partial), rows)
}

pub open spec fn availability_tenths(s: ReportSummary) -> nat {
    tenths_of(s.full as nat, s.partial as nat, s.rows as nat)
}

/// A percentage given in tenths, with one decimal, e.g. `50.0 %`.
pub open spec fn percent_text(t: nat) -> Seq<char> {
    decimal(t / 10) + seq!['.', digit_char(t % 10)] + " %"@
}

/// Whole days from `last` to `now`, truncated toward zero.
pub open spec fn days_between(now: int, last: int) -> int {
    let d = now - last;
    if d >= 0 {
        d / (DAY as int)
    } else {
        -((-d) / (DAY as int))
    }
}

/// How long ago an update was: `Today`, or `N days ago`.
pub open spec fn recency_text(days: int) -> Seq<char> {
    if days != 0 {
        signed_decimal(days) + " days ago"@
    } else {
        "Today"@
    }
}

/// The table row of the summary ranked `idx` (counting from one).
pub open spec fn summary_row(idx: nat, s: ReportSummary, now: i64) -> Seq<Seq<char>> {
    seq![
        decimal(idx),
        s.name@,
        percent_text(availability_tenths(s)),
        recency_text(days_between(now as int, s.last_update as int)),
    ]
}

pub open spec fn report_titles() -> Seq<Seq<char>> {
    seq!["#"@, "Full Name"@, "Availability"@, "Updated"@]
}

/// The window a report is headed with: that of its first summary, or the empty window.
pub open spec fn shown_period(summaries: Seq<ReportSummary>) -> TimeOffset {
    if summaries.len() > 0 {
        summaries[0].period
    } else {
        TimeOffset::Day(0)
    }
}

/// The report reply around a rendered table.
pub open spec fn report_frame(period: TimeOffset, table: Seq<char>) -> Seq<char> {
    "<pre>Report ["@ + offset_text(period) + "]:\n"@ + table + "\n</pre>"@
}

/// What prettytable renders for a table with these titles and rows, without borders and with
/// a line under the titles.
pub uninterp spec fn table_text(titles: Seq<Seq<char>>, rows: Seq<Seq<Seq<char>>>) -> Seq<char>;

/// Relies on prettytable's `Table` (`set_titles`, `add_row`, `FORMAT_NO_BORDER_LINE_SEPARATOR`,
/// `to_string`): the rendering depends on the cells alone.
#[verifier::external_body]
fn render_table(titles: &Vec<String>, rows: &Vec<Vec<String>>) -> (r: String)
    ensures
        r@ == table_text(titles@.map_values(|s: String| s@), board_view(rows@)),
{
    let mut table = prettytable::Table::new();
    table.set_format(*prettytable::format::consts::FORMAT_NO_BORDER_LINE_SEPARATOR);
    let mut head = Vec::new();
    for t in titles {
        head.push(prettytable::Cell::new(t));
    }
    table.set_titles(prettytable::Row::new(head));
    for row in rows {
        let mut cells = Vec::new();
        for c in row {
            cells.push(prettytable::Cell::new(c));
        }
        table.add_row(prettytable::Row::new(cells));
    }
    table.to_string()
}

fn round_half_even_exec(n: u128, d: u128) -> (r: u128)
    requires
        n <= 0xffff_ffff_ffff_ffff_ffff_ffff,
    ensures
        r == round_half_even(n as nat, d as nat),
{
    if d == 0 {
        0
    } else {
        let q = n / d;
        let rem = n % d;
        if rem > d - rem || (rem == d - rem && q % 2 == 1) {
            assert(q <= n) by (nonlinear_arith)
                requires
                    q == n / d,
                    d > 0,
            ;
            q + 1
        } else {
            q
        }
    }
}

impl ReportSummary {
    /// The counts are consistent: no more full or partial entries than entries.
    pub open spec fn wf(&self) -> bool {
        self.full + self.partial <= self.rows
    }

    /// Availability in tenths of a percent, rounded to the nearest, ties to even.
    pub fn availability_tenths(&self) -> (r: u64)
        requires
            self.wf(),
        ensures
            r == availability_tenths(*self),
            r <= 1000,
    {
        let n: u128 = 500 * (2 * (self.full as u128) + (self.partial as u128));
        let t = round_half_even_exec(n, self.rows as u128);
        proof {
            let nn = n as nat;
            let d = self.rows as nat;
            if d > 0 {
                assert(nn <= 1000 * d);
                assert(nn / d <= 1000 && (nn / d == 1000 ==> nn % d == 0)) by (nonlinear_arith)
                    requires
                        d > 0,
                        nn <= 1000 * d,
                ;
            }
        }
        t as u64
    }
}

/// The rows of the report table, ranked from one in the order of the summaries.
pub open spec fn report_rows(summaries: Seq<ReportSummary>, now: i64) -> Seq<Seq<Seq<char>>> {
    Seq::new(summaries.len(), |k: int| summary_row((k + 1) as nat, summaries[k], now))
}

/// The report reply for these summaries, as of `now`.
pub open spec fn report_reply_text(summaries: Seq<ReportSummary>, now: i64) -> Seq<char> {
    report_frame(
        shown_period(summaries),
        table_text(report_titles(), report_rows(summaries, now)),
    )
}

/// A percentage given in tenths, with one decimal.
pub fn percent_to_text(t: u64) -> (r: String)
    ensures
        r@ == percent_text(t as nat),
{
    let whole = u64_to_text(t / 10);
    proof {
        reveal_strlit(".");
    }
    let r = whole.concat(".").concat(digit_str(t % 10)).concat(" %");
    assert(r@ =~= percent_text(t as nat));
    r
}

/// Whole days from `last` to `now`, truncated toward zero.
pub fn days_ago(now: i64, last: i64) -> (r: i64)
    ensures
        r == days_between(now as int, last as int),
{
    let d: i128 = (now as i128) - (last as i128);
    if d >= 0 {
        (d / 86400) as i64
    } else {
        let m: i128 = (-d) / 86400;
        (-m) as i64
    }
}

/// `Today`, or `N days ago`.
pub fn recency_to_text(days: i64) -> (r: String)
    ensures
        r@ == recency_text(days as int),
{
    if days != 0 {
        i64_to_text(days).concat(" days ago")
    } else {
        String::from_str("Today")
    }
}

fn summary_cells(idx: u64, s: &ReportSummary, now: i64) -> (r: Vec<String>)
    requires
        s.wf(),
    ensures
        r@.map_values(|c: String| c@) == summary_row(idx as nat, *s, now),
{
    let rank = u64_to_text(idx);
    let percent = percent_to_text(s.availability_tenths());
    let recency = recency_to_text(days_ago(now, s.last_update));
    let r = vec![rank, s.name.clone(), percent, recency];
    assert(r@.map_values(|c: String| c@) =~= summary_row(idx as nat, *s, now));
    r
}

/// The report reply: the window, then a table ranking each summary with its availability and
/// how long ago its latest update was.
pub fn render_report(summaries: &Vec<ReportSummary>, now: i64) -> (r: String)
    requires
        forall|k: int| 0 <= k < summaries@.len() ==> (#[trigger] summaries@[k]).wf(),
    ensures
        r@ == report_reply_text(summaries@, now),
{
    let mut rows: Vec<Vec<String>> = Vec::new();
    let mut i: usize = 0;
    while i < summaries.len()
        invariant
            i <= summaries@.len(),
            forall|k: int| 0 <= k < summaries@.len() ==> (#[trigger] summaries@[k]).wf(),
            rows@.len() == i,
            forall|k: int|
                0 <= k < i ==> (#[trigger] rows@[k])@.map_values(|c: String| c@) == summary_row(
                    (k + 1) as nat,
                    summaries@[k],
                    now,
                ),
        decreases summaries@.len() - i,
    {
        let cells = summary_cells((i as u64) + 1, &summaries[i], now);
        rows.push(cells);
        i = i + 1;
    }
    assert(board_view(rows@) =~= report_rows(summaries@, now));
    let titles = vec![
        String::from_str("#"),
        String::from_str("Full Name"),
        String::from_str("Availability"),
        String::from_str("Updated"),
    ];
    assert(titles@.map_values(|c: String| c@) =~= report_titles());
    let table = render_table(&titles, &rows);
    let period = if summaries.len() > 0 {
        summaries[0].period
    } else {
        TimeOffset::default_offset()
    };
    frame_report(period, table.as_str())
}

/// The report reply around an already rendered table.
pub fn frame_report(period: TimeOffset, table: &str) -> (r: String)
    ensures
        r@ == report_frame(period, table@),
{
    let p = period.to_text();
    String::from_str("<pre>Report [").concat(p.as_str()).concat("]:\n").concat(table).concat(
        "\n</pre>",
    )
}

/// The table row of the group of rows named `n`, ranked `idx`.
pub open spec fn group_row(idx: nat, rows: Seq<Report>, n: Seq<char>, now: i64) -> Seq<Seq<char>> {
    seq![
        decimal(idx),
        n,
        percent_text(tenths_of(group_full(rows, n), group_partial(rows, n), group_count(rows, n))),
        recency_text(days_between(now as int, group_latest(rows, n) as int)),
    ]
}

/// The report reply for raw rows over window `period`, as of `now`: one table row per
/// participant name, in order of first appearance.
pub open spec fn rows_report_text(rows: Seq<Report>, period: TimeOffset, now: i64) -> Seq<char> {
    let names = group_names(rows);
    report_frame(
        if names.len() > 0 {
            period
        } else {
            TimeOffset::Day(0)
        },
        table_text(
            report_titles(),
            Seq::new(names.len(), |k: int| group_row((k + 1) as nat, rows, names[k], now)),
        ),
    )
}

/// Summarises raw rows over window `period` and renders the report reply as of `now`.
pub fn report_reply(rows: &Vec<Report>, period: TimeOffset, now: i64) -> (r: String)
    ensures
        r@ == rows_report_text(rows@, period, now),
{
    let summaries = make_report(rows, period);
    proof {
        assert forall|k: int| 0 <= k < summaries@.len() implies (#[trigger] summaries@[k]).wf() by {
            lemma_group_facts(rows@, group_names(rows@)[k]);
        }
        let names = group_names(rows@);
        assert(report_rows(summaries@, now) =~= Seq::new(
            names.len(),
            |k: int| group_row((k + 1) as nat, rows@, names[k], now),
        ));
    }
    render_report(&summaries, now)
}

} // verus!
