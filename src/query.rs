//! Text of the queries the storage runs to fetch survey rows joined with identities.
use vstd::prelude::*;

use crate::clock::{shown_time, time_to_text, TIME_FORMAT};
use crate::report::TimeOffset;
use crate::text::{i64_to_text, signed_decimal};

verus! {

/// Table of identity records, and table of survey rows.
pub const USER_TABLE: &'static str = "user";
pub const SURVEY_TABLE: &'static str = "survey";

pub open spec fn select_text() -> Seq<char> {
    "SELECT name,manager,chat_id,timestamp,electricity,network FROM user \n                INNER JOIN survey \n                ON survey.user_id=user.id "@
}

/// The window as the storage's date arithmetic writes it, e.g. `-7 day`.
pub open spec fn window_text(o: TimeOffset) -> Seq<char> {
    match o {
        TimeOffset::Day(d) => signed_decimal(d as int) + " day"@,
        TimeOffset::Month(m) => signed_decimal(m as int) + " month"@,
    }
}

/// The condition that a row's time lies within the window before `now`.
pub open spec fn time_condition(o: TimeOffset, now: i64) -> Seq<char> {
    " strftime('"@ + TIME_FORMAT@ + "', timestamp) >= strftime('"@ + TIME_FORMAT@ + "', '"@
        + shown_time(now) + "', '"@ + window_text(o) + "') "@
}

/// Builds a query for survey rows step by step.
pub struct ReportQueryBuilder {
    query: String,
}

impl ReportQueryBuilder {
    pub closed spec fn text(&self) -> Seq<char> {
        self.query@
    }

    /// An empty query.
    pub fn new() -> (r: ReportQueryBuilder)
        ensures
            r.text() == Seq::<char>::empty(),
    {
        ReportQueryBuilder { query: String::new() }
    }

    /// Selects the report columns of survey rows joined with their identities.
    pub fn select(self) -> (r: ReportQueryBuilder)
        ensures
            r.text() == self.text() + select_text(),
    {
        ReportQueryBuilder {
            query: self.query.concat(
                "SELECT name,manager,chat_id,timestamp,electricity,network FROM user \n                INNER JOIN survey \n                ON survey.user_id=user.id ",
            ),
        }
    }

    pub fn where_(self) -> (r: ReportQueryBuilder)
        ensures
            r.text() == self.text() + " WHERE "@,
    {
        ReportQueryBuilder { query: self.query.concat(" WHERE ") }
    }

    pub fn and(self) -> (r: ReportQueryBuilder)
        ensures
            r.text() == self.text() + " AND "@,
    {
        ReportQueryBuilder { query: self.query.concat(" AND ") }
    }

    /// The condition that column `name` holds `value`.
    pub fn cond_header(self, name: &str, value: &str) -> (r: ReportQueryBuilder)
        ensures
            r.text() == self.text() + " "@ + name@ + "='"@ + value@ + "' "@,
    {
        ReportQueryBuilder {
            query: self.query.concat(" ").concat(name).concat("='").concat(value).concat("' "),
        }
    }

    /// The condition that a row's time lies within the window before `now`.
    pub fn cond_time(self, offset: &TimeOffset, now: i64) -> (r: ReportQueryBuilder)
        ensures
            r.text() == self.text() + time_condition(*offset, now),
    {
        let window = match offset {
            TimeOffset::Day(d) => i64_to_text(*d).concat(" day"),
            TimeOffset::Month(m) => i64_to_text(*m).concat(" month"),
        };
        let now_text = time_to_text(now);
        let cond = String::from_str(" strftime('").concat(TIME_FORMAT).concat(
            "', timestamp) >= strftime('",
        ).concat(TIME_FORMAT).concat("', '").concat(now_text.as_str()).concat("', '").concat(
            window.as_str(),
        ).concat("') ");
        assert(cond@ =~= time_condition(*offset, now));
        ReportQueryBuilder { query: self.query.concat(cond.as_str()) }
    }

    /// Keeps only the latest survey row.
    pub fn order(self) -> (r: ReportQueryBuilder)
        ensures
            r.text() == self.text() + " ORDER BY survey.id DESC LIMIT 1 "@,
    {
        ReportQueryBuilder { query: self.query.concat(" ORDER BY survey.id DESC LIMIT 1 ") }
    }

    /// The query text.
    pub fn get(self) -> (r: String)
        ensures
            r@ == self.text(),
    {
        self.query
    }
}

} // verus!
