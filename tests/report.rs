use guardian::clock::{text_to_time, time_to_text};
use guardian::fsm::Data;
use guardian::report::{make_report, percent_to_text, report_reply, days_ago, Report, TimeOffset};
use guardian::store::{SurveyEntry, User};
use guardian::user_data::UserData;

fn row(name: &str, chat_id: i64, ts: &str, network: bool, electricity: bool) -> Report {
    let mut r = Report::new();
    r.name = name.to_string();
    r.manager = "Elina Bodzhek".to_string();
    r.chat_id = chat_id;
    r.timestamp = ts.to_string();
    r.network = network;
    r.electricity = electricity;
    r
}

#[test]
fn availability_of_three_rows_is_half() {
    let rows = vec![
        row("Ann", 1, "2024-01-01 10:00:00", true, true),
        row("Ann", 1, "2024-01-02 10:00:00", true, false),
        row("Ann", 1, "2024-01-03 10:00:00", false, false),
    ];
    let summaries = make_report(&rows, TimeOffset::Day(-7));
    assert_eq!(summaries.len(), 1);
    let s = &summaries[0];
    assert_eq!((s.rows, s.full, s.partial), (3, 1, 1));
    assert_eq!(s.availability_tenths(), 500);
    assert_eq!(percent_to_text(s.availability_tenths()), "50.0 %");
    assert_eq!(s.last_update, text_to_time("2024-01-03 10:00:00").unwrap());
    assert_eq!(s.period, TimeOffset::Day(-7));
}

#[test]
fn groups_follow_first_appearance() {
    let rows = vec![
        row("Bob", 2, "2024-01-01 10:00:00", true, true),
        row("Ann", 1, "bad time", true, false),
        row("Bob", 2, "2024-01-01 09:00:00", false, true),
    ];
    let summaries = make_report(&rows, TimeOffset::Month(-1));
    assert_eq!(summaries.len(), 2);
    assert_eq!(summaries[0].name, "Bob");
    assert_eq!(summaries[0].rows, 2);
    assert_eq!(summaries[0].last_update, text_to_time("2024-01-01 10:00:00").unwrap());
    assert_eq!(summaries[1].name, "Ann");
    assert_eq!(summaries[1].last_update, 0);
    assert_eq!(summaries[1].availability_tenths(), 500);
}

#[test]
fn percent_rounds_half_to_even() {
    let rows: Vec<Report> = (0..3)
        .map(|i| row("Cy", 3, "2024-01-01 10:00:00", i == 0, i == 0))
        .collect();
    let s = &make_report(&rows, TimeOffset::Day(-1))[0];
    assert_eq!(s.availability_tenths(), 333);
    assert_eq!(percent_to_text(333), "33.3 %");
    assert_eq!(percent_to_text(1000), "100.0 %");
    assert_eq!(percent_to_text(5), "0.5 %");
}

#[test]
fn empty_report_is_headed_with_empty_window() {
    let text = report_reply(&vec![], TimeOffset::Day(-1), 0);
    assert!(text.starts_with("<pre>Report [Day(0)]:\n"));
    assert!(text.ends_with("\n</pre>"));
}

#[test]
fn report_table_lists_each_participant() {
    let now = text_to_time("2024-01-04 12:00:00").unwrap();
    let rows = vec![
        row("Ann", 1, "2024-01-01 10:00:00", true, true),
        row("Bob", 2, "2024-01-04 11:00:00", true, false),
    ];
    let text = report_reply(&rows, TimeOffset::Day(-7), now);
    assert!(text.starts_with("<pre>Report [Day(-7)]:\n"));
    assert!(text.contains("Full Name"));
    assert!(text.contains("Ann"));
    assert!(text.contains("100.0 %"));
    assert!(text.contains("3 days ago"));
    assert!(text.contains("Bob"));
    assert!(text.contains("50.0 %"));
    assert!(text.contains("Today"));
}

#[test]
fn whole_days_truncate_toward_zero() {
    assert_eq!(days_ago(86_399, 0), 0);
    assert_eq!(days_ago(86_400, 0), 1);
    assert_eq!(days_ago(0, 86_400 * 2 + 5), -2);
}

#[test]
fn timestamps_round_trip_through_text() {
    let t = text_to_time("2023-11-14 22:13:20").unwrap();
    assert_eq!(t, 1_700_000_000);
    assert_eq!(time_to_text(t), "2023-11-14 22:13:20");
    assert_eq!(text_to_time("14/11/2023"), None);
}

#[test]
fn store_restores_idle_sessions_from_rows() {
    let rows = vec![
        row("Ann", 1, "2024-01-01 10:00:00", true, true),
        row("Bob", 2, "2024-01-01 10:00:00", true, true),
        row("Anna", 1, "2024-01-02 10:00:00", true, true),
    ];
    let store = UserData::new().init(&rows, 500);
    assert_eq!(store.collect_chat_ids(), vec![1, 2]);
    let s = store.get(1).unwrap();
    assert_eq!(s.data().name, "Anna");
    assert_eq!(s.data().utc, 500);
}

#[test]
fn records_start_out_empty() {
    let u = User::new();
    assert_eq!((u.id, u.name.as_str(), u.manager.as_str(), u.chat_id), (0, "John Doe", "Richard Roe", 0));
    let s = SurveyEntry::new();
    assert!(s.network && s.electricity && s.timestamp.is_empty());
    let d = Data::new(9);
    assert_eq!(d.save_record().entry.timestamp, "1970-01-01 00:00:00");
}
