use guardian::clock::text_to_time;
use guardian::event::Event;
use guardian::error::Error;
use guardian::fsm::{survey_save, Answer, Data, Request, State, StateTag, Transition};
use guardian::reply::ReplyEnum;
use guardian::store::debounce;
use guardian::user_data::UserData;

const NOW: i64 = 1_700_000_000;

fn text_of(reply: &Option<ReplyEnum>) -> String {
    match reply {
        Some(ReplyEnum::Text(t)) => t.clone(),
        Some(ReplyEnum::KeyboardInline(k)) => k.text.clone(),
        Some(ReplyEnum::KeyboardMenu(k)) => k.text.clone(),
        _ => String::new(),
    }
}

fn all_tags() -> Vec<StateTag> {
    vec![
        StateTag::New,
        StateTag::Idle,
        StateTag::RegName,
        StateTag::RegManager,
        StateTag::SurvEntry,
        StateTag::SurvMore,
        StateTag::Report,
        StateTag::ReportFrame,
    ]
}

#[test]
fn test_fsm_alt() {}

#[test]
fn help_keeps_every_state() {
    for tag in all_tags() {
        let mut data = Data::new(5);
        data.name = "Ann".to_string();
        data.utc = 123;
        let (next, save) = State::wrap(tag, data).consume(Event::Help).transit(&Answer::Nothing, NOW);
        assert_eq!(next.tag(), tag);
        assert_eq!(next.data().name, "Ann");
        assert_eq!(next.data().utc, 123);
        assert!(save.is_none());
        assert!(text_of(&next.reply()).starts_with("/help - Prints this help"));
    }
}

#[test]
fn unmatched_event_is_silent() {
    let mut data = Data::new(5);
    data.reply = Some(ReplyEnum::Text("old".to_string()));
    data.utc = 9;
    let t = State::wrap(StateTag::Idle, data).consume(Event::Back);
    assert!(matches!(t, Transition::Shallow { .. }));
    let (next, save) = t.transit(&Answer::Nothing, NOW);
    assert_eq!(next.tag(), StateTag::Idle);
    assert!(next.reply().is_none());
    assert_eq!(next.data().utc, 9);
    assert!(save.is_none());
}

#[test]
fn plain_name_moves_on_trimmed() {
    let t = State::wrap(StateTag::RegName, Data::new(1)).consume_as_str("  Jane Doe ");
    let (next, _) = t.transit(&Answer::Nothing, NOW);
    assert_eq!(next.tag(), StateTag::RegManager);
    assert_eq!(next.data().name, "Jane Doe");
    assert_eq!(next.data().utc, NOW);
    match next.reply() {
        Some(ReplyEnum::KeyboardInline(k)) => {
            assert_eq!(k.text, "Choose your manager");
            assert_eq!(k.keyboard.len(), 5);
            assert_eq!(k.keyboard[0], vec!["Elina Bodzhek".to_string()]);
        }
        _ => panic!("expected the manager choice"),
    }
}

#[test]
fn apostrophe_name_falls_back() {
    let t = State::wrap(StateTag::RegName, Data::new(1)).consume_as_str("O'Brien");
    let (next, _) = t.transit(&Answer::Nothing, NOW);
    assert_eq!(next.tag(), StateTag::RegName);
    assert_eq!(next.data().name, "");
    assert_eq!(text_of(&next.reply()), "Only characters allowed");
}

#[test]
fn rename_restarts_registration_from_any_state() {
    let t = State::wrap(StateTag::SurvMore, Data::new(1)).consume(Event::Rename);
    let (next, _) = t.transit(&Answer::Nothing, NOW);
    assert_eq!(next.tag(), StateTag::RegName);
    assert_eq!(text_of(&next.reply()), "Enter your Full name (the same as in company profile)");
}

#[test]
fn repeated_manager_choice_asks_for_the_same_record() {
    let mut data = Data::new(77);
    data.name = "Jane Doe".to_string();
    let t1 = State::wrap(StateTag::RegManager, data).consume_as_str("Mikhail Maslyukov");
    let first = match t1.request() {
        Request::SaveUser(u) => u,
        _ => panic!("expected an identity save"),
    };
    assert_eq!(first.name, "Jane Doe");
    assert_eq!(first.manager, "Mikhail Maslyukov");
    assert_eq!(first.chat_id, 77);
    let (s2, _) = t1.transit(&Answer::Saved(Err("database is locked".to_string())), NOW);
    assert_eq!(s2.tag(), StateTag::RegManager);
    assert_eq!(text_of(&s2.reply()), "Can't save: database is locked");
    assert_eq!(s2.data().manager, "Mikhail Maslyukov");
    let t2 = s2.consume_as_str("Mikhail Maslyukov");
    let second = match t2.request() {
        Request::SaveUser(u) => u,
        _ => panic!("expected an identity save"),
    };
    assert_eq!(
        (second.name, second.manager, second.chat_id),
        (first.name, first.manager, first.chat_id)
    );
}

#[test]
fn save_five_minutes_after_previous_waits_six() {
    let last = text_to_time("2024-01-01 10:00:00").unwrap();
    assert_eq!(debounce(Some(last), last + 300), Some(6));
    assert_eq!(debounce(Some(last), last + 270), Some(6));
    assert_eq!(debounce(Some(last), last + 330), Some(5));
    assert_eq!(debounce(Some(last), last + 600), None);
    assert_eq!(debounce(Some(last), last + 599), Some(1));
    assert_eq!(debounce(None, last), None);

    let t = State::wrap(StateTag::SurvEntry, Data::new(3)).consume(Event::Allright);
    assert!(matches!(t.request(), Request::LastSurvey(3)));
    let (next, save) = t.transit(
        &Answer::LastSurvey(Some("2024-01-01 10:00:00".to_string())),
        last + 300,
    );
    assert!(save.is_none());
    assert_eq!(next.tag(), StateTag::Idle);
    assert_eq!(
        text_of(&next.reply()),
        "Too many requests now: 2024-01-01 10:05:00, last on: 2024-01-01 10:00:00, plesase wait for 6 minute(s) "
    );
}

#[test]
fn unparsable_previous_time_lets_the_save_through() {
    let t = State::wrap(StateTag::SurvEntry, Data::new(3)).consume(Event::Allright);
    let (_, save) = t.transit(&Answer::LastSurvey(Some("yesterday".to_string())), NOW);
    assert!(save.is_some());
}

#[test]
fn issue_report_saves_flags() {
    let mut data = Data::new(8);
    data.utc = text_to_time("2024-03-02 08:30:00").unwrap();
    let t = State::wrap(StateTag::SurvMore, data).consume_as_str("No Network");
    let (next, save) = t.transit(&Answer::LastSurvey(None), NOW);
    assert_eq!(next.tag(), StateTag::Idle);
    let issues = next.data().issues.unwrap();
    assert!(issues.no_network);
    assert!(!issues.no_electricity);
    let save = save.unwrap();
    assert!(!save.entry.network);
    assert!(save.entry.electricity);
    assert_eq!(save.entry.timestamp, "2024-03-02 08:30:00");
    assert_eq!(text_of(&next.reply()), "Take care");
}

#[test]
fn report_window_asks_for_rows_in_scope() {
    let mut data = Data::new(8);
    data.manager = "Elina Bodzhek".to_string();
    let (s, _) = State::wrap(StateTag::Report, data).consume_as_str("My Team").transit(&Answer::Nothing, NOW);
    assert_eq!(s.tag(), StateTag::ReportFrame);
    let t = s.consume_as_str("Week");
    match t.request() {
        Request::Rows(guardian::report::ReportType::Team(m), guardian::report::TimeOffset::Day(-7)) => {
            assert_eq!(m, "Elina Bodzhek")
        }
        other => panic!("unexpected request {:?}", other),
    }
    let (s, _) = t.transit(&Answer::Rows(Err("no table".to_string())), NOW);
    assert_eq!(s.tag(), StateTag::Idle);
    assert!(text_of(&s.reply()).starts_with("<pre>Report [Day(0)]:\n"));
}

#[test]
fn end_to_end_registration_and_survey() {
    let mut store = UserData::new();
    let t = store.begin(42, "start", NOW);
    assert!(matches!(t.request(), Request::Nothing));
    let (reply, save) = store.finish(t, &Answer::Nothing, NOW, "start");
    assert!(save.is_none());
    assert_eq!(text_of(&reply.ok()), "Enter your Full name (the same as in company profile)");
    assert_eq!(store.get(42).unwrap().tag(), StateTag::RegName);

    let t = store.begin(42, "Jane Doe", NOW + 1);
    let (reply, _) = store.finish(t, &Answer::Nothing, NOW + 1, "Jane Doe");
    assert_eq!(store.get(42).unwrap().tag(), StateTag::RegManager);
    match reply.unwrap() {
        ReplyEnum::KeyboardInline(k) => assert_eq!(k.keyboard.len(), 5),
        _ => panic!("expected the manager choice"),
    }

    let t = store.begin(42, "Elina Bodzhek", NOW + 2);
    match t.request() {
        Request::SaveUser(u) => {
            assert_eq!(u.name, "Jane Doe");
            assert_eq!(u.manager, "Elina Bodzhek");
            assert_eq!(u.chat_id, 42);
        }
        _ => panic!("expected an identity save"),
    }
    let (reply, _) = store.finish(t, &Answer::Saved(Ok(())), NOW + 2, "Elina Bodzhek");
    assert_eq!(store.get(42).unwrap().tag(), StateTag::SurvEntry);
    assert_eq!(text_of(&reply.ok()), "How are doing you today?");

    let t = store.begin(42, "Allright", NOW + 3);
    assert!(matches!(t.request(), Request::LastSurvey(42)));
    let (reply, save) = store.finish(t, &Answer::LastSurvey(None), NOW + 3, "Allright");
    assert_eq!(store.get(42).unwrap().tag(), StateTag::Idle);
    assert_eq!(text_of(&reply.ok()), "Take care");
    let save = save.unwrap();
    assert_eq!(save.user.name, "Jane Doe");
    assert_eq!(save.user.manager, "Elina Bodzhek");
    assert!(save.entry.network && save.entry.electricity);

    let t = store.begin(42, "gibberish", NOW + 4);
    let (reply, _) = store.finish(t, &Answer::Nothing, NOW + 4, "gibberish");
    assert_eq!(reply.err().and_then(|e| e.msg()), Some("Skipped input: gibberish".to_string()));
    assert_eq!(store.get(42).unwrap().tag(), StateTag::Idle);
    assert_eq!(store.collect_chat_ids(), vec![42]);
}

#[test]
fn sweep_finds_idle_and_troubled_sessions() {
    let mut store = UserData::new();
    let mut old = Data::new(1);
    old.utc = NOW - 86_401;
    store.insert(State::wrap(StateTag::Idle, old));
    let mut fresh = Data::new(2);
    fresh.utc = NOW - 86_400;
    fresh.issues = Some(guardian::fsm::Issues::new());
    store.insert(State::wrap(StateTag::Idle, fresh));
    assert_eq!(store.find_expired(NOW), vec![1]);
    assert_eq!(store.find_with_issues(), vec![2]);
}

#[test]
fn survey_save_refuses_inside_the_cooldown() {
    let mut data = Data::new(4);
    data.name = "Ann".to_string();
    let last = text_to_time("2024-01-01 10:00:00").unwrap();
    let answer = Answer::LastSurvey(Some("2024-01-01 10:00:00".to_string()));
    match survey_save(&data, &answer, last + 60) {
        Err(Error::Verbose(m)) => assert!(m.ends_with("plesase wait for 10 minute(s) ")),
        _ => panic!("expected a refusal"),
    }
    let rec = survey_save(&data, &answer, last + 600).ok().unwrap();
    assert_eq!(rec.user.name, "Ann");
    assert_eq!(rec.user.chat_id, 4);
}

#[test]
fn errors_carry_their_description() {
    assert_eq!(Error::make_verbose("boom").msg(), Some("boom".to_string()));
    assert_eq!(Error::Default.msg(), None);
    assert!(Error::Default.wrap::<()>().is_err());
}
