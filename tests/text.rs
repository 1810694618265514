use guardian::reply::{reply_menu_texted, reply_not_emplemented, ReplyEnum};
use guardian::event::{Event, UserDisplay};
use guardian::text::{i64_to_text, is_name_text, trim, u64_to_text};

#[test]
fn text_maps_to_first_matching_event() {
    assert_eq!(Event::from_string("start"), Some(Event::Start));
    assert_eq!(Event::from_string("/START"), Some(Event::Start));
    assert_eq!(Event::from_string("Allright"), Some(Event::Allright));
    assert_eq!(Event::from_string("Elina Bodzhek"), Some(Event::LMElina));
    assert_eq!(Event::from_string("My Team"), Some(Event::ReportTeam));
    assert_eq!(Event::from_string("Week"), Some(Event::ReportOffsetWeek));
    assert_eq!(Event::from_string("xyz"), None);
}

#[test]
fn substring_matching_is_order_dependent() {
    // "all right" holds "all" but not "allright": the scope choice wins.
    assert_eq!(Event::from_string("all right"), Some(Event::ReportAll));
    // "report" comes before "me" in the declared order.
    assert_eq!(Event::from_string("report me"), Some(Event::Report));
    assert_eq!(Event::from_string("None of these"), Some(Event::NoEvent));
}

#[test]
fn labels_for_participants() {
    assert_eq!(Event::ReportTeam.to_user_string(), "My Team");
    assert_eq!(Event::LMYevgen.to_user_string(), "Yevgen Kutsenko");
    assert_eq!(Event::Allright.to_user_string(), "Allright");
    assert_eq!(Event::Impact(3).to_user_string(), "Impact(3)");
    assert_eq!(Event::Name("Jo".to_string()).to_user_string(), "Name(\"Jo\")");
}

#[test]
fn lowered_matching_needs_lowercase() {
    assert_eq!(Event::from_lowered("START"), None);
    assert_eq!(Event::from_lowered("start"), Some(Event::Start));
}

#[test]
fn trimming_and_name_check() {
    assert_eq!(trim("  Jane Doe \t"), "Jane Doe");
    assert_eq!(trim("   "), "");
    assert!(is_name_text("Jane Doe 2"));
    assert!(is_name_text("Олена"));
    assert!(!is_name_text("O'Brien"));
}

#[test]
fn decimal_rendering() {
    assert_eq!(u64_to_text(0), "0");
    assert_eq!(u64_to_text(1234567890), "1234567890");
    assert_eq!(i64_to_text(-7), "-7");
    assert_eq!(i64_to_text(i64::MIN), "-9223372036854775808");
}

#[test]
fn menu_keyboard_shows_commands() {
    match reply_menu_texted("Pick one") {
        ReplyEnum::KeyboardMenu(m) => {
            assert_eq!(m.text, "Pick one");
            assert_eq!(m.keyboard, vec![vec!["/survey\n".to_string(), "/report\n".to_string()]]);
        }
        _ => panic!("expected a menu"),
    }
    match reply_not_emplemented() {
        ReplyEnum::Text(t) => assert_eq!(t, "Not implemented, sorry"),
        _ => panic!("expected text"),
    }
}
