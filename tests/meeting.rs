use actura::meeting::{click_toggles, greet, MeetingState};

#[test]
fn shortcut_toggle_titles_a_manual_meeting() {
    let mut m = MeetingState::idle();
    m.toggle_manual();
    assert!(m.in_meeting);
    assert_eq!(m.meeting_title.as_deref(), Some("Manual Meeting"));
    m.toggle_manual();
    assert!(!m.in_meeting);
    assert_eq!(m.meeting_title, None);
}

#[test]
fn tray_toggle_keeps_the_title() {
    let mut m = MeetingState::ready();
    assert!(m.in_meeting);
    assert_eq!(m.meeting_title.as_deref(), Some("Ready"));
    m.toggle();
    assert!(!m.in_meeting);
    assert_eq!(m.meeting_title.as_deref(), Some("Ready"));
}

#[test]
fn clicks_closer_than_the_gap_are_ignored() {
    assert!(click_toggles(1300, 1000));
    assert!(!click_toggles(1299, 1000));
    assert!(!click_toggles(900, 1000));
    assert!(click_toggles(5000, 0));
}

#[test]
fn greet_names_the_caller() {
    assert_eq!(greet("Ada"), "Hello, Ada! You've been greeted from Rust!");
    assert_eq!(greet(""), "Hello, ! You've been greeted from Rust!");
}
