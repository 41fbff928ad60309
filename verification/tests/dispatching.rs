use copy_translator::dispatch::{
    accumulate_selection, arm_translate, clear_on_right, take_dispatch, AccumBuffer,
};
use copy_translator::session::{fallback_text, finish_translation, Lang, Session, Status};

fn fresh() -> (AccumBuffer, Session) {
    (AccumBuffer::new(), Session::new(String::new(), Lang::Auto, Lang::Zh))
}

#[test]
fn selection_publishes_accumulated_text() {
    let (mut buf, mut session) = fresh();
    accumulate_selection(&mut buf, &mut session, true, false, Some("hello".to_string()));
    assert_eq!(buf.accumulated_text, "hello");
    assert_eq!(buf.last_seen_clipboard, "hello");
    assert_eq!(session.text, "hello");
    assert_eq!(session.status, Status::Idle);
}

#[test]
fn unchanged_clipboard_accumulates_once() {
    let (mut buf, mut session) = fresh();
    accumulate_selection(&mut buf, &mut session, true, false, Some("a".to_string()));
    accumulate_selection(&mut buf, &mut session, true, false, Some("a".to_string()));
    assert_eq!(buf.accumulated_text, "a");
    assert_eq!(session.text, "a");
}

#[test]
fn changed_clipboard_appends() {
    let (mut buf, mut session) = fresh();
    accumulate_selection(&mut buf, &mut session, true, false, Some("a".to_string()));
    accumulate_selection(&mut buf, &mut session, true, false, Some("b".to_string()));
    assert_eq!(buf.accumulated_text, "ab");
    assert_eq!(session.text, "ab");
}

#[test]
fn no_selection_reads_nothing() {
    let (mut buf, mut session) = fresh();
    accumulate_selection(&mut buf, &mut session, false, false, Some("a".to_string()));
    assert_eq!(buf.accumulated_text, "");
    assert_eq!(session.text, "");
}

#[test]
fn selection_over_own_window_is_skipped() {
    let (mut buf, mut session) = fresh();
    accumulate_selection(&mut buf, &mut session, true, true, Some("a".to_string()));
    assert_eq!(buf.accumulated_text, "");
}

#[test]
fn unavailable_clipboard_is_skipped() {
    let (mut buf, mut session) = fresh();
    accumulate_selection(&mut buf, &mut session, true, false, None);
    assert_eq!(buf.accumulated_text, "");
}

#[test]
fn middle_click_then_dispatch() {
    let (mut buf, mut session) = fresh();
    accumulate_selection(&mut buf, &mut session, true, false, Some("hello".to_string()));
    arm_translate(&mut buf, true);
    let req = take_dispatch(&mut buf, &mut session).expect("a request");
    assert_eq!(req.text, "hello");
    assert_eq!(req.source_lang, Lang::Auto);
    assert_eq!(req.target_lang, Lang::Zh);
    assert_eq!(session.status, Status::InProgress);
    assert!(take_dispatch(&mut buf, &mut session).is_none());
}

#[test]
fn failed_call_shows_fallback_text() {
    let (mut buf, mut session) = fresh();
    accumulate_selection(&mut buf, &mut session, true, false, Some("hello".to_string()));
    arm_translate(&mut buf, true);
    let _req = take_dispatch(&mut buf, &mut session).expect("a request");
    finish_translation(&mut session, None);
    assert_eq!(session.text, fallback_text());
    assert_eq!(session.status, Status::Idle);
}

#[test]
fn no_dispatch_without_trigger() {
    let (mut buf, mut session) = fresh();
    accumulate_selection(&mut buf, &mut session, true, false, Some("hello".to_string()));
    assert!(take_dispatch(&mut buf, &mut session).is_none());
    assert_eq!(session.status, Status::Idle);
}

#[test]
fn unchanged_text_is_not_redispatched() {
    let (mut buf, mut session) = fresh();
    accumulate_selection(&mut buf, &mut session, true, false, Some("a".to_string()));
    arm_translate(&mut buf, true);
    assert!(take_dispatch(&mut buf, &mut session).is_some());
    finish_translation(&mut session, Some("A".to_string()));
    arm_translate(&mut buf, true);
    assert!(take_dispatch(&mut buf, &mut session).is_none());
    accumulate_selection(&mut buf, &mut session, true, false, Some("b".to_string()));
    arm_translate(&mut buf, true);
    let req = take_dispatch(&mut buf, &mut session).expect("a request");
    assert_eq!(req.text, "ab");
}

#[test]
fn right_click_at_startup_is_a_no_op() {
    let (mut buf, mut session) = fresh();
    clear_on_right(&mut buf, &mut session, true);
    assert_eq!(buf.accumulated_text, "");
    assert_eq!(buf.last_seen_clipboard, "");
    assert_eq!(buf.last_dispatched_text, "");
    assert!(!buf.do_translate);
    assert!(!buf.result_staged);
    assert_eq!(session.text, "");
}

#[test]
fn right_click_clears_buffers_and_text() {
    let (mut buf, mut session) = fresh();
    accumulate_selection(&mut buf, &mut session, true, false, Some("a".to_string()));
    arm_translate(&mut buf, true);
    clear_on_right(&mut buf, &mut session, true);
    assert_eq!(buf.accumulated_text, "");
    assert_eq!(buf.last_seen_clipboard, "");
    assert!(!buf.do_translate);
    assert_eq!(session.text, "");
}

#[test]
fn right_click_keeps_a_staged_result() {
    let (mut buf, mut session) = fresh();
    accumulate_selection(&mut buf, &mut session, true, false, Some("a".to_string()));
    arm_translate(&mut buf, true);
    let _req = take_dispatch(&mut buf, &mut session).expect("a request");
    finish_translation(&mut session, Some("A".to_string()));
    clear_on_right(&mut buf, &mut session, true);
    assert_eq!(session.text, "A");
    assert_eq!(buf.accumulated_text, "");
    assert!(!buf.result_staged);
    clear_on_right(&mut buf, &mut session, true);
    assert_eq!(session.text, "");
}

#[test]
fn no_right_click_changes_nothing() {
    let (mut buf, mut session) = fresh();
    accumulate_selection(&mut buf, &mut session, true, false, Some("a".to_string()));
    clear_on_right(&mut buf, &mut session, false);
    assert_eq!(buf.accumulated_text, "a");
    assert_eq!(session.text, "a");
}
