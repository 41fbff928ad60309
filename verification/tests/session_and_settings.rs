use copy_translator::cfg::{get_api, get_theme, Settings};
use copy_translator::session::{
    bootstrap_request, fallback_text, finish_translation, manual_request, Lang, Session, Status,
};

#[test]
fn manual_trigger_snapshots_the_session() {
    let mut session = Session::new("text to translate".to_string(), Lang::Auto, Lang::Zh);
    let req = manual_request(&mut session);
    assert_eq!(req.text, "text to translate");
    assert_eq!(req.source_lang, Lang::Auto);
    assert_eq!(req.target_lang, Lang::Zh);
    assert_eq!(session.status, Status::InProgress);
    assert_eq!(session.text, "text to translate");
}

#[test]
fn success_writes_the_result() {
    let mut session = Session::new("x".to_string(), Lang::Auto, Lang::Zh);
    session.status = Status::InProgress;
    finish_translation(&mut session, Some("result".to_string()));
    assert_eq!(session.text, "result");
    assert_eq!(session.status, Status::Idle);
}

#[test]
fn failure_writes_the_fallback() {
    let mut session = Session::new("x".to_string(), Lang::Auto, Lang::Zh);
    finish_translation(&mut session, None);
    assert_eq!(session.text, fallback_text());
    assert_eq!(session.status, Status::Idle);
}

#[test]
fn bootstrap_trims_and_seeds() {
    let mut session = Session::new(String::new(), Lang::Auto, Lang::Zh);
    let req = bootstrap_request(&mut session, Some("  hello world \n".to_string()))
        .expect("a request");
    assert_eq!(req.text, "hello world");
    assert_eq!(session.text, "hello world");
    assert_eq!(session.status, Status::InProgress);
}

#[test]
fn bootstrap_skips_whitespace_clipboard() {
    let mut session = Session::new("greeting".to_string(), Lang::Auto, Lang::Zh);
    assert!(bootstrap_request(&mut session, Some("   \t\n".to_string())).is_none());
    assert_eq!(session.text, "greeting");
    assert_eq!(session.status, Status::Idle);
}

#[test]
fn bootstrap_skips_missing_clipboard() {
    let mut session = Session::new("greeting".to_string(), Lang::Auto, Lang::Zh);
    assert!(bootstrap_request(&mut session, None).is_none());
    assert_eq!(session.text, "greeting");
}

#[test]
fn api_setting_falls_back_to_default() {
    let settings = Settings::new();
    assert_eq!(get_api(&settings), "https://deepl.deno.dev/translate");
}

#[test]
fn api_setting_is_respected() {
    let settings = Settings { api: Some("https://example.test/translate".to_string()), theme: None };
    assert_eq!(get_api(&settings), "https://example.test/translate");
}

#[test]
fn theme_setting_falls_back_to_default() {
    let settings = Settings::new();
    assert_eq!(get_theme(&settings), "dark");
}

#[test]
fn theme_setting_is_respected() {
    let settings = Settings { api: None, theme: Some("light".to_string()) };
    assert_eq!(get_theme(&settings), "light");
}
