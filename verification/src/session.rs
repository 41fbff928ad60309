//! The one shared translation session: the text on show, the language pair,
//! and whether a translation call is under way. Both dispatchers snapshot it,
//! hand the snapshot to the translation call, and write the outcome back.

use vstd::prelude::*;
use vstd::string::StringExecFns;

verus! {

/// A translation source or target language.
#[derive(Clone, Copy, Debug, PartialEq, Eq, Structural)]
pub enum Lang {
    Auto,
    Zh,
}

/// Whether a translation call is currently under way.
#[derive(Clone, Copy, Debug, PartialEq, Eq, Structural)]
pub enum Status {
    Idle,
    InProgress,
}

/// The shared record that every dispatcher reads and writes.
#[derive(Debug)]
pub struct Session {
    pub text: String,
    pub source_lang: Lang,
    pub target_lang: Lang,
    pub status: Status,
}

/// A snapshot handed to the translation call: what to translate, and between
/// which languages.
#[derive(Debug)]
pub struct TranslateRequest {
    pub text: String,
    pub source_lang: Lang,
    pub target_lang: Lang,
}

/// The text shown in place of a result when the translation call fails.
pub open spec fn fallback_view() -> Seq<char> {
    "翻译接口失效，请更换"@
}

impl Session {
    pub fn new(text: String, source_lang: Lang, target_lang: Lang) -> (r: Session)
        ensures
            r.text@ == text@,
            r.source_lang == source_lang,
            r.target_lang == target_lang,
            r.status == Status::Idle,
    {
        Session { text, source_lang, target_lang, status: Status::Idle }
    }
}

/// The fixed fallback text as a value.
pub fn fallback_text() -> (r: String)
    ensures
        r@ == fallback_view(),
{
    String::from_str("翻译接口失效，请更换")
}

/// Writes a finished call's outcome into the session: the translated text on
/// success, the fixed fallback text on failure. Either way the session comes
/// back to idle and keeps its language pair.
pub fn finish_translation(session: &mut Session, outcome: Option<String>)
    ensures
        final(session).text@ == (match outcome {
            Some(t) => t@,
            None => fallback_view(),
        }),
        final(session).status == Status::Idle,
        final(session).source_lang == old(session).source_lang,
        final(session).target_lang == old(session).target_lang,
{
    match outcome {
        Some(t) => {
            session.text = t;
        }
        None => {
            session.text = fallback_text();
        }
    }
    session.status = Status::Idle;
}

/// On a manual trigger: snapshot the whole session for the translation call
/// and mark the session in progress. The text itself is what is translated.
pub fn manual_request(session: &mut Session) -> (r: TranslateRequest)
    ensures
        r.text@ == old(session).text@,
        r.source_lang == old(session).source_lang,
        r.target_lang == old(session).target_lang,
        final(session).text@ == old(session).text@,
        final(session).source_lang == old(session).source_lang,
        final(session).target_lang == old(session).target_lang,
        final(session).status == Status::InProgress,
{
    session.status = Status::InProgress;
    TranslateRequest {
        text: session.text.clone(),
        source_lang: session.source_lang,
        target_lang: session.target_lang,
    }
}

/// What `str::trim` leaves of a string.
pub uninterp spec fn trim_of(s: Seq<char>) -> Seq<char>;

/// Relies on str::trim: strips leading and trailing whitespace; the result
/// depends on the characters alone, and an empty string stays empty.
#[verifier::external_body]
fn trim<'a>(s: &'a str) -> (r: &'a str)
    ensures
        r@ == trim_of(s@),
        s@.len() == 0 ==> r@.len() == 0,
{
    s.trim()
}

/// The seed a startup clipboard gives: its trimmed text, when that is
/// non-empty.
pub open spec fn seeded_text(clipboard: Option<String>) -> Option<Seq<char>> {
    match clipboard {
        Some(c) => if trim_of(c@).len() > 0 {
            Some(trim_of(c@))
        } else {
            None
        },
        None => None,
    }
}

/// One-shot startup seeding: non-empty trimmed clipboard text becomes the
/// session text and a translation request for it, before any gesture has
/// occurred; an empty or unavailable clipboard leaves the session alone.
pub fn bootstrap_request(session: &mut Session, clipboard: Option<String>) -> (r: Option<
    TranslateRequest,
>)
    ensures
        match seeded_text(clipboard) {
            Some(t) => {
                &&& (r matches Some(req) && req.text@ == t
                    && req.source_lang == old(session).source_lang
                    && req.target_lang == old(session).target_lang)
                &&& final(session).text@ == t
                &&& final(session).status == Status::InProgress
            },
            None => {
                &&& r is None
                &&& *final(session) == *old(session)
            },
        },
        final(session).source_lang == old(session).source_lang,
        final(session).target_lang == old(session).target_lang,
{
    match clipboard {
        Some(c) => {
            let trimmed = trim(c.as_str());
            if !trimmed.is_empty() {
                session.text = trimmed.to_owned();
                session.status = Status::InProgress;
                Some(TranslateRequest {
                    text: trimmed.to_owned(),
                    source_lang: session.source_lang,
                    target_lang: session.target_lang,
                })
            } else {
                None
            }
        }
        None => None,
    }
}

} // verus!
