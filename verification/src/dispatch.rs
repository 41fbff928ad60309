//! The decision core of the two dispatch loops. The poll loop's tick runs
//! the four steps below in fixed order; the loop around them — sleeping,
//! reading the clipboard, performing the translation call — stays outside.
//! Each step is a function from the old state and the tick's inputs to the
//! new state, so every decision the loops take is stated and checked here.

use vstd::prelude::*;
use vstd::string::StringExecFns;
use crate::session::{Session, Status, TranslateRequest};

verus! {

/// What the poll loop keeps between ticks: the clipboard text last taken in,
/// the text accumulated from successive selections, the text last handed to
/// the translation call, the armed trigger, and whether a finished result is
/// still staged in the session.
#[derive(Debug)]
pub struct AccumBuffer {
    pub last_seen_clipboard: String,
    pub accumulated_text: String,
    pub last_dispatched_text: String,
    pub do_translate: bool,
    pub result_staged: bool,
}

impl AccumBuffer {
    pub fn new() -> (r: AccumBuffer)
        ensures
            r.last_seen_clipboard@ == Seq::<char>::empty(),
            r.accumulated_text@ == Seq::<char>::empty(),
            r.last_dispatched_text@ == Seq::<char>::empty(),
            r.do_translate == false,
            r.result_staged == false,
    {
        AccumBuffer {
            last_seen_clipboard: String::new(),
            accumulated_text: String::new(),
            last_dispatched_text: String::new(),
            do_translate: false,
            result_staged: false,
        }
    }
}

/// The clipboard text a selection tick takes in: only a completed select
/// gesture away from the application's own window, with clipboard content
/// that differs from the content last seen.
pub open spec fn fresh_text(
    buf: AccumBuffer,
    selected: bool,
    over_own_window: bool,
    clipboard: Option<String>,
) -> Option<Seq<char>> {
    if selected && !over_own_window {
        match clipboard {
            Some(c) => if c@ != buf.last_seen_clipboard@ {
                Some(c@)
            } else {
                None
            },
            None => None,
        }
    } else {
        None
    }
}

/// Tick step one: a fresh selection pulls the clipboard in. New text is
/// appended to the accumulated text, remembered as last seen, and published
/// into the session at once; anything else leaves every field alone.
pub fn accumulate_selection(
    buf: &mut AccumBuffer,
    session: &mut Session,
    selected: bool,
    over_own_window: bool,
    clipboard: Option<String>,
)
    ensures
        match fresh_text(*old(buf), selected, over_own_window, clipboard) {
            Some(t) => {
                &&& final(buf).last_seen_clipboard@ == t
                &&& final(buf).accumulated_text@ == old(buf).accumulated_text@ + t
                &&& final(buf).last_dispatched_text@ == old(buf).last_dispatched_text@
                &&& final(buf).do_translate == old(buf).do_translate
                &&& final(buf).result_staged == old(buf).result_staged
                &&& final(session).text@ == old(buf).accumulated_text@ + t
                &&& final(session).source_lang == old(session).source_lang
                &&& final(session).target_lang == old(session).target_lang
                &&& final(session).status == old(session).status
            },
            None => {
                &&& *final(buf) == *old(buf)
                &&& *final(session) == *old(session)
            },
        },
{
    if selected && !over_own_window {
        match clipboard {
            Some(c) => {
                if !(c == buf.last_seen_clipboard) {
                    buf.last_seen_clipboard = c.clone();
                    buf.accumulated_text.append(c.as_str());
                    session.text = buf.accumulated_text.clone();
                }
            }
            None => {}
        }
    }
}

/// Tick step two: a middle click arms the translation trigger; nothing else
/// changes, and an armed trigger stays armed.
pub fn arm_translate(buf: &mut AccumBuffer, middle_clicked: bool)
    ensures
        final(buf).do_translate == (old(buf).do_translate || middle_clicked),
        final(buf).last_seen_clipboard@ == old(buf).last_seen_clipboard@,
        final(buf).accumulated_text@ == old(buf).accumulated_text@,
        final(buf).last_dispatched_text@ == old(buf).last_dispatched_text@,
        final(buf).result_staged == old(buf).result_staged,
{
    if middle_clicked {
        buf.do_translate = true;
    }
}

/// Tick step three: a right click clears the whole accumulation state and
/// disarms the trigger; the session text clears with it unless a finished
/// result is still staged there, which the clearing click leaves on show.
pub fn clear_on_right(buf: &mut AccumBuffer, session: &mut Session, right_clicked: bool)
    ensures
        right_clicked ==> {
            &&& final(buf).last_seen_clipboard@ == Seq::<char>::empty()
            &&& final(buf).accumulated_text@ == Seq::<char>::empty()
            &&& final(buf).last_dispatched_text@ == Seq::<char>::empty()
            &&& final(buf).do_translate == false
            &&& final(buf).result_staged == false
            &&& final(session).text@ == (if old(buf).result_staged {
                old(session).text@
            } else {
                Seq::<char>::empty()
            })
        },
        !right_clicked ==> {
            &&& *final(buf) == *old(buf)
            &&& final(session).text@ == old(session).text@
        },
        final(session).source_lang == old(session).source_lang,
        final(session).target_lang == old(session).target_lang,
        final(session).status == old(session).status,
{
    if right_clicked {
        buf.last_seen_clipboard = String::new();
        buf.accumulated_text = String::new();
        buf.last_dispatched_text = String::new();
        if !buf.result_staged {
            session.text = String::new();
        }
        buf.result_staged = false;
        buf.do_translate = false;
    }
}

/// Whether tick step four dispatches: the trigger is armed and the
/// accumulated text has changed since the last dispatch.
pub open spec fn wants_dispatch(buf: AccumBuffer) -> bool {
    buf.do_translate && buf.accumulated_text@ != buf.last_dispatched_text@
}

/// Tick step four: when the armed trigger meets accumulated text that has
/// changed since the last dispatch, snapshot a request for it, record the
/// dispatch, disarm the trigger, and mark the session in progress; otherwise
/// do nothing. The caller performs the returned request and writes its
/// outcome back through `finish_translation`.
pub fn take_dispatch(buf: &mut AccumBuffer, session: &mut Session) -> (r: Option<TranslateRequest>)
    ensures
        wants_dispatch(*old(buf)) ==> {
            &&& (r matches Some(req) && req.text@ == old(buf).accumulated_text@
                && req.source_lang == old(session).source_lang
                && req.target_lang == old(session).target_lang)
            &&& final(buf).last_dispatched_text@ == old(buf).accumulated_text@
            &&& final(buf).do_translate == false
            &&& final(buf).result_staged == true
            &&& final(buf).accumulated_text@ == old(buf).accumulated_text@
            &&& final(buf).last_seen_clipboard@ == old(buf).last_seen_clipboard@
            &&& final(session).text@ == old(session).text@
            &&& final(session).status == Status::InProgress
        },
        !wants_dispatch(*old(buf)) ==> {
            &&& r is None
            &&& *final(buf) == *old(buf)
            &&& *final(session) == *old(session)
        },
        final(session).source_lang == old(session).source_lang,
        final(session).target_lang == old(session).target_lang,
{
    if buf.do_translate && !(buf.accumulated_text == buf.last_dispatched_text) {
        buf.last_dispatched_text = buf.accumulated_text.clone();
        buf.do_translate = false;
        buf.result_staged = true;
        session.status = Status::InProgress;
        Some(TranslateRequest {
            text: buf.accumulated_text.clone(),
            source_lang: session.source_lang,
            target_lang: session.target_lang,
        })
    } else {
        None
    }
}

/// Debounce: once a dispatch has recorded the accumulated text as the last
/// text handed out, no buffer whose accumulated and last dispatched texts
/// are unchanged dispatches again — however often the trigger is re-armed —
/// so an unchanged text is handed to the translation call at most once.
pub proof fn lemma_debounce(dispatched: AccumBuffer, later: AccumBuffer)
    requires
        dispatched.last_dispatched_text@ == dispatched.accumulated_text@,
        later.accumulated_text@ == dispatched.accumulated_text@,
        later.last_dispatched_text@ == dispatched.last_dispatched_text@,
    ensures
        !wants_dispatch(later),
{
}

} // verus!
