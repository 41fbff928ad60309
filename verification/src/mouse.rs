//! The gesture recogniser: raw button presses, releases and pointer moves
//! become discrete gestures (a select drag, a middle click, a right click),
//! each consumed exactly once by the dispatcher that polls for it.

use vstd::prelude::*;

verus! {

/// Which mouse button a press or release concerns.
#[derive(Clone, Copy, Debug, PartialEq, Eq, Structural)]
pub enum Button {
    Left,
    Middle,
    Right,
}

/// One primitive pointer event, as the listener thread hands it over.
#[derive(Clone, Copy, Debug, PartialEq, Eq, Structural)]
pub enum ButtonEvent {
    Press(Button),
    Release(Button),
    Move,
}

/// The discrete states of the gesture recogniser. At most one button is
/// assumed to be held at a time, so one scalar state suffices.
#[derive(Clone, Copy, Debug, PartialEq, Eq, Structural)]
pub enum GestureState {
    Idle,
    DownLeft,
    Moving,
    SelectPending,
    DownMiddle,
    MiddlePending,
    DownRight,
    RightPending,
}

/// How one event moves the recogniser on from state `s`. Movement keeps a
/// left drag alive and cancels everything else; a release completes the
/// matching gesture only from the state its press put the recogniser in.
pub open spec fn step(s: GestureState, e: ButtonEvent) -> GestureState {
    match e {
        ButtonEvent::Press(Button::Left) => GestureState::DownLeft,
        ButtonEvent::Press(Button::Middle) => GestureState::DownMiddle,
        ButtonEvent::Press(Button::Right) => GestureState::DownRight,
        ButtonEvent::Move => if s == GestureState::DownLeft || s == GestureState::Moving {
            GestureState::Moving
        } else {
            GestureState::Idle
        },
        ButtonEvent::Release(Button::Left) => if s == GestureState::Moving {
            GestureState::SelectPending
        } else {
            GestureState::Idle
        },
        ButtonEvent::Release(Button::Middle) => if s == GestureState::DownMiddle {
            GestureState::MiddlePending
        } else {
            GestureState::Idle
        },
        ButtonEvent::Release(Button::Right) => if s == GestureState::DownRight {
            GestureState::RightPending
        } else {
            GestureState::Idle
        },
    }
}

/// The state after running a whole event sequence from `s`, first event first.
pub open spec fn run_steps(s: GestureState, es: Seq<ButtonEvent>) -> GestureState
    decreases es.len(),
{
    if es.len() == 0 {
        s
    } else {
        run_steps(step(s, es[0]), es.subrange(1, es.len() as int))
    }
}

/// What consuming a pending gesture `p` returns and leaves behind when the
/// recogniser stands in `g`: a hit resets to idle, a miss changes nothing.
pub open spec fn consume(g: GestureState, p: GestureState) -> (bool, GestureState) {
    if g == p {
        (true, GestureState::Idle)
    } else {
        (false, g)
    }
}

#[derive(Debug, Clone, Copy)]
pub struct MouseState {
    last_event: GestureState,
}

impl MouseState {
    /// The recogniser's current state, for contracts.
    pub closed spec fn gesture(self) -> GestureState {
        self.last_event
    }

    pub fn new() -> (r: Self)
        ensures
            r.gesture() == GestureState::Idle,
    {
        MouseState { last_event: GestureState::Idle }
    }

    pub fn down(&mut self)
        ensures
            final(self).gesture() == step(old(self).gesture(), ButtonEvent::Press(Button::Left)),
    {
        self.last_event = GestureState::DownLeft;
    }

    pub fn down_middle(&mut self)
        ensures
            final(self).gesture() == step(old(self).gesture(), ButtonEvent::Press(Button::Middle)),
    {
        self.last_event = GestureState::DownMiddle;
    }

    pub fn down_right(&mut self)
        ensures
            final(self).gesture() == step(old(self).gesture(), ButtonEvent::Press(Button::Right)),
    {
        self.last_event = GestureState::DownRight;
    }

    pub fn moving(&mut self)
        ensures
            final(self).gesture() == step(old(self).gesture(), ButtonEvent::Move),
    {
        match self.last_event {
            GestureState::DownLeft => self.last_event = GestureState::Moving,
            GestureState::Moving => self.last_event = GestureState::Moving,
            _ => self.last_event = GestureState::Idle,
        }
    }

    pub fn release(&mut self)
        ensures
            final(self).gesture() == step(old(self).gesture(), ButtonEvent::Release(Button::Left)),
    {
        match self.last_event {
            GestureState::Moving => self.last_event = GestureState::SelectPending,
            _ => self.last_event = GestureState::Idle,
        }
    }

    pub fn release_middle(&mut self)
        ensures
            final(self).gesture() == step(old(self).gesture(), ButtonEvent::Release(Button::Middle)),
    {
        match self.last_event {
            GestureState::DownMiddle => self.last_event = GestureState::MiddlePending,
            _ => self.last_event = GestureState::Idle,
        }
    }

    pub fn release_right(&mut self)
        ensures
            final(self).gesture() == step(old(self).gesture(), ButtonEvent::Release(Button::Right)),
    {
        match self.last_event {
            GestureState::DownRight => self.last_event = GestureState::RightPending,
            _ => self.last_event = GestureState::Idle,
        }
    }

    /// Feeds one raw event through the recogniser; this is the whole mapping
    /// the listener thread performs per event.
    pub fn handle(&mut self, e: ButtonEvent)
        ensures
            final(self).gesture() == step(old(self).gesture(), e),
    {
        match e {
            ButtonEvent::Press(Button::Left) => self.down(),
            ButtonEvent::Press(Button::Middle) => self.down_middle(),
            ButtonEvent::Press(Button::Right) => self.down_right(),
            ButtonEvent::Release(Button::Left) => self.release(),
            ButtonEvent::Release(Button::Middle) => self.release_middle(),
            ButtonEvent::Release(Button::Right) => self.release_right(),
            ButtonEvent::Move => self.moving(),
        }
    }

    /// Consumes a pending select gesture, destructively: true exactly when a
    /// left drag has completed since the last consumption.
    pub fn is_select(&mut self) -> (r: bool)
        ensures
            r == consume(old(self).gesture(), GestureState::SelectPending).0,
            final(self).gesture() == consume(old(self).gesture(), GestureState::SelectPending).1,
    {
        if self.last_event == GestureState::SelectPending {
            self.last_event = GestureState::Idle;
            true
        } else {
            false
        }
    }

    /// Consumes a pending middle click, destructively.
    pub fn middle_clicked(&mut self) -> (r: bool)
        ensures
            r == consume(old(self).gesture(), GestureState::MiddlePending).0,
            final(self).gesture() == consume(old(self).gesture(), GestureState::MiddlePending).1,
    {
        if self.last_event == GestureState::MiddlePending {
            self.last_event = GestureState::Idle;
            true
        } else {
            false
        }
    }

    /// Consumes a pending right click, destructively.
    pub fn right_clicked(&mut self) -> (r: bool)
        ensures
            r == consume(old(self).gesture(), GestureState::RightPending).0,
            final(self).gesture() == consume(old(self).gesture(), GestureState::RightPending).1,
    {
        if self.last_event == GestureState::RightPending {
            self.last_event = GestureState::Idle;
            true
        } else {
            false
        }
    }
}

/// Running one event sequence after another is running their concatenation.
pub proof fn lemma_run_steps_concat(s: GestureState, a: Seq<ButtonEvent>, b: Seq<ButtonEvent>)
    ensures
        run_steps(s, a + b) == run_steps(run_steps(s, a), b),
    decreases a.len(),
{
    if a.len() == 0 {
        assert(a + b =~= b);
    } else {
        assert((a + b).subrange(1, (a + b).len() as int) =~= a.subrange(1, a.len() as int) + b);
        lemma_run_steps_concat(step(s, a[0]), a.subrange(1, a.len() as int), b);
    }
}

/// Pointer movement never leaves the `Moving` state, however long it goes on.
pub proof fn lemma_moves_keep_moving(n: nat)
    ensures
        run_steps(GestureState::Moving, Seq::new(n, |i: int| ButtonEvent::Move))
            == GestureState::Moving,
    decreases n,
{
    if n > 0 {
        let es = Seq::new(n, |i: int| ButtonEvent::Move);
        assert(es.subrange(1, n as int) =~= Seq::new((n - 1) as nat, |i: int| ButtonEvent::Move));
        lemma_moves_keep_moving((n - 1) as nat);
    }
}

/// A left drag — press, at least one move, release — always completes the
/// select gesture, from any starting state, and consuming it succeeds
/// exactly once: a second consumption misses. A left press released with no
/// move in between never completes it.
pub proof fn lemma_select_gesture(s: GestureState, n: nat)
    requires
        n >= 1,
    ensures
        run_steps(
            s,
            seq![ButtonEvent::Press(Button::Left)]
                + Seq::new(n, |i: int| ButtonEvent::Move)
                + seq![ButtonEvent::Release(Button::Left)],
        ) == GestureState::SelectPending,
        consume(GestureState::SelectPending, GestureState::SelectPending).0,
        !consume(
            consume(GestureState::SelectPending, GestureState::SelectPending).1,
            GestureState::SelectPending,
        ).0,
        step(step(s, ButtonEvent::Press(Button::Left)), ButtonEvent::Release(Button::Left))
            == GestureState::Idle,
{
    reveal_with_fuel(run_steps, 3);
    let press = seq![ButtonEvent::Press(Button::Left)];
    let moves = Seq::new(n, |i: int| ButtonEvent::Move);
    let rel = seq![ButtonEvent::Release(Button::Left)];
    lemma_run_steps_concat(s, press + moves, rel);
    lemma_run_steps_concat(s, press, moves);
    assert(press[0] == ButtonEvent::Press(Button::Left));
    assert(press.subrange(1, 1) =~= Seq::<ButtonEvent>::empty());
    assert(run_steps(s, press) == GestureState::DownLeft);
    assert(moves.subrange(1, n as int) =~= Seq::new((n - 1) as nat, |i: int| ButtonEvent::Move));
    lemma_moves_keep_moving((n - 1) as nat);
    assert(run_steps(GestureState::DownLeft, moves) == GestureState::Moving);
    assert(rel[0] == ButtonEvent::Release(Button::Left));
    assert(rel.subrange(1, 1) =~= Seq::<ButtonEvent>::empty());
    assert(run_steps(GestureState::Moving, rel) == GestureState::SelectPending);
}

/// Each gesture becomes pending in exactly one way: a release of its button
/// out of the state that the matching press established (for the select
/// gesture, out of an actual drag).
pub proof fn lemma_pending_characterisation(s: GestureState, e: ButtonEvent)
    ensures
        (step(s, e) == GestureState::SelectPending)
            == (s == GestureState::Moving && e == ButtonEvent::Release(Button::Left)),
        (step(s, e) == GestureState::MiddlePending)
            == (s == GestureState::DownMiddle && e == ButtonEvent::Release(Button::Middle)),
        (step(s, e) == GestureState::RightPending)
            == (s == GestureState::DownRight && e == ButtonEvent::Release(Button::Right)),
{
}

/// Consumption is one-shot: immediately after any `take`, the same `take`
/// misses, whatever the first one returned.
pub proof fn lemma_consume_one_shot(g: GestureState, p: GestureState)
    requires
        p == GestureState::SelectPending || p == GestureState::MiddlePending
            || p == GestureState::RightPending,
    ensures
        !consume(consume(g, p).1, p).0,
{
}

} // verus!
