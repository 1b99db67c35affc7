//! The cursor-capture state machine: whether mouse movement steers the camera,
//! and whether escape or close quit the application.
use crate::event::Signal;
use vstd::prelude::*;

verus! {

/// What escape does while the cursor is captured. Fixed at construction.
#[derive(Clone, Copy, Debug, PartialEq, Eq, Structural)]
pub enum CapturePolicy {
    ReleaseOnEscape,
    QuitOnEscape,
}

/// Whether the pointer is hidden and steers the camera.
#[derive(Clone, Copy, Debug, PartialEq, Eq, Structural)]
pub enum CaptureMode {
    Captured,
    Released,
}

/// A change of cursor visibility that a transition asks for.
#[derive(Clone, Copy, Debug, PartialEq, Eq, Structural)]
pub enum CursorEffect {
    Show,
    Hide,
}

/// The outcome of one signal: the next mode, whether to quit, and the cursor
/// change to apply, if any.
#[derive(Clone, Copy, Debug, PartialEq, Eq, Structural)]
pub struct Reaction {
    pub mode: CaptureMode,
    pub quit: bool,
    pub cursor: Option<CursorEffect>,
}

/// The transition table.
pub open spec fn step(mode: CaptureMode, policy: CapturePolicy, signal: Signal) -> Reaction {
    match (mode, signal) {
        (CaptureMode::Captured, Signal::EscapeDown) => match policy {
            CapturePolicy::ReleaseOnEscape => Reaction {
                mode: CaptureMode::Released,
                quit: false,
                cursor: Some(CursorEffect::Show),
            },
            CapturePolicy::QuitOnEscape => Reaction { mode, quit: true, cursor: None },
        },
        (_, Signal::CloseRequested) => Reaction { mode, quit: true, cursor: None },
        (CaptureMode::Released, Signal::LeftButtonDown) => Reaction {
            mode: CaptureMode::Captured,
            quit: false,
            cursor: Some(CursorEffect::Hide),
        },
        _ => Reaction { mode, quit: false, cursor: None },
    }
}

/// The mode after the signals `s`, processed in order from `mode`.
pub open spec fn mode_after(mode: CaptureMode, policy: CapturePolicy, s: Seq<Signal>) -> CaptureMode
    decreases s.len(),
{
    if s.len() == 0 {
        mode
    } else {
        step(mode_after(mode, policy, s.drop_last()), policy, s.last()).mode
    }
}

/// The reaction to each signal of `s`, each taken in the mode that the signals
/// before it left.
pub open spec fn reactions(mode: CaptureMode, policy: CapturePolicy, s: Seq<Signal>) -> Seq<
    Reaction,
>
    decreases s.len(),
{
    if s.len() == 0 {
        Seq::empty()
    } else {
        reactions(mode, policy, s.drop_last()).push(
            step(mode_after(mode, policy, s.drop_last()), policy, s.last()),
        )
    }
}

/// The number of reactions in `rs` that show the cursor.
pub open spec fn shows(rs: Seq<Reaction>) -> nat
    decreases rs.len(),
{
    if rs.len() == 0 {
        0
    } else {
        shows(rs.drop_last()) + if rs.last().cursor == Some(CursorEffect::Show) {
            1nat
        } else {
            0nat
        }
    }
}

/// Whether some reaction in `rs` quits.
pub open spec fn any_quit(rs: Seq<Reaction>) -> bool {
    exists|i: int| 0 <= i < rs.len() && #[trigger] rs[i].quit
}

/// Applies the transition table to one signal.
pub fn transition(mode: CaptureMode, policy: CapturePolicy, signal: Signal) -> (r: Reaction)
    ensures
        r == step(mode, policy, signal),
{
    match (mode, signal) {
        (CaptureMode::Captured, Signal::EscapeDown) => match policy {
            CapturePolicy::ReleaseOnEscape => Reaction {
                mode: CaptureMode::Released,
                quit: false,
                cursor: Some(CursorEffect::Show),
            },
            CapturePolicy::QuitOnEscape => Reaction { mode, quit: true, cursor: None },
        },
        (_, Signal::CloseRequested) => Reaction { mode, quit: true, cursor: None },
        (CaptureMode::Released, Signal::LeftButtonDown) => Reaction {
            mode: CaptureMode::Captured,
            quit: false,
            cursor: Some(CursorEffect::Hide),
        },
        _ => Reaction { mode, quit: false, cursor: None },
    }
}

/// The capture mode together with the policy it was built with.
#[derive(Clone, Copy, Debug, PartialEq, Eq, Structural)]
pub struct CaptureState {
    pub mode: CaptureMode,
    pub policy: CapturePolicy,
}

/// The effects of a batch of signals: one reaction per signal, in order, and
/// whether any of them quits.
pub struct BatchOutcome {
    pub reactions: Vec<Reaction>,
    pub quit: bool,
}

impl CaptureState {
    pub open spec fn new_spec(policy: CapturePolicy) -> CaptureState {
        CaptureState { mode: CaptureMode::Captured, policy }
    }

    /// A state machine under `policy`, starting with the cursor captured.
    pub fn new(policy: CapturePolicy) -> (r: CaptureState)
        ensures
            r == CaptureState::new_spec(policy),
    {
        CaptureState { mode: CaptureMode::Captured, policy }
    }

    pub fn mode(&self) -> (r: CaptureMode)
        ensures
            r == self.mode,
    {
        self.mode
    }

    pub fn is_captured(&self) -> (r: bool)
        ensures
            r == (self.mode == CaptureMode::Captured),
    {
        match self.mode {
            CaptureMode::Captured => true,
            CaptureMode::Released => false,
        }
    }

    /// Consumes one signal and returns its reaction.
    pub fn handle(&mut self, signal: Signal) -> (r: Reaction)
        ensures
            r == step(old(self).mode, old(self).policy, signal),
            final(self).mode == r.mode,
            final(self).policy == old(self).policy,
    {
        let r = transition(self.mode, self.policy, signal);
        self.mode = r.mode;
        r
    }

    /// Consumes the signals of one batch in arrival order, each against the mode
    /// that the ones before it left.
    pub fn handle_batch(&mut self, signals: &Vec<Signal>) -> (r: BatchOutcome)
        ensures
            r.reactions@ == reactions(old(self).mode, old(self).policy, signals@),
            r.quit == any_quit(r.reactions@),
            final(self).mode == mode_after(old(self).mode, old(self).policy, signals@),
            final(self).policy == old(self).policy,
    {
        let ghost start = self.mode;
        let mut out: Vec<Reaction> = Vec::new();
        let mut quit = false;
        let mut i: usize = 0;
        while i < signals.len()
            invariant
                i <= signals@.len(),
                self.policy == old(self).policy,
                start == old(self).mode,
                out@ == reactions(start, self.policy, signals@.take(i as int)),
                self.mode == mode_after(start, self.policy, signals@.take(i as int)),
                quit == any_quit(out@),
            decreases signals@.len() - i,
        {
            proof {
                assert(signals@.take(i as int + 1).drop_last() == signals@.take(i as int));
            }
            let r = self.handle(signals[i]);
            let ghost prev = out@;
            out.push(r);
            quit = quit || r.quit;
            i = i + 1;
            proof {
                assert(out@ == prev.push(r));
                assert forall|j: int| 0 <= j < prev.len() implies out@[j] == prev[j] by {}
                if r.quit {
                    assert(out@[out@.len() - 1].quit);
                } else if any_quit(prev) {
                    let j = choose|j: int| 0 <= j < prev.len() && #[trigger] prev[j].quit;
                    assert(out@[j].quit);
                } else {
                    assert forall|j: int| 0 <= j < out@.len() implies !#[trigger] out@[j].quit by {
                        if j < prev.len() {
                            assert(!prev[j].quit);
                        }
                    }
                }
            }
        }
        proof {
            assert(signals@.take(signals@.len() as int) == signals@);
        }
        BatchOutcome { reactions: out, quit }
    }
}

/// The reaction to the `i`-th signal of a batch is the table applied in the
/// mode that the signals before it left.
pub proof fn lemma_reaction_at(mode: CaptureMode, policy: CapturePolicy, s: Seq<Signal>, i: int)
    requires
        0 <= i < s.len(),
    ensures
        reactions(mode, policy, s).len() == s.len(),
        reactions(mode, policy, s)[i] == step(mode_after(mode, policy, s.take(i)), policy, s[i]),
        mode_after(mode, policy, s.take(i + 1)) == reactions(mode, policy, s)[i].mode,
    decreases s.len(),
{
    lemma_reactions_len(mode, policy, s);
    assert(s.take(i + 1).drop_last() == s.take(i));
    if i < s.len() - 1 {
        lemma_reaction_at(mode, policy, s.drop_last(), i);
        assert(s.drop_last().take(i) == s.take(i));
        assert(s.drop_last().take(i + 1) == s.take(i + 1));
    } else {
        assert(s.take(i) == s.drop_last());
    }
}

proof fn lemma_reactions_len(mode: CaptureMode, policy: CapturePolicy, s: Seq<Signal>)
    ensures
        reactions(mode, policy, s).len() == s.len(),
    decreases s.len(),
{
    if s.len() > 0 {
        lemma_reactions_len(mode, policy, s.drop_last());
    }
}

/// A close request quits in every mode and under every policy, and leaves the
/// mode and the cursor as they were.
pub proof fn lemma_close_always_quits(mode: CaptureMode, policy: CapturePolicy)
    ensures
        step(mode, policy, Signal::CloseRequested) == (Reaction { mode, quit: true, cursor: None }),
{
}

/// Under `QuitOnEscape`, every escape that arrives while the cursor is captured
/// quits and leaves the mode captured, wherever it stands in a batch.
pub proof fn lemma_escape_quits(mode: CaptureMode, s: Seq<Signal>, i: int)
    requires
        0 <= i < s.len(),
        s[i] == Signal::EscapeDown,
        mode_after(mode, CapturePolicy::QuitOnEscape, s.take(i)) == CaptureMode::Captured,
    ensures
        reactions(mode, CapturePolicy::QuitOnEscape, s)[i].quit,
        reactions(mode, CapturePolicy::QuitOnEscape, s)[i].cursor is None,
        mode_after(mode, CapturePolicy::QuitOnEscape, s.take(i + 1)) == CaptureMode::Captured,
{
    lemma_reaction_at(mode, CapturePolicy::QuitOnEscape, s, i);
}

/// Whether every signal of `s` is an escape.
pub open spec fn all_escapes(s: Seq<Signal>) -> bool {
    forall|i: int| 0 <= i < s.len() ==> #[trigger] s[i] == Signal::EscapeDown
}

/// Under `ReleaseOnEscape`, any non-empty run of escapes leaves the cursor
/// released; the cursor is shown exactly once if it started captured, and not at
/// all if it was already released.
pub proof fn lemma_escapes_release_once(mode: CaptureMode, s: Seq<Signal>)
    requires
        s.len() > 0,
        all_escapes(s),
    ensures
        mode_after(mode, CapturePolicy::ReleaseOnEscape, s) == CaptureMode::Released,
        shows(reactions(mode, CapturePolicy::ReleaseOnEscape, s)) == if mode
            == CaptureMode::Captured {
            1nat
        } else {
            0nat
        },
    decreases s.len(),
{
    let p = CapturePolicy::ReleaseOnEscape;
    let rs = reactions(mode, p, s);
    assert(s.last() == s[s.len() - 1]);
    assert(rs.last() == step(mode_after(mode, p, s.drop_last()), p, Signal::EscapeDown));
    assert(rs.drop_last() == reactions(mode, p, s.drop_last()));
    if s.len() == 1 {
        assert(s.drop_last().len() == 0);
        assert(shows(rs.drop_last()) == 0);
    } else {
        assert forall|i: int| 0 <= i < s.drop_last().len() implies #[trigger] s.drop_last()[i]
            == Signal::EscapeDown by {
            assert(s.drop_last()[i] == s[i]);
        }
        lemma_escapes_release_once(mode, s.drop_last());
    }
}

} // verus!
