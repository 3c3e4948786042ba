//! Application state and its transitions: the running flag, the current
//! screen, key interpretation, and the step the loop takes per stimulus.

use vstd::prelude::*;
use crate::event::{InputEvent, KeyCode, KeyEventKind, KeyInput, Modifiers, StreamRead, Stimulus};

verus! {

/// The closed set of screens the interface can show. One variant today;
/// the draw path dispatches on it exhaustively, so adding a screen is a
/// local, checked change.
#[derive(Clone, Copy, Debug, PartialEq, Eq, Structural)]
pub enum Screen {
    Home,
}

impl Default for Screen {
    fn default() -> (s: Screen)
        ensures
            s == Screen::Home,
    {
        Screen::Home
    }
}

/// The state the event loop drives: whether it should keep going, and
/// which screen paints the interior of the frame.
#[derive(Debug, PartialEq, Eq, Structural)]
pub struct TerminalState {
    pub running: bool,
    pub screen: Screen,
}

impl Default for TerminalState {
    fn default() -> (s: TerminalState)
        ensures
            !s.running,
            s.screen == Screen::Home,
    {
        TerminalState { running: false, screen: Screen::Home }
    }
}

/// The combinations that quit: escape, `q` or `Q` with no modifier held,
/// and `c` or `C` with exactly the control modifier held.
pub open spec fn quit_combo(modifiers: Modifiers, code: KeyCode) -> bool {
    ||| (modifiers == Modifiers::none_held() && (code == KeyCode::Esc
            || code == KeyCode::Char('q') || code == KeyCode::Char('Q')))
    ||| (modifiers == Modifiers::control_held() && (code == KeyCode::Char('c')
            || code == KeyCode::Char('C')))
}

/// Whether a stimulus triggers the quit transition: only an input event
/// that is a key press of a quit combination does. Ticks, pointer and
/// resize events, other event kinds, releases and repeats, stream errors
/// and stream exhaustion never do.
pub open spec fn is_quit_stimulus(stimulus: Stimulus) -> bool {
    match stimulus {
        Stimulus::Input(StreamRead::Event(InputEvent::Key(key))) => {
            key.kind == KeyEventKind::Press && quit_combo(key.modifiers, key.code)
        },
        _ => false,
    }
}

/// The whole observable effect of one stimulus on the state: a quit
/// trigger clears the running flag; nothing else changes anything.
pub open spec fn step(state: TerminalState, stimulus: Stimulus) -> TerminalState {
    TerminalState {
        running: state.running && !is_quit_stimulus(stimulus),
        screen: state.screen,
    }
}

/// The state after the loop has consumed a whole script of stimuli,
/// one step per stimulus, first stimulus first.
pub open spec fn run_state(state: TerminalState, stimuli: Seq<Stimulus>) -> TerminalState
    decreases stimuli.len(),
{
    if stimuli.len() == 0 {
        state
    } else {
        run_state(step(state, stimuli[0]), stimuli.drop_first())
    }
}

impl TerminalState {
    /// Set running to false to quit the application.
    pub fn quit(&mut self)
        ensures
            !final(self).running,
            final(self).screen == old(self).screen,
    {
        self.running = false;
    }

    /// Handles a key event: a quit combination clears the running flag;
    /// every other combination is a no-op, reserved for future bindings.
    pub fn on_key_event(&mut self, key: KeyInput)
        ensures
            final(self).screen == old(self).screen,
            final(self).running == (old(self).running && !quit_combo(key.modifiers, key.code)),
    {
        let none_held = !key.modifiers.shift && !key.modifiers.control && !key.modifiers.alt;
        let control_held = !key.modifiers.shift && key.modifiers.control && !key.modifiers.alt;
        let is_quit = match key.code {
            KeyCode::Esc => none_held,
            KeyCode::Char(c) => {
                (none_held && (c == 'q' || c == 'Q')) || (control_held && (c == 'c' || c == 'C'))
            },
            KeyCode::Other => false,
        };
        if is_quit {
            self.quit();
        }
    }

    /// Applies one stimulus: a key-press event goes to key handling; every
    /// other stimulus — a tick, another event, a read error, an exhausted
    /// stream — is a no-op, and the loop simply draws and waits again.
    pub fn handle_stimulus(&mut self, stimulus: Stimulus)
        ensures
            *final(self) == step(*old(self), stimulus),
    {
        match stimulus {
            Stimulus::Input(read) => match read {
                StreamRead::Event(event) => match event {
                    InputEvent::Key(key) => {
                        match key.kind {
                            KeyEventKind::Press => self.on_key_event(key),
                            _ => {},
                        }
                    },
                    InputEvent::Mouse => {},
                    InputEvent::Resize(_, _) => {},
                    InputEvent::Other => {},
                },
                StreamRead::ReadError => {},
                StreamRead::Exhausted => {},
            },
            Stimulus::Tick => {},
        }
    }

    /// Sets the running flag: the first thing a run does, before its first
    /// draw and its first wait.
    pub fn start(&mut self)
        ensures
            final(self).running,
            final(self).screen == old(self).screen,
    {
        self.running = true;
    }

    /// The top-of-loop check: true while the loop should draw and wait for
    /// one more stimulus.
    pub fn should_continue(&self) -> (r: bool)
        ensures
            r == self.running,
    {
        self.running
    }

    /// Drives the loop over a finite script of stimuli exactly as the run
    /// loop drives it over the live stream: check the running flag, consume
    /// one stimulus, repeat. Returns how many stimuli were consumed; the
    /// rest of the script is what a live run would never have waited for.
    pub fn run_script(&mut self, stimuli: &Vec<Stimulus>) -> (consumed: usize)
        ensures
            consumed <= stimuli@.len(),
            *final(self) == run_state(*old(self), stimuli@.take(consumed as int)),
            forall|j: int| 0 <= j < consumed ==> run_state(
                *old(self),
                stimuli@.take(j),
            ).running,
            consumed < stimuli@.len() ==> !final(self).running,
    {
        let mut i: usize = 0;
        while i < stimuli.len() && self.running
            invariant
                i <= stimuli@.len(),
                *self == run_state(*old(self), stimuli@.take(i as int)),
                forall|j: int| 0 <= j < i ==> run_state(*old(self), stimuli@.take(j)).running,
            decreases stimuli@.len() - i,
        {
            proof {
                assert(stimuli@.take(i as int + 1).drop_last() =~= stimuli@.take(i as int));
                assert(stimuli@.take(i as int + 1).last() == stimuli@[i as int]);
            }
            let stimulus = stimuli[i];
            self.handle_stimulus(stimulus);
            proof {
                lemma_run_state_snoc(*old(self), stimuli@.take(i as int + 1));
            }
            i = i + 1;
        }
        i
    }
}

/// Consuming a non-empty script is consuming all but its last stimulus,
/// then stepping by the last one.
pub proof fn lemma_run_state_snoc(state: TerminalState, stimuli: Seq<Stimulus>)
    requires
        stimuli.len() > 0,
    ensures
        run_state(state, stimuli) == step(run_state(state, stimuli.drop_last()), stimuli.last()),
    decreases stimuli.len(),
{
    if stimuli.len() == 1 {
        assert(stimuli.drop_first() =~= Seq::<Stimulus>::empty());
        assert(stimuli.drop_last() =~= Seq::<Stimulus>::empty());
    } else {
        lemma_run_state_snoc(step(state, stimuli[0]), stimuli.drop_first());
        assert(stimuli.drop_first().drop_last() =~= stimuli.drop_last().drop_first());
        assert(stimuli.drop_first().last() == stimuli.last());
        assert(stimuli.drop_last()[0] == stimuli[0]);
        assert(stimuli.drop_last().len() > 0);
        assert(run_state(state, stimuli) == run_state(
            step(state, stimuli[0]),
            stimuli.drop_first(),
        ));
        assert(run_state(state, stimuli.drop_last()) == run_state(
            step(state, stimuli[0]),
            stimuli.drop_last().drop_first(),
        ));
    }
}

/// For every script in which no quit trigger occurs, the state is
/// unchanged stimulus after stimulus: the running flag keeps its value —
/// a loop that was running goes on indefinitely — and the screen stays.
pub proof fn lemma_non_quit_preserves_state(state: TerminalState, stimuli: Seq<Stimulus>)
    requires
        forall|i: int| 0 <= i < stimuli.len() ==> !is_quit_stimulus(stimuli[i]),
    ensures
        run_state(state, stimuli) == state,
    decreases stimuli.len(),
{
    if stimuli.len() > 0 {
        assert(!is_quit_stimulus(stimuli[0]));
        assert(step(state, stimuli[0]) == state);
        lemma_non_quit_preserves_state(state, stimuli.drop_first());
    }
}

/// A quit trigger clears the running flag from any state, and leaves the
/// screen alone; the loop then exits at its next top-of-loop check.
pub proof fn lemma_quit_stimulus_stops(state: TerminalState, stimulus: Stimulus)
    requires
        is_quit_stimulus(stimulus),
    ensures
        !step(state, stimulus).running,
        step(state, stimulus).screen == state.screen,
{
}

/// No stimulus ever sets the running flag: once cleared it stays cleared,
/// so the quit transition happens at most once per run.
pub proof fn lemma_stopped_stays_stopped(state: TerminalState, stimuli: Seq<Stimulus>)
    requires
        !state.running,
    ensures
        !run_state(state, stimuli).running,
    decreases stimuli.len(),
{
    if stimuli.len() > 0 {
        lemma_stopped_stays_stopped(step(state, stimuli[0]), stimuli.drop_first());
    }
}

/// A key event whose kind is not a press never triggers the quit
/// transition, whatever its code and modifiers: the state is unchanged.
pub proof fn lemma_non_press_ignored(state: TerminalState, key: KeyInput)
    requires
        key.kind != KeyEventKind::Press,
    ensures
        step(state, Stimulus::Input(StreamRead::Event(InputEvent::Key(key)))) == state,
{
}

} // verus!
