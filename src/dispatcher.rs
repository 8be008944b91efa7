//! The input dispatcher: from a polled input event to the next state of the
//! control flags and the terminal session, and what the loop does next.
use vstd::prelude::*;
use crate::control::ControlFlags;
use crate::terminal::{
    TermOp, TerminalMode, TerminalSession, enter_fullscreen, exit_fullscreen,
    enter_fullscreen_ops, exit_fullscreen_ops, run_ops, device_of,
};

verus! {

/// How long, in milliseconds, the dispatcher waits for input on each poll.
pub const POLL_TIMEOUT_MS: u64 = 100;

/// The least spacing, in milliseconds, between two accepted matrix toggles.
pub const MATRIX_TOGGLE_COOLDOWN_MS: u64 = 1000;

/// The key of a key event, as far as the dispatcher tells keys apart.
#[derive(Clone, Copy, Debug, PartialEq, Eq, Structural)]
pub enum Key {
    Esc,
    Char(char),
    Other,
}

/// A key event: the key and whether Control was held.
#[derive(Clone, Copy, Debug, PartialEq, Eq, Structural)]
pub struct KeyPress {
    pub key: Key,
    pub ctrl: bool,
}

/// What one poll of the input source gave.
#[derive(Clone, Copy, Debug, PartialEq, Eq, Structural)]
pub enum InputEvent {
    /// No event within the poll timeout.
    Timeout,
    Key(KeyPress),
    /// An event that is not a key (a resize, a mouse event).
    NonKey,
    /// Polling or reading failed.
    Error,
}

/// What a key asks for.
#[derive(Clone, Copy, Debug, PartialEq, Eq, Structural)]
pub enum Command {
    Exit,
    ToggleFullscreen,
    ToggleMatrix,
    Ignore,
}

pub open spec fn is_ctrl_char(k: KeyPress, lower: char, upper: char) -> bool {
    k.ctrl && (k.key == Key::Char(lower) || k.key == Key::Char(upper))
}

/// Esc, Ctrl+C and Ctrl+Z exit; Ctrl+F toggles fullscreen; `m` or `M`
/// without Control toggles matrix mode; every other key is ignored.
pub open spec fn command_of(k: KeyPress) -> Command {
    if k.key == Key::Esc || is_ctrl_char(k, 'c', 'C') || is_ctrl_char(k, 'z', 'Z') {
        Command::Exit
    } else if is_ctrl_char(k, 'f', 'F') {
        Command::ToggleFullscreen
    } else if !k.ctrl && (k.key == Key::Char('m') || k.key == Key::Char('M')) {
        Command::ToggleMatrix
    } else {
        Command::Ignore
    }
}

pub fn classify_key(k: KeyPress) -> (r: Command)
    ensures
        r == command_of(k),
{
    let ctrl_char = |lower: char, upper: char| -> (b: bool)
        ensures
            b == is_ctrl_char(k, lower, upper),
        { k.ctrl && (k.key == Key::Char(lower) || k.key == Key::Char(upper)) };
    if k.key == Key::Esc || ctrl_char('c', 'C') || ctrl_char('z', 'Z') {
        Command::Exit
    } else if ctrl_char('f', 'F') {
        Command::ToggleFullscreen
    } else if !k.ctrl && (k.key == Key::Char('m') || k.key == Key::Char('M')) {
        Command::ToggleMatrix
    } else {
        Command::Ignore
    }
}

/// Whether a matrix toggle at `now` (milliseconds on a monotonic clock) is
/// honoured, given the time of the last accepted one.
pub open spec fn toggle_allowed(last_accepted: Option<u64>, now: u64) -> bool {
    match last_accepted {
        None => true,
        Some(t) => now >= t && now - t >= MATRIX_TOGGLE_COOLDOWN_MS,
    }
}

/// What the loop does after handling one event.
#[derive(Debug, PartialEq, Eq)]
pub enum Reaction {
    /// Poll again.
    Continue,
    /// Perform these terminal operations, then poll again.
    Apply(Vec<TermOp>),
    /// Leave the loop and restore the terminal.
    Stop,
}

/// The dispatcher's whole state: the control flags, the terminal session
/// and the time of the last accepted matrix toggle.
#[derive(Clone, Copy, Debug, PartialEq, Eq, Structural)]
pub struct Dispatcher {
    pub flags: ControlFlags,
    pub session: TerminalSession,
    pub last_matrix_toggle: Option<u64>,
}

/// The fullscreen flag and the terminal mode agree, and the terminal has
/// been set up.
pub open spec fn dispatcher_wf(d: Dispatcher) -> bool {
    &&& d.session.mode != TerminalMode::Restored
    &&& d.flags.fullscreen == (d.session.mode == TerminalMode::Fullscreen)
}

/// The state after one event at time `now`.
pub open spec fn next_state(d: Dispatcher, ev: InputEvent, now: u64) -> Dispatcher {
    match ev {
        InputEvent::Error => Dispatcher { flags: ControlFlags { exit_requested: true, ..d.flags }, ..d },
        InputEvent::Key(k) => match command_of(k) {
            Command::Exit => Dispatcher { flags: ControlFlags { exit_requested: true, ..d.flags }, ..d },
            Command::ToggleFullscreen => {
                if d.flags.fullscreen {
                    Dispatcher {
                        flags: ControlFlags { fullscreen: false, ..d.flags },
                        session: TerminalSession { mode: TerminalMode::Windowed },
                        ..d
                    }
                } else {
                    Dispatcher {
                        flags: ControlFlags { fullscreen: true, ..d.flags },
                        session: TerminalSession { mode: TerminalMode::Fullscreen },
                        ..d
                    }
                }
            },
            Command::ToggleMatrix => {
                if toggle_allowed(d.last_matrix_toggle, now) {
                    Dispatcher {
                        flags: ControlFlags { matrix_mode: !d.flags.matrix_mode, ..d.flags },
                        last_matrix_toggle: Some(now),
                        ..d
                    }
                } else {
                    d
                }
            },
            Command::Ignore => d,
        },
        _ => d,
    }
}

/// What the loop does after one event.
pub open spec fn reaction_of(d: Dispatcher, ev: InputEvent) -> Reaction {
    match ev {
        InputEvent::Error => Reaction::Stop,
        InputEvent::Key(k) => if command_of(k) == Command::Exit {
            Reaction::Stop
        } else {
            Reaction::Continue
        },
        _ => Reaction::Continue,
    }
}

impl Dispatcher {
    /// The dispatcher of a session just set up in fullscreen.
    pub fn new(flags: ControlFlags, session: TerminalSession) -> (r: Dispatcher)
        requires
            session.mode != TerminalMode::Restored,
            flags.fullscreen == (session.mode == TerminalMode::Fullscreen),
        ensures
            r == (Dispatcher { flags, session, last_matrix_toggle: None }),
            dispatcher_wf(r),
    {
        Dispatcher { flags, session, last_matrix_toggle: None }
    }

    /// Whether the loop polls again: it leaves as soon as exit is requested.
    pub fn should_poll(&self) -> (r: bool)
        ensures
            r == !self.flags.exit_requested,
    {
        !self.flags.is_exit_requested()
    }

    /// Handles one polled event at time `now`. Exit keys and input errors
    /// request exit and stop the loop; Ctrl+F moves the terminal between
    /// fullscreen and windowed and hands back the operations that do it;
    /// a matrix toggle is honoured only a full cooldown after the last one
    /// honoured; anything else changes nothing.
    pub fn handle(&mut self, ev: InputEvent, now: u64) -> (r: Reaction)
        requires
            dispatcher_wf(*old(self)),
        ensures
            *final(self) == next_state(*old(self), ev, now),
            dispatcher_wf(*final(self)),
            match ev {
                InputEvent::Key(k) if command_of(k) == Command::ToggleFullscreen => match r {
                    Reaction::Apply(ops) => {
                        &&& ops@ == if old(self).flags.fullscreen {
                            exit_fullscreen_ops()
                        } else {
                            enter_fullscreen_ops()
                        }
                        &&& run_ops(device_of(old(self).session.mode), ops@) == device_of(
                            final(self).session.mode,
                        )
                    },
                    _ => false,
                },
                _ => r == reaction_of(*old(self), ev),
            },
    {
        match ev {
            InputEvent::Error => {
                self.flags.set_exit();
                Reaction::Stop
            },
            InputEvent::Key(k) => match classify_key(k) {
                Command::Exit => {
                    self.flags.set_exit();
                    Reaction::Stop
                },
                Command::ToggleFullscreen => {
                    if self.flags.fullscreen {
                        let ops = exit_fullscreen(&mut self.session);
                        self.flags.fullscreen = false;
                        Reaction::Apply(ops)
                    } else {
                        let ops = enter_fullscreen(&mut self.session);
                        self.flags.fullscreen = true;
                        Reaction::Apply(ops)
                    }
                },
                Command::ToggleMatrix => {
                    let allowed = match self.last_matrix_toggle {
                        None => true,
                        Some(t) => now >= t && now - t >= MATRIX_TOGGLE_COOLDOWN_MS,
                    };
                    if allowed {
                        self.flags.toggle_matrix_mode();
                        self.last_matrix_toggle = Some(now);
                    }
                    Reaction::Continue
                },
                Command::Ignore => Reaction::Continue,
            },
            _ => Reaction::Continue,
        }
    }
}

/// The state after a sequence of events, each with the time it came at.
pub open spec fn run_events(d: Dispatcher, evs: Seq<(InputEvent, u64)>) -> Dispatcher
    decreases evs.len(),
{
    if evs.len() == 0 {
        d
    } else {
        run_events(next_state(d, evs[0].0, evs[0].1), evs.drop_first())
    }
}

pub open spec fn is_command(ev: InputEvent, c: Command) -> bool {
    match ev {
        InputEvent::Key(k) => command_of(k) == c,
        _ => false,
    }
}

/// Every event keeps the state well formed.
pub proof fn lemma_run_events_wf(d: Dispatcher, evs: Seq<(InputEvent, u64)>)
    requires
        dispatcher_wf(d),
    ensures
        dispatcher_wf(run_events(d, evs)),
    decreases evs.len(),
{
    if evs.len() > 0 {
        lemma_run_events_wf(next_state(d, evs[0].0, evs[0].1), evs.drop_first());
    }
}

/// Exit-requested is monotonic: once it is set, no sequence of events
/// clears it.
pub proof fn lemma_exit_stays_requested(d: Dispatcher, evs: Seq<(InputEvent, u64)>)
    requires
        d.flags.exit_requested,
    ensures
        run_events(d, evs).flags.exit_requested,
    decreases evs.len(),
{
    if evs.len() > 0 {
        lemma_exit_stays_requested(next_state(d, evs[0].0, evs[0].1), evs.drop_first());
    }
}

/// After n fullscreen toggles, starting in fullscreen, the terminal is in
/// fullscreen when n is even and windowed when n is odd, and the
/// fullscreen flag says the same.
pub proof fn lemma_fullscreen_toggle_parity(d: Dispatcher, evs: Seq<(InputEvent, u64)>)
    requires
        dispatcher_wf(d),
        d.session.mode == TerminalMode::Fullscreen,
        forall|i: int| 0 <= i < evs.len() ==> is_command(#[trigger] evs[i].0, Command::ToggleFullscreen),
    ensures
        run_events(d, evs).session.mode == if evs.len() % 2 == 0 {
            TerminalMode::Fullscreen
        } else {
            TerminalMode::Windowed
        },
        run_events(d, evs).flags.fullscreen == (evs.len() % 2 == 0),
    decreases evs.len(),
{
    if evs.len() > 0 {
        let d1 = next_state(d, evs[0].0, evs[0].1);
        assert(is_command(evs[0].0, Command::ToggleFullscreen));
        assert(d1.session.mode == TerminalMode::Windowed);
        let rest = evs.drop_first();
        assert(run_events(d, evs) == run_events(d1, rest));
        if rest.len() > 0 {
            let d2 = next_state(d1, rest[0].0, rest[0].1);
            assert(is_command(rest[0].0, Command::ToggleFullscreen)) by {
                assert(rest[0] == evs[1]);
            }
            assert(d2.session.mode == TerminalMode::Fullscreen);
            let rest2 = rest.drop_first();
            assert forall|i: int| 0 <= i < rest2.len() implies is_command(
                #[trigger] rest2[i].0,
                Command::ToggleFullscreen,
            ) by {
                assert(rest2[i] == evs[i + 2]);
            }
            assert(run_events(d1, rest) == run_events(d2, rest2));
            lemma_fullscreen_toggle_parity(d2, rest2);
        }
    }
}

/// Matrix toggles that come within the cooldown after an accepted one
/// change nothing.
pub proof fn lemma_matrix_toggles_in_cooldown(d: Dispatcher, evs: Seq<(InputEvent, u64)>, t0: u64)
    requires
        d.last_matrix_toggle == Some(t0),
        forall|i: int| 0 <= i < evs.len() ==> is_command(#[trigger] evs[i].0, Command::ToggleMatrix),
        forall|i: int|
            0 <= i < evs.len() ==> t0 <= #[trigger] evs[i].1 < t0 + MATRIX_TOGGLE_COOLDOWN_MS,
    ensures
        run_events(d, evs) == d,
    decreases evs.len(),
{
    if evs.len() > 0 {
        assert(is_command(evs[0].0, Command::ToggleMatrix));
        assert(t0 <= evs[0].1 < t0 + MATRIX_TOGGLE_COOLDOWN_MS);
        assert(next_state(d, evs[0].0, evs[0].1) == d);
        let rest = evs.drop_first();
        assert forall|i: int| 0 <= i < rest.len() implies is_command(
            #[trigger] rest[i].0,
            Command::ToggleMatrix,
        ) && t0 <= rest[i].1 < t0 + MATRIX_TOGGLE_COOLDOWN_MS by {
            assert(rest[i] == evs[i + 1]);
        }
        lemma_matrix_toggles_in_cooldown(d, rest, t0);
    }
}

/// A burst of matrix toggles within one cooldown of its first, where the
/// first one is honoured, leaves the matrix flag as exactly one toggle
/// would: only the first changes it.
pub proof fn lemma_matrix_burst_toggles_once(d: Dispatcher, evs: Seq<(InputEvent, u64)>)
    requires
        evs.len() >= 1,
        toggle_allowed(d.last_matrix_toggle, evs[0].1),
        forall|i: int| 0 <= i < evs.len() ==> is_command(#[trigger] evs[i].0, Command::ToggleMatrix),
        forall|i: int|
            0 <= i < evs.len() ==> evs[0].1 <= #[trigger] evs[i].1 < evs[0].1
                + MATRIX_TOGGLE_COOLDOWN_MS,
    ensures
        run_events(d, evs) == next_state(d, evs[0].0, evs[0].1),
        run_events(d, evs).flags == (ControlFlags { matrix_mode: !d.flags.matrix_mode, ..d.flags }),
{
    assert(is_command(evs[0].0, Command::ToggleMatrix));
    let d1 = next_state(d, evs[0].0, evs[0].1);
    let rest = evs.drop_first();
    assert forall|i: int| 0 <= i < rest.len() implies is_command(
        #[trigger] rest[i].0,
        Command::ToggleMatrix,
    ) && evs[0].1 <= rest[i].1 < evs[0].1 + MATRIX_TOGGLE_COOLDOWN_MS by {
        assert(rest[i] == evs[i + 1]);
    }
    lemma_matrix_toggles_in_cooldown(d1, rest, evs[0].1);
}

} // verus!
