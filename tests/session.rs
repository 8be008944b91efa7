use fake_productivity::control::ControlFlags;
use fake_productivity::dispatcher::{
    classify_key, Command, Dispatcher, InputEvent, Key, KeyPress, Reaction,
    MATRIX_TOGGLE_COOLDOWN_MS,
};
use fake_productivity::startup::{start, Args};
use fake_productivity::terminal::{
    cleanup_and_exit, enter_fullscreen, exit_fullscreen, setup_fullscreen_terminal, TermOp,
    TerminalMode, TerminalSession,
};

fn key(c: char, ctrl: bool) -> InputEvent {
    InputEvent::Key(KeyPress { key: Key::Char(c), ctrl })
}

fn esc() -> InputEvent {
    InputEvent::Key(KeyPress { key: Key::Esc, ctrl: false })
}

fn started(matrix: bool) -> Dispatcher {
    start(Args { matrix, quick: false, daemon: false }).0
}

#[test]
fn start_sets_initial_flags_and_setup_ops() {
    let (d, ops) = start(Args { matrix: true, quick: true, daemon: true });
    assert_eq!(
        d.flags,
        ControlFlags { exit_requested: false, fullscreen: true, matrix_mode: true }
    );
    assert_eq!(d.session.mode, TerminalMode::Fullscreen);
    assert_eq!(d.last_matrix_toggle, None);
    assert_eq!(
        ops,
        vec![
            TermOp::EnableRawMode,
            TermOp::EnterAlternateScreen,
            TermOp::HideCursor,
            TermOp::ClearScreen,
            TermOp::SetTitle,
            TermOp::Flush,
        ]
    );
}

#[test]
fn scenario_fullscreen_toggle_then_escape() {
    let mut d = started(false);
    assert!(d.should_poll());

    let r = d.handle(key('f', true), 0);
    assert_eq!(
        r,
        Reaction::Apply(vec![
            TermOp::LeaveAlternateScreen,
            TermOp::ShowCursor,
            TermOp::ClearScreen,
            TermOp::PrintWindowedNotice,
            TermOp::Flush,
        ])
    );
    assert_eq!(d.session.mode, TerminalMode::Windowed);
    assert!(!d.flags.fullscreen);

    let r = d.handle(key('F', true), 50);
    assert_eq!(
        r,
        Reaction::Apply(vec![
            TermOp::EnterAlternateScreen,
            TermOp::HideCursor,
            TermOp::ClearScreen,
            TermOp::Flush,
        ])
    );
    assert_eq!(d.session.mode, TerminalMode::Fullscreen);
    assert!(d.flags.fullscreen);

    let r = d.handle(esc(), 100);
    assert_eq!(r, Reaction::Stop);
    assert!(d.flags.exit_requested);
    assert!(!d.should_poll());
}

#[test]
fn fullscreen_parity_after_many_toggles() {
    for n in 0..9u64 {
        let mut d = started(false);
        for i in 0..n {
            d.handle(key('f', true), i * 10);
        }
        let expected = if n % 2 == 0 { TerminalMode::Fullscreen } else { TerminalMode::Windowed };
        assert_eq!(d.session.mode, expected, "after {} toggles", n);
        assert_eq!(d.flags.fullscreen, n % 2 == 0);
    }
}

#[test]
fn matrix_burst_within_a_second_toggles_once() {
    let mut d = started(false);
    for t in [5000u64, 5100, 5400, 5999, 5999] {
        assert_eq!(d.handle(key('m', false), t), Reaction::Continue);
    }
    assert!(d.flags.matrix_mode);
    assert_eq!(d.last_matrix_toggle, Some(5000));
    d.handle(key('M', false), 5000 + MATRIX_TOGGLE_COOLDOWN_MS);
    assert!(!d.flags.matrix_mode);
    assert_eq!(d.last_matrix_toggle, Some(6000));
}

#[test]
fn matrix_toggle_rejected_when_clock_runs_back() {
    let mut d = started(true);
    d.handle(key('m', false), 10_000);
    assert!(!d.flags.matrix_mode);
    d.handle(key('m', false), 9_000);
    assert!(!d.flags.matrix_mode);
    assert_eq!(d.last_matrix_toggle, Some(10_000));
}

#[test]
fn exit_request_is_never_withdrawn() {
    let mut d = started(false);
    assert_eq!(d.handle(key('c', true), 0), Reaction::Stop);
    let events = [
        key('f', true),
        key('m', false),
        InputEvent::Timeout,
        InputEvent::NonKey,
        key('x', false),
        InputEvent::Error,
    ];
    for (i, ev) in events.iter().enumerate() {
        d.handle(*ev, 2000 * (i as u64 + 1));
        assert!(d.flags.exit_requested);
    }
    let mut flags = ControlFlags::new(false);
    flags.set_exit();
    flags.toggle_fullscreen();
    flags.toggle_matrix_mode();
    assert!(flags.is_exit_requested());
}

#[test]
fn input_error_stops_the_loop() {
    let mut d = started(false);
    assert_eq!(d.handle(InputEvent::Error, 0), Reaction::Stop);
    assert!(d.flags.exit_requested);
}

#[test]
fn timeouts_and_other_keys_change_nothing() {
    let mut d = started(false);
    let before = d;
    for ev in [
        InputEvent::Timeout,
        InputEvent::NonKey,
        key('c', false),
        key('z', false),
        key('f', false),
        key('m', true),
        InputEvent::Key(KeyPress { key: Key::Other, ctrl: true }),
    ] {
        assert_eq!(d.handle(ev, 1), Reaction::Continue);
        assert_eq!(d, before);
    }
}

#[test]
fn key_classification() {
    let k = |key: Key, ctrl: bool| classify_key(KeyPress { key, ctrl });
    assert_eq!(k(Key::Esc, false), Command::Exit);
    assert_eq!(k(Key::Esc, true), Command::Exit);
    assert_eq!(k(Key::Char('c'), true), Command::Exit);
    assert_eq!(k(Key::Char('C'), true), Command::Exit);
    assert_eq!(k(Key::Char('z'), true), Command::Exit);
    assert_eq!(k(Key::Char('Z'), true), Command::Exit);
    assert_eq!(k(Key::Char('f'), true), Command::ToggleFullscreen);
    assert_eq!(k(Key::Char('F'), true), Command::ToggleFullscreen);
    assert_eq!(k(Key::Char('m'), false), Command::ToggleMatrix);
    assert_eq!(k(Key::Char('M'), false), Command::ToggleMatrix);
    assert_eq!(k(Key::Char('m'), true), Command::Ignore);
    assert_eq!(k(Key::Char('c'), false), Command::Ignore);
    assert_eq!(k(Key::Char('q'), false), Command::Ignore);
    assert_eq!(k(Key::Other, false), Command::Ignore);
}

#[derive(Clone, Copy, PartialEq, Debug)]
struct Device {
    raw: bool,
    alternate: bool,
    cursor_hidden: bool,
}

fn apply(d: &mut Device, op: TermOp) {
    match op {
        TermOp::EnableRawMode => d.raw = true,
        TermOp::DisableRawMode => d.raw = false,
        TermOp::EnterAlternateScreen => d.alternate = true,
        TermOp::LeaveAlternateScreen => d.alternate = false,
        TermOp::HideCursor => d.cursor_hidden = true,
        TermOp::ShowCursor => d.cursor_hidden = false,
        _ => {}
    }
}

#[test]
fn cleanup_restores_from_any_state() {
    let restored = Device { raw: false, alternate: false, cursor_hidden: false };
    for bits in 0..8u8 {
        let mut dev = Device { raw: bits & 1 != 0, alternate: bits & 2 != 0, cursor_hidden: bits & 4 != 0 };
        let mut session = TerminalSession { mode: TerminalMode::Windowed };
        let ops = cleanup_and_exit(&mut session);
        assert_eq!(session.mode, TerminalMode::Restored);
        assert_eq!(ops.len(), 6);
        for op in ops {
            apply(&mut dev, op);
        }
        assert_eq!(dev, restored);
    }
}

#[test]
fn cleanup_twice_is_harmless() {
    let mut session = TerminalSession::new();
    let first = cleanup_and_exit(&mut session);
    let second = cleanup_and_exit(&mut session);
    assert_eq!(first, second);
    assert_eq!(session.mode, TerminalMode::Restored);
    assert_eq!(
        first,
        vec![
            TermOp::DisableRawMode,
            TermOp::LeaveAlternateScreen,
            TermOp::ShowCursor,
            TermOp::ClearScreen,
            TermOp::PrintFarewell,
            TermOp::Flush,
        ]
    );
}

#[test]
fn transitions_reach_their_device_states() {
    let mut session = TerminalSession::new();
    let mut dev = Device { raw: false, alternate: false, cursor_hidden: false };
    for op in setup_fullscreen_terminal(&mut session) {
        apply(&mut dev, op);
    }
    assert_eq!(dev, Device { raw: true, alternate: true, cursor_hidden: true });
    for op in exit_fullscreen(&mut session) {
        apply(&mut dev, op);
    }
    assert_eq!(session.mode, TerminalMode::Windowed);
    assert_eq!(dev, Device { raw: true, alternate: false, cursor_hidden: false });
    for op in enter_fullscreen(&mut session) {
        apply(&mut dev, op);
    }
    assert_eq!(session.mode, TerminalMode::Fullscreen);
    assert_eq!(dev, Device { raw: true, alternate: true, cursor_hidden: true });
    let again = enter_fullscreen(&mut session);
    for op in again {
        apply(&mut dev, op);
    }
    assert_eq!(dev, Device { raw: true, alternate: true, cursor_hidden: true });
}
