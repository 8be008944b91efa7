//! The terminal session controller, as a state machine over three modes.
//! Each transition yields the list of device operations that carries the
//! terminal from the old mode to the new one; whoever owns the device
//! performs them in order.
use vstd::prelude::*;

verus! {

/// The three modes of the terminal.
#[derive(Clone, Copy, Debug, PartialEq, Eq, Structural)]
pub enum TerminalMode {
    /// Ordinary terminal: cooked input, primary screen, cursor shown.
    Restored,
    /// Raw input, alternate screen, cursor hidden.
    Fullscreen,
    /// Raw input kept, primary screen, cursor shown.
    Windowed,
}

/// One operation on the terminal device.
#[derive(Clone, Copy, Debug, PartialEq, Eq, Structural)]
pub enum TermOp {
    EnableRawMode,
    DisableRawMode,
    EnterAlternateScreen,
    LeaveAlternateScreen,
    HideCursor,
    ShowCursor,
    ClearScreen,
    SetTitle,
    PrintWindowedNotice,
    PrintFarewell,
    Flush,
}

/// The facets of the device that the operations change.
pub struct DeviceState {
    pub raw: bool,
    pub alternate: bool,
    pub cursor_hidden: bool,
}

/// The device state that each mode stands for.
pub open spec fn device_of(m: TerminalMode) -> DeviceState {
    match m {
        TerminalMode::Restored => DeviceState { raw: false, alternate: false, cursor_hidden: false },
        TerminalMode::Fullscreen => DeviceState { raw: true, alternate: true, cursor_hidden: true },
        TerminalMode::Windowed => DeviceState { raw: true, alternate: false, cursor_hidden: false },
    }
}

/// The effect of one operation. Each one sets its facet whatever it was
/// before, so repeating one, or running it on a device already in that
/// state, changes nothing.
pub open spec fn apply_op(d: DeviceState, op: TermOp) -> DeviceState {
    match op {
        TermOp::EnableRawMode => DeviceState { raw: true, ..d },
        TermOp::DisableRawMode => DeviceState { raw: false, ..d },
        TermOp::EnterAlternateScreen => DeviceState { alternate: true, ..d },
        TermOp::LeaveAlternateScreen => DeviceState { alternate: false, ..d },
        TermOp::HideCursor => DeviceState { cursor_hidden: true, ..d },
        TermOp::ShowCursor => DeviceState { cursor_hidden: false, ..d },
        _ => d,
    }
}

/// The device after the operations in order, all of them succeeding.
pub open spec fn run_ops(d: DeviceState, ops: Seq<TermOp>) -> DeviceState
    decreases ops.len(),
{
    if ops.len() == 0 {
        d
    } else {
        run_ops(apply_op(d, ops[0]), ops.drop_first())
    }
}

/// The device after every operation is attempted in order, where
/// `failed[i]` says that the i-th one failed and left the device as it was.
pub open spec fn run_ops_best_effort(d: DeviceState, ops: Seq<TermOp>, failed: Seq<bool>) -> DeviceState
    decreases ops.len(),
{
    if ops.len() == 0 {
        d
    } else {
        let next = if failed.len() > 0 && failed[0] { d } else { apply_op(d, ops[0]) };
        run_ops_best_effort(next, ops.drop_first(), failed.drop_first())
    }
}

pub open spec fn setup_ops() -> Seq<TermOp> {
    seq![
        TermOp::EnableRawMode,
        TermOp::EnterAlternateScreen,
        TermOp::HideCursor,
        TermOp::ClearScreen,
        TermOp::SetTitle,
        TermOp::Flush,
    ]
}

pub open spec fn enter_fullscreen_ops() -> Seq<TermOp> {
    seq![TermOp::EnterAlternateScreen, TermOp::HideCursor, TermOp::ClearScreen, TermOp::Flush]
}

pub open spec fn exit_fullscreen_ops() -> Seq<TermOp> {
    seq![
        TermOp::LeaveAlternateScreen,
        TermOp::ShowCursor,
        TermOp::ClearScreen,
        TermOp::PrintWindowedNotice,
        TermOp::Flush,
    ]
}

pub open spec fn cleanup_ops() -> Seq<TermOp> {
    seq![
        TermOp::DisableRawMode,
        TermOp::LeaveAlternateScreen,
        TermOp::ShowCursor,
        TermOp::ClearScreen,
        TermOp::PrintFarewell,
        TermOp::Flush,
    ]
}

/// The session: which mode the terminal is in.
#[derive(Clone, Copy, Debug, PartialEq, Eq, Structural)]
pub struct TerminalSession {
    pub mode: TerminalMode,
}

impl TerminalSession {
    /// A session that has not touched the terminal yet.
    pub fn new() -> (r: TerminalSession)
        ensures
            r.mode == TerminalMode::Restored,
    {
        TerminalSession { mode: TerminalMode::Restored }
    }
}

/// Takes the terminal into fullscreen: raw input, alternate screen, hidden
/// cursor, a cleared screen and a window title.
pub fn setup_fullscreen_terminal(session: &mut TerminalSession) -> (ops: Vec<TermOp>)
    ensures
        final(session).mode == TerminalMode::Fullscreen,
        ops@ == setup_ops(),
        run_ops(device_of(old(session).mode), ops@) == device_of(TerminalMode::Fullscreen),
{
    session.mode = TerminalMode::Fullscreen;
    let ops = vec![
        TermOp::EnableRawMode,
        TermOp::EnterAlternateScreen,
        TermOp::HideCursor,
        TermOp::ClearScreen,
        TermOp::SetTitle,
        TermOp::Flush,
    ];
    proof {
        assert(ops@ =~= setup_ops());
        reveal_with_fuel(run_ops, 7);
    }
    ops
}

/// Returns to the alternate screen with the cursor hidden; raw input is left
/// as it is. From fullscreen it changes nothing.
pub fn enter_fullscreen(session: &mut TerminalSession) -> (ops: Vec<TermOp>)
    requires
        old(session).mode != TerminalMode::Restored,
    ensures
        final(session).mode == TerminalMode::Fullscreen,
        ops@ == enter_fullscreen_ops(),
        run_ops(device_of(old(session).mode), ops@) == device_of(TerminalMode::Fullscreen),
{
    session.mode = TerminalMode::Fullscreen;
    let ops = vec![TermOp::EnterAlternateScreen, TermOp::HideCursor, TermOp::ClearScreen, TermOp::Flush];
    proof {
        assert(ops@ =~= enter_fullscreen_ops());
        reveal_with_fuel(run_ops, 5);
    }
    ops
}

/// Leaves the alternate screen and shows the cursor, keeping raw input so
/// that single keys still act.
pub fn exit_fullscreen(session: &mut TerminalSession) -> (ops: Vec<TermOp>)
    requires
        old(session).mode != TerminalMode::Restored,
    ensures
        final(session).mode == TerminalMode::Windowed,
        ops@ == exit_fullscreen_ops(),
        run_ops(device_of(old(session).mode), ops@) == device_of(TerminalMode::Windowed),
{
    session.mode = TerminalMode::Windowed;
    let ops = vec![
        TermOp::LeaveAlternateScreen,
        TermOp::ShowCursor,
        TermOp::ClearScreen,
        TermOp::PrintWindowedNotice,
        TermOp::Flush,
    ];
    proof {
        assert(ops@ =~= exit_fullscreen_ops());
        reveal_with_fuel(run_ops, 6);
    }
    ops
}

/// The restoration that ends every session: cooked input, primary screen,
/// visible cursor, a cleared screen, a farewell line, a flush. It restores
/// the terminal from any device state, and each restoring step acts on its
/// own, whichever of the others fail.
pub fn cleanup_and_exit(session: &mut TerminalSession) -> (ops: Vec<TermOp>)
    ensures
        final(session).mode == TerminalMode::Restored,
        ops@ == cleanup_ops(),
        forall|d: DeviceState| #[trigger] run_ops(d, ops@) == device_of(TerminalMode::Restored),
{
    session.mode = TerminalMode::Restored;
    let ops = vec![
        TermOp::DisableRawMode,
        TermOp::LeaveAlternateScreen,
        TermOp::ShowCursor,
        TermOp::ClearScreen,
        TermOp::PrintFarewell,
        TermOp::Flush,
    ];
    proof {
        assert(ops@ =~= cleanup_ops());
        reveal_with_fuel(run_ops, 7);
    }
    ops
}

/// Restoration is safe from any state: with any of its steps failing, every
/// step is still attempted, and each facet of the device ends restored
/// unless its own step failed while it was not yet restored.
pub proof fn lemma_cleanup_best_effort(d: DeviceState, failed: Seq<bool>)
    requires
        failed.len() == cleanup_ops().len(),
    ensures
        ({
            let e = run_ops_best_effort(d, cleanup_ops(), failed);
            &&& e.raw == (failed[0] && d.raw)
            &&& e.alternate == (failed[1] && d.alternate)
            &&& e.cursor_hidden == (failed[2] && d.cursor_hidden)
        }),
{
    reveal_with_fuel(run_ops_best_effort, 7);
}

} // verus!
