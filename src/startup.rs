//! Process start: the three startup flags, the initial state of the
//! dispatcher, and the banners printed before the generator's first tick.
use vstd::prelude::*;
use crate::control::ControlFlags;
use crate::dispatcher::{Dispatcher, dispatcher_wf};
use crate::terminal::{TermOp, TerminalMode, TerminalSession, setup_fullscreen_terminal, setup_ops};
use crate::logs::push_span;
use crate::text::{Color, Span, Style, line_view, plain, fg, bold, dim, plain_style, fg_style, bold_style, dim_style};
use crate::advisory::{line_views, single};

verus! {

/// The startup flags.
#[derive(Clone, Copy, Debug, PartialEq, Eq, Structural)]
pub struct Args {
    /// Start in matrix display mode.
    pub matrix: bool,
    /// Skip the Unicode advisory and use the fast tick interval.
    pub quick: bool,
    /// Print a daemon notice; nothing is forked.
    pub daemon: bool,
}

/// The dispatcher at process start, and the operations that take the
/// terminal into fullscreen: no exit, fullscreen, matrix mode as asked.
pub fn start(args: Args) -> (r: (Dispatcher, Vec<TermOp>))
    ensures
        r.0 == (Dispatcher {
            flags: ControlFlags { exit_requested: false, fullscreen: true, matrix_mode: args.matrix },
            session: TerminalSession { mode: TerminalMode::Fullscreen },
            last_matrix_toggle: None,
        }),
        dispatcher_wf(r.0),
        r.1@ == setup_ops(),
{
    let mut session = TerminalSession::new();
    let ops = setup_fullscreen_terminal(&mut session);
    let flags = ControlFlags::new(args.matrix);
    (Dispatcher::new(flags, session), ops)
}

fn single_line(text: &str, style: Style) -> (line: Vec<Span>)
    ensures
        line_view(line@) == single(text@, style),
{
    let mut line: Vec<Span> = Vec::new();
    assert(line_view(line@) =~= Seq::empty());
    push_span(&mut line, text, style);
    assert(line_view(line@) =~= single(text@, style));
    line
}

fn blank_line() -> (line: Vec<Span>)
    ensures
        line_view(line@) == Seq::<(Seq<char>, Style)>::empty(),
{
    let line: Vec<Span> = Vec::new();
    assert(line_view(line@) =~= Seq::empty());
    line
}

/// The notice of daemon mode, when asked for.
pub fn daemon_notice(args: Args) -> (lines: Vec<Vec<Span>>)
    ensures
        line_views(lines@) == if args.daemon {
            seq![single("🔧 Starting in daemon mode..."@, plain_style())]
        } else {
            Seq::empty()
        },
{
    let mut lines: Vec<Vec<Span>> = Vec::new();
    if args.daemon {
        lines.push(single_line("🔧 Starting in daemon mode...", plain()));
    }
    assert(line_views(lines@) =~= if args.daemon {
        seq![single("🔧 Starting in daemon mode..."@, plain_style())]
    } else {
        Seq::empty()
    });
    lines
}

pub open spec fn key_help_view() -> Seq<(Seq<char>, Style)> {
    single(
        "Press Ctrl+F to toggle fullscreen, M to toggle matrix mode, ESC/Ctrl+C/Ctrl+Z to exit"@,
        dim_style(Color::Default),
    )
}

/// The header of normal mode, with a notice of quick mode when it is on.
pub fn normal_header(quick: bool) -> (lines: Vec<Vec<Span>>)
    ensures
        line_views(lines@) == seq![
            single("🚀 FAKE PRODUCTIVITY SYSTEM v2.0"@, bold_style(Color::BrightCyan)),
            single("================================"@, fg_style(Color::Cyan)),
            key_help_view(),
            Seq::empty(),
        ] + if quick {
            seq![
                single(
                    "⚡ QUICK MODE ACTIVATED - High frequency updates!"@,
                    fg_style(Color::BrightYellow),
                ),
                Seq::empty(),
            ]
        } else {
            Seq::empty()
        },
{
    let mut lines: Vec<Vec<Span>> = Vec::new();
    lines.push(single_line("🚀 FAKE PRODUCTIVITY SYSTEM v2.0", bold(Color::BrightCyan)));
    lines.push(single_line("================================", fg(Color::Cyan)));
    lines.push(
        single_line(
            "Press Ctrl+F to toggle fullscreen, M to toggle matrix mode, ESC/Ctrl+C/Ctrl+Z to exit",
            dim(Color::Default),
        ),
    );
    lines.push(blank_line());
    if quick {
        lines.push(
            single_line("⚡ QUICK MODE ACTIVATED - High frequency updates!", fg(Color::BrightYellow)),
        );
        lines.push(blank_line());
    }
    assert(line_views(lines@) =~= seq![
        single("🚀 FAKE PRODUCTIVITY SYSTEM v2.0"@, bold_style(Color::BrightCyan)),
        single("================================"@, fg_style(Color::Cyan)),
        key_help_view(),
        Seq::empty(),
    ] + if quick {
        seq![
            single("⚡ QUICK MODE ACTIVATED - High frequency updates!"@, fg_style(Color::BrightYellow)),
            Seq::empty(),
        ]
    } else {
        Seq::empty()
    });
    lines
}

/// The header of matrix mode.
pub fn matrix_header() -> (lines: Vec<Vec<Span>>)
    ensures
        line_views(lines@) == seq![
            single("THE MATRIX - NEURAL INTERFACE ACTIVE"@, bold_style(Color::BrightGreen)),
            single("======================================"@, fg_style(Color::Green)),
            key_help_view(),
            Seq::empty(),
        ],
{
    let mut lines: Vec<Vec<Span>> = Vec::new();
    lines.push(single_line("THE MATRIX - NEURAL INTERFACE ACTIVE", bold(Color::BrightGreen)));
    lines.push(single_line("======================================", fg(Color::Green)));
    lines.push(
        single_line(
            "Press Ctrl+F to toggle fullscreen, M to toggle matrix mode, ESC/Ctrl+C/Ctrl+Z to exit",
            dim(Color::Default),
        ),
    );
    lines.push(blank_line());
    assert(line_views(lines@) =~= seq![
        single("THE MATRIX - NEURAL INTERFACE ACTIVE"@, bold_style(Color::BrightGreen)),
        single("======================================"@, fg_style(Color::Green)),
        key_help_view(),
        Seq::empty(),
    ]);
    lines
}

} // verus!
