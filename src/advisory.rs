//! The Unicode-support advisory shown at startup: what it says, given the
//! values of `LANG` and `WSL_DISTRO_NAME`.
use vstd::prelude::*;
use crate::logs::{push_span, push_string_span};
use crate::text::{Color, Span, Style, line_view, plain, fg, plain_style, fg_style};

verus! {

/// What `str::to_lowercase` gives for a string.
pub uninterp spec fn lower_of(s: Seq<char>) -> Seq<char>;

/// Relies on `str::to_lowercase`: the result depends on the characters
/// alone, and the empty string stays empty.
#[verifier::external_body]
fn lowercase(s: &str) -> (r: String)
    ensures
        r@ == lower_of(s@),
        s@.len() == 0 ==> r@.len() == 0,
{
    s.to_lowercase()
}

/// `needle` occurs in `hay` at some position.
pub open spec fn occurs_in(needle: Seq<char>, hay: Seq<char>) -> bool {
    exists|i: int| 0 <= i <= hay.len() - needle.len() && #[trigger] hay.subrange(i, i + needle.len()) == needle
}

/// Whether `u`, `t`, `f` occur in a row in `s`.
pub fn contains_utf(s: &str) -> (r: bool)
    ensures
        r == occurs_in("utf"@, s@),
{
    proof {
        reveal_strlit("utf");
    }
    let n = s.unicode_len();
    if n < 3 {
        return false;
    }
    assert("utf"@ =~= seq!['u', 't', 'f']);
    let mut i: usize = 0;
    while i <= n - 3
        invariant
            "utf"@ == seq!['u', 't', 'f'],
            n == s@.len(),
            n >= 3,
            i <= n - 2,
            forall|j: int| 0 <= j < i ==> #[trigger] s@.subrange(j, j + 3) != "utf"@,
        decreases n - i,
    {
        if s.get_char(i) == 'u' && s.get_char(i + 1) == 't' && s.get_char(i + 2) == 'f' {
            assert(s@.subrange(i as int, i + 3) =~= "utf"@);
            return true;
        }
        assert(s@.subrange(i as int, i + 3) != "utf"@) by {
            if s@.subrange(i as int, i + 3) == "utf"@ {
                assert(s@.subrange(i as int, i + 3)[0] == s@[i as int]);
                assert(s@.subrange(i as int, i + 3)[1] == s@[i + 1]);
                assert(s@.subrange(i as int, i + 3)[2] == s@[i + 2]);
            }
        }
        i = i + 1;
    }
    assert(!occurs_in("utf"@, s@)) by {
        if occurs_in("utf"@, s@) {
            let j = choose|j: int| 0 <= j <= s@.len() - 3 && #[trigger] s@.subrange(j, j + 3) == "utf"@;
            assert(j < i);
        }
    }
    false
}

/// How `LANG` stands as to UTF-8.
#[derive(Clone, Copy, Debug, PartialEq, Eq, Structural)]
pub enum LangStatus {
    Unset,
    NotUtf8,
    Utf8,
}

/// `LANG`, already lower-cased, mentions UTF-8 when it holds "utf".
pub open spec fn lang_status_of_lowered(lowered: Option<Seq<char>>) -> LangStatus {
    match lowered {
        None => LangStatus::Unset,
        Some(l) => if occurs_in("utf"@, l) {
            LangStatus::Utf8
        } else {
            LangStatus::NotUtf8
        },
    }
}

/// The status of a `LANG` value that is already lower-cased.
pub fn lang_status_lowered(lowered: Option<&str>) -> (r: LangStatus)
    ensures
        r == lang_status_of_lowered(
            match lowered {
                Some(l) => Some(l@),
                None => None,
            },
        ),
{
    match lowered {
        None => LangStatus::Unset,
        Some(l) => if contains_utf(l) {
            LangStatus::Utf8
        } else {
            LangStatus::NotUtf8
        },
    }
}

/// The status of `LANG`: unset, or whether its lower-case form holds "utf".
pub fn lang_status(lang: Option<&str>) -> (r: LangStatus)
    ensures
        r == lang_status_of_lowered(
            match lang {
                Some(l) => Some(lower_of(l@)),
                None => None,
            },
        ),
{
    match lang {
        None => LangStatus::Unset,
        Some(l) => {
            let lowered = lowercase(l);
            lang_status_lowered(Some(lowered.as_str()))
        },
    }
}

pub open spec fn line_views(lines: Seq<Vec<Span>>) -> Seq<Seq<(Seq<char>, Style)>> {
    lines.map_values(|l: Vec<Span>| line_view(l@))
}

pub open spec fn single(text: Seq<char>, style: Style) -> Seq<(Seq<char>, Style)> {
    seq![(text, style)]
}

/// The opening of the advisory.
pub open spec fn intro_view() -> Seq<Seq<(Seq<char>, Style)>> {
    seq![
        single("🔍 Checking Unicode/Japanese character support..."@, fg_style(Color::Yellow)),
        single("Test characters: 日本語テスト こんにちは 漢字 ひらがな カタカナ"@, plain_style()),
        single("CJK symbols: ▲ ◆ ● ■ ★ ◉ ⬢ ⬡"@, plain_style()),
    ]
}

/// The warning about `LANG`, if any.
pub open spec fn lang_view(status: LangStatus, lang: Seq<char>) -> Seq<Seq<(Seq<char>, Style)>> {
    match status {
        LangStatus::Utf8 => Seq::empty(),
        LangStatus::NotUtf8 => seq![
            single("⚠️  WARNING: LANG environment variable doesn't include UTF-8"@, fg_style(Color::Red)),
            seq![("   Current LANG: "@, plain_style()), (lang, fg_style(Color::Yellow))],
            single(
                "   Recommended: export LANG=en_US.UTF-8 (or your locale.UTF-8)"@,
                fg_style(Color::Green),
            ),
        ],
        LangStatus::Unset => seq![
            single("⚠️  WARNING: LANG environment variable not set"@, fg_style(Color::Red)),
            single("   Recommended: export LANG=en_US.UTF-8"@, fg_style(Color::Green)),
        ],
    }
}

/// The note about WSL, if a distribution is named.
pub open spec fn wsl_view(wsl: Option<Seq<char>>) -> Seq<Seq<(Seq<char>, Style)>> {
    match wsl {
        None => Seq::empty(),
        Some(name) => seq![
            seq![
                ("🐧 WSL Environment Detected: "@, fg_style(Color::BrightBlue)),
                (name, fg_style(Color::BrightBlue)),
            ],
            single(
                "   Make sure Windows Terminal is configured with a CJK font!"@,
                fg_style(Color::Yellow),
            ),
        ],
    }
}

/// The font and terminal recommendations that close the advisory.
pub open spec fn advice_view() -> Seq<Seq<(Seq<char>, Style)>> {
    seq![
        Seq::empty(),
        single(
            "📝 For best Japanese character display, use a font that supports CJK:"@,
            fg_style(Color::Cyan),
        ),
        single("   • Noto Sans CJK / Noto Sans JP"@, plain_style()),
        single("   • Source Han Sans / Source Code Pro"@, plain_style()),
        single("   • Fira Code (with CJK fallback)"@, plain_style()),
        single("   • JetBrains Mono (with CJK fallback)"@, plain_style()),
        single("   • Cascadia Code PL"@, plain_style()),
        Seq::empty(),
        single("🖥️  Terminal recommendations:"@, fg_style(Color::Cyan)),
        single("   • Modern terminals: Alacritty, Kitty, iTerm2, Windows Terminal"@, plain_style()),
        single("   • For WSL: Use Windows Terminal with CJK font configured"@, plain_style()),
        single("   • Enable UTF-8 encoding in your terminal settings"@, plain_style()),
    ]
}

fn push_line(lines: &mut Vec<Vec<Span>>, line: Vec<Span>)
    ensures
        line_views(final(lines)@) == line_views(old(lines)@).push(line_view(line@)),
{
    let ghost lv = line_view(line@);
    lines.push(line);
    assert(line_views(lines@) =~= line_views(old(lines)@).push(lv));
}

fn push_single(lines: &mut Vec<Vec<Span>>, text: &str, style: Style)
    ensures
        line_views(final(lines)@) == line_views(old(lines)@).push(single(text@, style)),
{
    let mut line: Vec<Span> = Vec::new();
    assert(line_view(line@) =~= Seq::empty());
    push_span(&mut line, text, style);
    assert(line_view(line@) =~= single(text@, style));
    push_line(lines, line);
}

/// The advisory up to the pause that follows it: the test characters, a
/// warning when `LANG` is unset or does not mention UTF-8, a note when
/// running under WSL, and the recommendations.
pub fn unicode_report(lang: Option<&str>, wsl: Option<&str>) -> (lines: Vec<Vec<Span>>)
    ensures
        line_views(lines@) == intro_view() + lang_view(
            lang_status_of_lowered(
                match lang {
                    Some(l) => Some(lower_of(l@)),
                    None => None,
                },
            ),
            match lang {
                Some(l) => l@,
                None => Seq::empty(),
            },
        ) + wsl_view(
            match wsl {
                Some(w) => Some(w@),
                None => None,
            },
        ) + advice_view(),
{
    let mut lines: Vec<Vec<Span>> = Vec::new();
    assert(line_views(lines@) =~= Seq::empty());
    push_single(&mut lines, "🔍 Checking Unicode/Japanese character support...", fg(Color::Yellow));
    push_single(&mut lines, "Test characters: 日本語テスト こんにちは 漢字 ひらがな カタカナ", plain());
    push_single(&mut lines, "CJK symbols: ▲ ◆ ● ■ ★ ◉ ⬢ ⬡", plain());
    let ghost part1 = line_views(lines@);
    assert(part1 =~= intro_view());
    let status = lang_status(lang);
    let ghost lang_text = match lang {
        Some(l) => l@,
        None => Seq::empty(),
    };
    match status {
        LangStatus::Utf8 => {
            assert(line_views(lines@) =~= part1 + lang_view(status, lang_text));
        },
        LangStatus::NotUtf8 => {
            push_single(
                &mut lines,
                "⚠️  WARNING: LANG environment variable doesn't include UTF-8",
                fg(Color::Red),
            );
            let mut line: Vec<Span> = Vec::new();
            assert(line_view(line@) =~= Seq::empty());
            push_span(&mut line, "   Current LANG: ", plain());
            match lang {
                Some(l) => push_span(&mut line, l, fg(Color::Yellow)),
                None => push_span(&mut line, "", fg(Color::Yellow)),
            }
            assert(line_view(line@) =~= seq![
                ("   Current LANG: "@, plain_style()),
                (lang_text, fg_style(Color::Yellow)),
            ]);
            push_line(&mut lines, line);
            push_single(
                &mut lines,
                "   Recommended: export LANG=en_US.UTF-8 (or your locale.UTF-8)",
                fg(Color::Green),
            );
            assert(line_views(lines@) =~= part1 + lang_view(status, lang_text));
        },
        LangStatus::Unset => {
            push_single(&mut lines, "⚠️  WARNING: LANG environment variable not set", fg(Color::Red));
            push_single(&mut lines, "   Recommended: export LANG=en_US.UTF-8", fg(Color::Green));
            assert(line_views(lines@) =~= part1 + lang_view(status, lang_text));
        },
    }
    let ghost part2 = line_views(lines@);
    assert(part2 =~= intro_view() + lang_view(status, lang_text));
    let ghost wsl_text = match wsl {
        Some(w) => Some(w@),
        None => None,
    };
    match wsl {
        None => {
            assert(line_views(lines@) =~= part2 + wsl_view(wsl_text));
        },
        Some(name) => {
            let mut line: Vec<Span> = Vec::new();
            assert(line_view(line@) =~= Seq::empty());
            push_span(&mut line, "🐧 WSL Environment Detected: ", fg(Color::BrightBlue));
            push_span(&mut line, name, fg(Color::BrightBlue));
            assert(line_view(line@) =~= seq![
                ("🐧 WSL Environment Detected: "@, fg_style(Color::BrightBlue)),
                (name@, fg_style(Color::BrightBlue)),
            ]);
            push_line(&mut lines, line);
            push_single(
                &mut lines,
                "   Make sure Windows Terminal is configured with a CJK font!",
                fg(Color::Yellow),
            );
            assert(line_views(lines@) =~= part2 + wsl_view(wsl_text));
        },
    }
    let ghost part3 = line_views(lines@);
    assert(part3 =~= part2 + wsl_view(wsl_text));
    let blank: Vec<Span> = Vec::new();
    assert(line_view(blank@) =~= Seq::empty());
    push_line(&mut lines, blank);
    push_single(
        &mut lines,
        "📝 For best Japanese character display, use a font that supports CJK:",
        fg(Color::Cyan),
    );
    push_single(&mut lines, "   • Noto Sans CJK / Noto Sans JP", plain());
    push_single(&mut lines, "   • Source Han Sans / Source Code Pro", plain());
    push_single(&mut lines, "   • Fira Code (with CJK fallback)", plain());
    push_single(&mut lines, "   • JetBrains Mono (with CJK fallback)", plain());
    push_single(&mut lines, "   • Cascadia Code PL", plain());
    let blank: Vec<Span> = Vec::new();
    assert(line_view(blank@) =~= Seq::empty());
    push_line(&mut lines, blank);
    push_single(&mut lines, "🖥️  Terminal recommendations:", fg(Color::Cyan));
    push_single(
        &mut lines,
        "   • Modern terminals: Alacritty, Kitty, iTerm2, Windows Terminal",
        plain(),
    );
    push_single(&mut lines, "   • For WSL: Use Windows Terminal with CJK font configured", plain());
    push_single(&mut lines, "   • Enable UTF-8 encoding in your terminal settings", plain());
    assert(line_views(lines@) =~= part3 + advice_view());
    lines
}

/// The rule that ends the advisory, after its pause.
pub fn unicode_report_rule() -> (line: Vec<Span>)
    ensures
        line_view(line@) == single("============================================"@, fg_style(Color::Cyan)),
{
    let mut line: Vec<Span> = Vec::new();
    assert(line_view(line@) =~= Seq::empty());
    push_span(&mut line, "============================================", fg(Color::Cyan));
    assert(line_view(line@) =~= single("============================================"@, fg_style(Color::Cyan)));
    line
}

} // verus!
