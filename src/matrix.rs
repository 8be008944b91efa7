//! The lines of matrix mode, built and drawn as in `logs`.
use vstd::prelude::*;
use rand::rngs::StdRng;
use crate::logs::{drawn_from, push_span, push_string_span, push_decimal_span};
use crate::random::{draw_below, draw_ratio};
use crate::tables::{
    MATRIX_SYSTEMS_LEN, matrix_systems, matrix_systems_table, MATRIX_CODES_LEN, matrix_codes,
    matrix_codes_table, MATRIX_DATA_TYPES_LEN, matrix_data_types, matrix_data_types_table,
    MATRIX_NODES_LEN, matrix_nodes, matrix_nodes_table, MATRIX_PHRASES_LEN, matrix_phrases,
    matrix_phrases_table,
};
use crate::text::{
    Color, Span, Style, line_view, plain, fg, bold, dim, plain_style, fg_style, bold_style,
    dim_style, decimal, push_char, upper_hex_digit, upper_hex_digits, hex_byte,
};

verus! {

/// The characters of the code rain: hexadecimal digits and katakana.
pub open spec fn code_chars() -> Seq<char> {
    "0123456789ABCDEFアイウエオカキクケコサシスセソタチツテトナニヌネノハヒフヘホマミムメモヤユヨラリルレロワヲン"@
}

pub const CODE_CHARS_LEN: u64 = 62;

/// The style of a code-rain line of the given intensity.
pub open spec fn code_style(intensity: nat) -> Style {
    if intensity == 0 {
        dim_style(Color::Green)
    } else if intensity == 1 {
        fg_style(Color::Green)
    } else {
        bold_style(Color::BrightGreen)
    }
}

pub open spec fn code_line_view(text: Seq<char>, intensity: nat) -> Seq<(Seq<char>, Style)> {
    seq![(text, code_style(intensity))]
}

/// The lines that `generate_matrix_code` may give.
pub open spec fn matrix_code_lines(lines: Seq<Vec<Span>>) -> bool {
    &&& lines.len() == 1
    &&& exists|text: Seq<char>, intensity: nat|
            20 <= text.len() < 80 && drawn_from(text, text.len(), code_chars()) && intensity < 3
                && line_view(lines[0]@) == #[trigger] code_line_view(text, intensity)
}

/// A line of code rain: between 20 and 79 characters of the code set, in
/// one of three intensities.
pub fn generate_matrix_code(rng: &mut StdRng) -> (lines: Vec<Vec<Span>>)
    ensures
        matrix_code_lines(lines@),
{
    let chars = "0123456789ABCDEFアイウエオカキクケコサシスセソタチツテトナニヌネノハヒフヘホマミムメモヤユヨラリルレロワヲン";
    proof {
        reveal_strlit("0123456789ABCDEFアイウエオカキクケコサシスセソタチツテトナニヌネノハヒフヘホマミムメモヤユヨラリルレロワヲン");
    }
    let length = draw_below(rng, 20, 80);
    let mut text = String::new();
    let mut i: u64 = 0;
    while i < length
        invariant
            i <= length,
            chars@ == code_chars(),
            code_chars().len() == CODE_CHARS_LEN,
            drawn_from(text@, i as nat, code_chars()),
        decreases length - i,
    {
        let k = draw_below(rng, 0, CODE_CHARS_LEN);
        let c = chars.get_char(k as usize);
        let ghost before = text@;
        push_char(&mut text, c);
        proof {
            assert(code_chars().contains(c));
            assert forall|j: int| 0 <= j < text@.len() implies code_chars().contains(
                #[trigger] text@[j],
            ) by {
                if j < before.len() {
                    assert(text@[j] == before[j]);
                }
            }
        }
        i = i + 1;
    }
    let intensity = draw_below(rng, 0, 3);
    let style = if intensity == 0 {
        dim(Color::Green)
    } else if intensity == 1 {
        fg(Color::Green)
    } else {
        bold(Color::BrightGreen)
    };
    let ghost t = text@;
    let mut line: Vec<Span> = Vec::new();
    assert(line_view(line@) =~= Seq::empty());
    push_string_span(&mut line, text, style);
    let lines = vec![line];
    assert(line_view(lines@[0]@) =~= code_line_view(t, intensity as nat));
    lines
}

pub open spec fn breach_style() -> Style {
    Style { color: Color::BrightRed, bold: false, dimmed: false, blink: true }
}

pub open spec fn matrix_system_view(system: int, code: int, active: bool) -> Seq<(Seq<char>, Style)> {
    seq![
        (matrix_systems_table()[system], fg_style(Color::BrightGreen)),
        (" "@, plain_style()),
        (matrix_codes_table()[code], dim_style(Color::Green)),
        (" >> "@, plain_style()),
        if active {
            ("ACTIVE"@, fg_style(Color::Green))
        } else {
            ("BREACH"@, breach_style())
        },
    ]
}

/// A status line: system, code, and ACTIVE or a blinking BREACH.
pub fn matrix_system_line(system: u64, code: u64, active: bool) -> (line: Vec<Span>)
    requires
        system < MATRIX_SYSTEMS_LEN,
        code < MATRIX_CODES_LEN,
    ensures
        line_view(line@) == matrix_system_view(system as int, code as int, active),
{
    let mut line: Vec<Span> = Vec::new();
    assert(line_view(line@) =~= Seq::empty());
    push_span(&mut line, matrix_systems(system), fg(Color::BrightGreen));
    push_span(&mut line, " ", plain());
    push_span(&mut line, matrix_codes(code), dim(Color::Green));
    push_span(&mut line, " >> ", plain());
    if active {
        push_span(&mut line, "ACTIVE", fg(Color::Green));
    } else {
        push_span(
            &mut line,
            "BREACH",
            Style { color: Color::BrightRed, bold: false, dimmed: false, blink: true },
        );
    }
    assert(line_view(line@) =~= matrix_system_view(system as int, code as int, active));
    line
}

/// The lines that `generate_matrix_system` may give.
pub open spec fn matrix_system_lines(lines: Seq<Vec<Span>>) -> bool {
    &&& lines.len() == 1
    &&& exists|system: int, code: int, active: bool|
            0 <= system < MATRIX_SYSTEMS_LEN && 0 <= code < MATRIX_CODES_LEN && line_view(
                lines[0]@,
            ) == #[trigger] matrix_system_view(system, code, active)
}

/// Draws a system, a code, and ACTIVE four times in five.
pub fn generate_matrix_system(rng: &mut StdRng) -> (lines: Vec<Vec<Span>>)
    ensures
        matrix_system_lines(lines@),
{
    let system = draw_below(rng, 0, MATRIX_SYSTEMS_LEN);
    let code = draw_below(rng, 0, MATRIX_CODES_LEN);
    let active = draw_ratio(rng, 4, 5);
    let lines = vec![matrix_system_line(system, code, active)];
    assert(line_view(lines@[0]@) == matrix_system_view(system as int, code as int, active));
    lines
}

/// `length` upper-case hexadecimal digits.
pub fn generate_matrix_hash(rng: &mut StdRng, length: usize) -> (r: String)
    ensures
        drawn_from(r@, length as nat, upper_hex_digits()),
{
    let mut s = String::new();
    let mut i: usize = 0;
    while i < length
        invariant
            i <= length,
            drawn_from(s@, i as nat, upper_hex_digits()),
        decreases length - i,
    {
        let d = draw_below(rng, 0, 16);
        let c = upper_hex_digit(d);
        let ghost before = s@;
        push_char(&mut s, c);
        proof {
            reveal_strlit("0123456789ABCDEF");
            assert(upper_hex_digits().contains(c));
            assert forall|k: int| 0 <= k < s@.len() implies upper_hex_digits().contains(
                #[trigger] s@[k],
            ) by {
                if k < before.len() {
                    assert(s@[k] == before[k]);
                }
            }
        }
        i = i + 1;
    }
    s
}

pub open spec fn matrix_data_view(data_type: int, size: nat, hash: Seq<char>) -> Seq<
    (Seq<char>, Style),
> {
    seq![
        (matrix_data_types_table()[data_type], bold_style(Color::Green)),
        (": "@, plain_style()),
        (decimal(size), fg_style(Color::BrightGreen)),
        (" bytes ["@, plain_style()),
        (hash, dim_style(Color::Green)),
        ("]"@, plain_style()),
    ]
}

/// A data line: kind of data, size, short hash.
pub fn matrix_data_line(data_type: u64, size: u64, hash: String) -> (line: Vec<Span>)
    requires
        data_type < MATRIX_DATA_TYPES_LEN,
    ensures
        line_view(line@) == matrix_data_view(data_type as int, size as nat, hash@),
{
    let ghost h = hash@;
    let mut line: Vec<Span> = Vec::new();
    assert(line_view(line@) =~= Seq::empty());
    push_span(&mut line, matrix_data_types(data_type), bold(Color::Green));
    push_span(&mut line, ": ", plain());
    push_decimal_span(&mut line, size, fg(Color::BrightGreen));
    push_span(&mut line, " bytes [", plain());
    push_string_span(&mut line, hash, dim(Color::Green));
    push_span(&mut line, "]", plain());
    assert(line_view(line@) =~= matrix_data_view(data_type as int, size as nat, h));
    line
}

/// The lines that `generate_matrix_data` may give.
pub open spec fn matrix_data_lines(lines: Seq<Vec<Span>>) -> bool {
    &&& lines.len() == 1
    &&& exists|data_type: int, size: nat, hash: Seq<char>|
            0 <= data_type < MATRIX_DATA_TYPES_LEN && 1024 <= size < 1048576 && drawn_from(
                hash,
                8,
                upper_hex_digits(),
            ) && line_view(lines[0]@) == #[trigger] matrix_data_view(data_type, size, hash)
}

/// Draws a kind of data, a size in `[1024, 1048576)` and an 8-digit hash.
pub fn generate_matrix_data(rng: &mut StdRng) -> (lines: Vec<Vec<Span>>)
    ensures
        matrix_data_lines(lines@),
{
    let data_type = draw_below(rng, 0, MATRIX_DATA_TYPES_LEN);
    let size = draw_below(rng, 1024, 1048576);
    let hash = generate_matrix_hash(rng, 8);
    let ghost h = hash@;
    let lines = vec![matrix_data_line(data_type, size, hash)];
    assert(line_view(lines@[0]@) == matrix_data_view(data_type as int, size as nat, h));
    lines
}

/// A bar of `width` cells, the first `progress * width / 100` filled.
pub open spec fn bar_text(progress: nat, width: nat) -> Seq<char> {
    Seq::new(width, |i: int| if i < progress * width / 100 { '█' } else { '░' })
}

/// The activity bar of a neural line, in green.
pub fn generate_matrix_bar(progress: u32, width: usize) -> (r: Span)
    requires
        progress as int * width as int <= usize::MAX,
    ensures
        r.text@ == bar_text(progress as nat, width as nat),
        r.style == fg_style(Color::Green),
{
    let filled = (progress as usize * width) / 100;
    let mut bar = String::new();
    let mut i: usize = 0;
    while i < width
        invariant
            i <= width,
            filled == progress * width / 100,
            bar@ =~= bar_text(progress as nat, width as nat).take(i as int),
        decreases width - i,
    {
        if i < filled {
            push_char(&mut bar, '█');
        } else {
            push_char(&mut bar, '░');
        }
        i = i + 1;
    }
    assert(bar@ =~= bar_text(progress as nat, width as nat));
    Span::from_string(bar, fg(Color::Green))
}

pub open spec fn matrix_neural_view(node: int, id: nat, activity: nat) -> Seq<(Seq<char>, Style)> {
    seq![
        (matrix_nodes_table()[node], bold_style(Color::BrightGreen)),
        ("_"@, plain_style()),
        (decimal(id), fg_style(Color::Green)),
        (":: "@, plain_style()),
        (bar_text(activity, 20), fg_style(Color::Green)),
        (" ["@, plain_style()),
        (decimal(activity), fg_style(Color::Green)),
        ("%]"@, plain_style()),
    ]
}

/// A neural line: node and id, an activity bar and the activity.
pub fn matrix_neural_line(node: u64, id: u64, activity: u32) -> (line: Vec<Span>)
    requires
        node < MATRIX_NODES_LEN,
        activity <= 100,
    ensures
        line_view(line@) == matrix_neural_view(node as int, id as nat, activity as nat),
{
    let mut line: Vec<Span> = Vec::new();
    assert(line_view(line@) =~= Seq::empty());
    push_span(&mut line, matrix_nodes(node), bold(Color::BrightGreen));
    push_span(&mut line, "_", plain());
    push_decimal_span(&mut line, id, fg(Color::Green));
    push_span(&mut line, ":: ", plain());
    let bar = generate_matrix_bar(activity, 20);
    push_string_span(&mut line, bar.text, bar.style);
    push_span(&mut line, " [", plain());
    push_decimal_span(&mut line, activity as u64, fg(Color::Green));
    push_span(&mut line, "%]", plain());
    assert(line_view(line@) =~= matrix_neural_view(node as int, id as nat, activity as nat));
    line
}

/// The lines that `generate_matrix_neural` may give.
pub open spec fn matrix_neural_lines(lines: Seq<Vec<Span>>) -> bool {
    &&& lines.len() == 1
    &&& exists|node: int, id: nat, activity: nat|
            0 <= node < MATRIX_NODES_LEN && 1000 <= id < 9999 && activity < 100 && line_view(
                lines[0]@,
            ) == #[trigger] matrix_neural_view(node, id, activity)
}

/// Draws a node, an id in `[1000, 9999)` and an activity in `[0, 100)`.
pub fn generate_matrix_neural(rng: &mut StdRng) -> (lines: Vec<Vec<Span>>)
    ensures
        matrix_neural_lines(lines@),
{
    let node = draw_below(rng, 0, MATRIX_NODES_LEN);
    let id = draw_below(rng, 1000, 9999);
    let activity = draw_below(rng, 0, 100);
    let lines = vec![matrix_neural_line(node, id, activity as u32)];
    assert(line_view(lines@[0]@) == matrix_neural_view(node as int, id as nat, activity as nat));
    lines
}

/// Bytes as two-digit upper-case hexadecimal, separated by single spaces.
pub open spec fn hex_stream(bytes: Seq<nat>) -> Seq<char>
    decreases bytes.len(),
{
    if bytes.len() == 0 {
        Seq::empty()
    } else if bytes.len() == 1 {
        hex_byte(bytes[0])
    } else {
        hex_stream(bytes.drop_last()) + seq![' '] + hex_byte(bytes.last())
    }
}

pub open spec fn phrase_style() -> Style {
    Style { color: Color::BrightGreen, bold: true, dimmed: false, blink: true }
}

/// The lines that `generate_matrix_random` may give.
pub open spec fn matrix_random_lines(lines: Seq<Vec<Span>>) -> bool {
    &&& lines.len() == 1
    &&& (exists|phrase: int|
            0 <= phrase < MATRIX_PHRASES_LEN && line_view(lines[0]@) == seq![
                (#[trigger] matrix_phrases_table()[phrase], phrase_style()),
            ]) || (exists|bytes: Seq<nat>|
            30 <= bytes.len() < 100 && (forall|i: int| 0 <= i < bytes.len() ==> bytes[i] < 256)
                && line_view(lines[0]@) == seq![
                (#[trigger] hex_stream(bytes), dim_style(Color::Green)),
            ])
}

/// One time in ten a blinking phrase; otherwise a stream of 30 to 99
/// random bytes in hexadecimal, dimmed.
pub fn generate_matrix_random(rng: &mut StdRng) -> (lines: Vec<Vec<Span>>)
    ensures
        matrix_random_lines(lines@),
{
    let mut line: Vec<Span> = Vec::new();
    assert(line_view(line@) =~= Seq::empty());
    if draw_ratio(rng, 1, 10) {
        let phrase = draw_below(rng, 0, MATRIX_PHRASES_LEN);
        push_span(
            &mut line,
            matrix_phrases(phrase),
            Style { color: Color::BrightGreen, bold: true, dimmed: false, blink: true },
        );
        assert(line_view(line@) =~= seq![
            (matrix_phrases_table()[phrase as int], phrase_style()),
        ]);
    } else {
        let count = draw_below(rng, 30, 100);
        let mut stream = String::new();
        let ghost mut bytes: Seq<nat> = Seq::empty();
        let mut i: u64 = 0;
        while i < count
            invariant
                i <= count,
                bytes.len() == i,
                forall|k: int| 0 <= k < bytes.len() ==> bytes[k] < 256,
                stream@ == hex_stream(bytes),
            decreases count - i,
        {
            let b = draw_below(rng, 0, 256);
            let ghost old_bytes = bytes;
            let ghost old_stream = stream@;
            if i > 0 {
                push_char(&mut stream, ' ');
            }
            push_char(&mut stream, upper_hex_digit(b / 16));
            push_char(&mut stream, upper_hex_digit(b % 16));
            proof {
                bytes = bytes.push(b as nat);
                assert(bytes.drop_last() =~= old_bytes);
                if i == 0 {
                    assert(stream@ =~= hex_byte(b as nat));
                } else {
                    assert(stream@ =~= old_stream + seq![' '] + hex_byte(b as nat));
                }
            }
            i = i + 1;
        }
        let ghost s = stream@;
        push_string_span(&mut line, stream, dim(Color::Green));
        assert(line_view(line@) =~= seq![(hex_stream(bytes), dim_style(Color::Green))]);
    }
    vec![line]
}

} // verus!
