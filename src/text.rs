//! Styled text: a line of output is a sequence of spans, each a piece of
//! text with a colour and attributes. Also the number renderings that the
//! generated lines use.
use vstd::prelude::*;

verus! {

#[derive(Clone, Copy, Debug, PartialEq, Eq, Structural)]
pub enum Color {
    Default,
    Green,
    Yellow,
    Blue,
    Purple,
    Cyan,
    Magenta,
    Red,
    BrightBlack,
    BrightGreen,
    BrightCyan,
    BrightMagenta,
    BrightBlue,
    BrightYellow,
    BrightRed,
    BrightWhite,
}

#[derive(Clone, Copy, Debug, PartialEq, Eq, Structural)]
pub struct Style {
    pub color: Color,
    pub bold: bool,
    pub dimmed: bool,
    pub blink: bool,
}

pub open spec fn plain_style() -> Style {
    Style { color: Color::Default, bold: false, dimmed: false, blink: false }
}

pub open spec fn fg_style(c: Color) -> Style {
    Style { color: c, bold: false, dimmed: false, blink: false }
}

pub open spec fn bold_style(c: Color) -> Style {
    Style { color: c, bold: true, dimmed: false, blink: false }
}

pub open spec fn dim_style(c: Color) -> Style {
    Style { color: c, bold: false, dimmed: true, blink: false }
}

/// No colour, no attribute.
#[verifier::when_used_as_spec(plain_style)]
pub fn plain() -> (r: Style)
    ensures
        r == plain_style(),
{
    Style { color: Color::Default, bold: false, dimmed: false, blink: false }
}

/// A foreground colour alone.
#[verifier::when_used_as_spec(fg_style)]
pub fn fg(c: Color) -> (r: Style)
    ensures
        r == fg_style(c),
{
    Style { color: c, bold: false, dimmed: false, blink: false }
}

/// A foreground colour, bold.
#[verifier::when_used_as_spec(bold_style)]
pub fn bold(c: Color) -> (r: Style)
    ensures
        r == bold_style(c),
{
    Style { color: c, bold: true, dimmed: false, blink: false }
}

/// A foreground colour, dimmed.
#[verifier::when_used_as_spec(dim_style)]
pub fn dim(c: Color) -> (r: Style)
    ensures
        r == dim_style(c),
{
    Style { color: c, bold: false, dimmed: true, blink: false }
}

/// A piece of text in one style.
#[derive(Debug, PartialEq, Eq)]
pub struct Span {
    pub text: String,
    pub style: Style,
}

pub open spec fn span_view(s: Span) -> (Seq<char>, Style) {
    (s.text@, s.style)
}

/// What a line shows: the text and style of each span in order.
pub open spec fn line_view(l: Seq<Span>) -> Seq<(Seq<char>, Style)> {
    l.map_values(|s: Span| span_view(s))
}

impl Span {
    pub fn new(text: &str, style: Style) -> (r: Span)
        ensures
            r.text@ == text@,
            r.style == style,
    {
        Span { text: text.to_owned(), style }
    }

    pub fn from_string(text: String, style: Style) -> (r: Span)
        ensures
            r.text@ == text@,
            r.style == style,
    {
        Span { text, style }
    }
}

/// Relies on `String::push`: appends one character at the end.
#[verifier::external_body]
pub(crate) fn push_char(s: &mut String, c: char)
    ensures
        final(s)@ == old(s)@.push(c),
{
    s.push(c);
}

pub open spec fn lower_hex_digits() -> Seq<char> {
    "0123456789abcdef"@
}

pub open spec fn upper_hex_digits() -> Seq<char> {
    "0123456789ABCDEF"@
}

/// The digit of value `d` (below 16), lower case.
pub fn lower_hex_digit(d: u64) -> (c: char)
    requires
        d < 16,
    ensures
        c == lower_hex_digits()[d as int],
{
    let digits = "0123456789abcdef";
    proof {
        reveal_strlit("0123456789abcdef");
    }
    digits.get_char(d as usize)
}

/// The digit of value `d` (below 16), upper case.
pub fn upper_hex_digit(d: u64) -> (c: char)
    requires
        d < 16,
    ensures
        c == upper_hex_digits()[d as int],
{
    let digits = "0123456789ABCDEF";
    proof {
        reveal_strlit("0123456789ABCDEF");
    }
    digits.get_char(d as usize)
}

/// The decimal numeral of `n`, without leading zeros.
pub open spec fn decimal(n: nat) -> Seq<char>
    decreases n,
{
    if n < 10 {
        seq![lower_hex_digits()[n as int]]
    } else {
        decimal(n / 10).push(lower_hex_digits()[(n % 10) as int])
    }
}

/// Appends the decimal numeral of `n` to `s`.
pub fn push_decimal(s: &mut String, n: u64)
    ensures
        final(s)@ == old(s)@ + decimal(n as nat),
    decreases n,
{
    if n < 10 {
        let c = lower_hex_digit(n);
        push_char(s, c);
        assert(old(s)@.push(c) =~= old(s)@ + decimal(n as nat));
    } else {
        push_decimal(s, n / 10);
        let c = lower_hex_digit(n % 10);
        push_char(s, c);
        assert(old(s)@ + decimal((n / 10) as nat) + seq![c] =~= old(s)@ + decimal(n as nat));
    }
}

/// The decimal numeral of `n`.
pub fn decimal_string(n: u64) -> (r: String)
    ensures
        r@ == decimal(n as nat),
{
    let mut s = String::new();
    push_decimal(&mut s, n);
    assert(s@ =~= decimal(n as nat));
    s
}

/// Two upper-case hexadecimal digits of a byte.
pub open spec fn hex_byte(b: nat) -> Seq<char> {
    seq![upper_hex_digits()[(b / 16) as int], upper_hex_digits()[(b % 16) as int]]
}

} // verus!
