//! Whether output is painted with ANSI colors.

use vstd::prelude::*;
use vstd::string::*;

verus! {

#[verifier::external_type_specification]
#[verifier::external_body]
pub struct ExStyle(nu_ansi_term::Style);

#[verifier::external_type_specification]
#[verifier::external_body]
pub struct ExColor(nu_ansi_term::Color);

/// What decides whether ANSI colors should be used.
///
/// Color is used if the output stream is a terminal and the `NO_COLOR`
/// environment variable is unset or empty.
#[derive(Debug, Copy, Clone)]
pub struct ColorCtx {
    no_color: bool,
    stdout_isatty: bool,
    stderr_isatty: bool,
}

/// Result of [`ColorCtx::paint`]: the text with the escape sequences of its
/// style around it if color should be used, or the plain text otherwise.
#[derive(PartialEq, Debug, Clone)]
pub enum Painting {
    Plain(String),
    Styled(String),
}

/// The escape sequence that resets all styles.
pub open spec fn reset_sequence() -> Seq<char> {
    seq!['\x1b', '[', '0', 'm']
}

/// An escape sequence that selects a style: it opens with the escape
/// character and a bracket and closes with the letter `m`.
pub open spec fn selects_style(sequence: Seq<char>) -> bool {
    &&& sequence.len() >= 3
    &&& sequence[0] == '\x1b'
    &&& sequence[1] == '['
    &&& sequence.last() == 'm'
}

/// A text behind a prefix and before the sequence that resets all styles.
pub open spec fn wrapped(prefix: Seq<char>, text: Seq<char>) -> Seq<char> {
    prefix + text + reset_sequence()
}

/// `painted` shows `text` in a style: the text stands, whole and unchanged,
/// between an escape sequence that selects the style and the one that
/// resets all styles.
pub open spec fn styled(painted: Seq<char>, text: Seq<char>) -> bool {
    exists|prefix: Seq<char>| selects_style(prefix) && painted == #[trigger] wrapped(prefix, text)
}

/// `painted` is what painting makes of `text`: the text in a style, or the
/// text as it is where the style asks for nothing.
pub open spec fn paints(painted: Seq<char>, text: Seq<char>) -> bool {
    painted == text || styled(painted, text)
}

/// Something that can paint a text: a style or a color.
pub trait Paint {
    /// Whether this painter puts every text in a style. A painter that does
    /// not may leave a text as it is.
    spec fn always_styles(&self) -> bool;

    /// What this painter makes of a text.
    spec fn painted(&self, input: Seq<char>) -> Seq<char>;

    /// The text with the escape sequences of this style around it.
    fn paint(self, input: &str) -> (r: String)
        ensures
            r@ == self.painted(input@),
            paints(r@, input@),
            self.always_styles() ==> styled(r@, input@),
    ;
}

/// A text as `Style::paint` of `nu_ansi_term` paints it, written out.
pub uninterp spec fn style_painted(style: nu_ansi_term::Style, input: Seq<char>) -> Seq<char>;

/// A text as `Color::paint` of `nu_ansi_term` paints it, written out.
pub uninterp spec fn color_painted(color: nu_ansi_term::Color, input: Seq<char>) -> Seq<char>;

/// `Style::paint` of `nu_ansi_term`, written out as a string. A style with
/// no property set leaves the text as it is; any other style writes the
/// escape sequence that selects it, the text, and the sequence that resets
/// all styles.
#[verifier::external_body]
fn style_paint(style: nu_ansi_term::Style, input: &str) -> (r: String)
    ensures
        r@ == style_painted(style, input@),
        paints(r@, input@),
{
    nu_ansi_term::Style::paint(style, input).to_string()
}

/// `Color::paint` of `nu_ansi_term`, written out as a string: the escape
/// sequence that selects the color as foreground, the text, and the sequence
/// that resets all styles.
#[verifier::external_body]
fn color_paint(color: nu_ansi_term::Color, input: &str) -> (r: String)
    ensures
        r@ == color_painted(color, input@),
        styled(r@, input@),
{
    nu_ansi_term::Color::paint(color, input).to_string()
}

impl Paint for nu_ansi_term::Style {
    /// A style may have no property set, and then asks for nothing.
    open spec fn always_styles(&self) -> bool {
        false
    }

    open spec fn painted(&self, input: Seq<char>) -> Seq<char> {
        style_painted(*self, input)
    }

    fn paint(self, input: &str) -> (r: String) {
        style_paint(self, input)
    }
}

impl Paint for nu_ansi_term::Color {
    /// A color always selects a foreground.
    open spec fn always_styles(&self) -> bool {
        true
    }

    open spec fn painted(&self, input: Seq<char>) -> Seq<char> {
        color_painted(*self, input)
    }

    fn paint(self, input: &str) -> (r: String) {
        color_paint(self, input)
    }
}

impl Painting {
    /// The text to print.
    pub open spec fn text(&self) -> Seq<char> {
        match self {
            Painting::Plain(s) => s@,
            Painting::Styled(s) => s@,
        }
    }

    pub fn to_string(&self) -> (r: String)
        ensures
            r@ == self.text(),
    {
        match self {
            Painting::Plain(s) => s.clone(),
            Painting::Styled(s) => s.clone(),
        }
    }
}

impl ColorCtx {
    /// Whether the environment asks for output without color.
    pub closed spec fn no_color(&self) -> bool {
        self.no_color
    }

    /// Whether standard output is a terminal.
    pub closed spec fn stdout_isatty(&self) -> bool {
        self.stdout_isatty
    }

    /// Whether standard error is a terminal.
    pub closed spec fn stderr_isatty(&self) -> bool {
        self.stderr_isatty
    }

    /// Whether text for standard output is painted.
    pub open spec fn colors_stdout(&self) -> bool {
        !self.no_color() && self.stdout_isatty()
    }

    /// Whether text for standard error is painted.
    pub open spec fn colors_stderr(&self) -> bool {
        !self.no_color() && self.stderr_isatty()
    }

    /// Makes a `ColorCtx` of what was read from the environment: the length
    /// of the value of `NO_COLOR`, where the variable is set, and whether the
    /// two output streams are terminals. A `NO_COLOR` that is set to the empty
    /// string asks for nothing.
    pub fn from_readings(no_color: Option<usize>, stdout_isatty: bool, stderr_isatty: bool) -> (r:
        ColorCtx)
        ensures
            r.no_color() == (no_color matches Some(n) && n > 0),
            r.stdout_isatty() == stdout_isatty,
            r.stderr_isatty() == stderr_isatty,
    {
        let no_color: bool = match no_color {
            Some(n) => n > 0,
            None => false,
        };
        ColorCtx { no_color, stdout_isatty, stderr_isatty }
    }

    /// Paints a string destined for stdout.
    ///
    /// Analogous to `p.paint(input)`, but produces a plain string if color
    /// should not be used for stdout.
    pub fn paint<P: Paint>(&self, p: P, input: &str) -> (r: Painting)
        ensures
            self.colors_stdout() ==> r is Styled && r.text() == p.painted(input@) && paints(
                r.text(),
                input@,
            ),
            self.colors_stdout() && p.always_styles() ==> styled(r.text(), input@),
            !self.colors_stdout() ==> r is Plain && r.text() == input@,
    {
        if self.no_color || !self.stdout_isatty {
            Painting::Plain(String::from_str(input))
        } else {
            Painting::Styled(p.paint(input))
        }
    }

    /// Paints a string destined for stderr.
    ///
    /// Analogous to `p.paint(input)`, but produces a plain string if color
    /// should not be used for stderr.
    pub fn paint_err<P: Paint>(&self, p: P, input: &str) -> (r: Painting)
        ensures
            self.colors_stderr() ==> r is Styled && r.text() == p.painted(input@) && paints(
                r.text(),
                input@,
            ),
            self.colors_stderr() && p.always_styles() ==> styled(r.text(), input@),
            !self.colors_stderr() ==> r is Plain && r.text() == input@,
    {
        if self.no_color || !self.stderr_isatty {
            Painting::Plain(String::from_str(input))
        } else {
            Painting::Styled(p.paint(input))
        }
    }
}

} // verus!
