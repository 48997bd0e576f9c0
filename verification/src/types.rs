//! The closed sets of colors and severities.

use vstd::prelude::*;

verus! {

/// A display color. The first eight are the ANSI foreground colors; `Fatal`
/// is black on a red background.
#[derive(Copy, Clone, Debug, PartialEq, Eq, Structural)]
pub enum Color {
    Black,
    Red,
    Green,
    Yellow,
    Blue,
    Purple,
    Cyan,
    White,
    Fatal,
}

impl Color {
    /// What follows the `3` of a foreground code for this color.
    pub open spec fn code_spec(self) -> Seq<char> {
        match self {
            Color::Black => "0"@,
            Color::Red => "1"@,
            Color::Green => "2"@,
            Color::Yellow => "3"@,
            Color::Blue => "4"@,
            Color::Purple => "5"@,
            Color::Cyan => "6"@,
            Color::White => "7"@,
            Color::Fatal => "0;41"@,
        }
    }

    /// The text that stands for this color in an escape sequence.
    pub fn code(self) -> (r: &'static str)
        ensures
            r@ == self.code_spec(),
    {
        match self {
            Color::Black => "0",
            Color::Red => "1",
            Color::Green => "2",
            Color::Yellow => "3",
            Color::Blue => "4",
            Color::Purple => "5",
            Color::Cyan => "6",
            Color::White => "7",
            Color::Fatal => "0;41",
        }
    }
}

/// A severity, from the least to the most severe.
#[derive(Copy, Clone, Debug, PartialEq, Eq, Structural)]
pub enum LogLevel {
    DEBUG,
    INFO,
    WARN,
    ERROR,
    FATAL,
}

impl Default for LogLevel {
    fn default() -> (r: LogLevel)
        ensures
            r == LogLevel::DEBUG,
    {
        LogLevel::DEBUG
    }
}

/// The width of the severity field of a line.
pub const LABEL_WIDTH: usize = 5;

impl LogLevel {
    /// The name of the severity.
    pub open spec fn label_spec(self) -> Seq<char> {
        match self {
            LogLevel::DEBUG => "DEBUG"@,
            LogLevel::INFO => "INFO"@,
            LogLevel::WARN => "WARN"@,
            LogLevel::ERROR => "ERROR"@,
            LogLevel::FATAL => "FATAL"@,
        }
    }

    /// The severity field of a line: the name, fitted to the field's width.
    pub open spec fn field_spec(self) -> Seq<char> {
        crate::text::fit_spec(self.label_spec(), LABEL_WIDTH as nat)
    }

    /// The color in which the severity is shown.
    pub open spec fn color_spec(self) -> Color {
        match self {
            LogLevel::DEBUG => Color::Purple,
            LogLevel::INFO => Color::Green,
            LogLevel::WARN => Color::Yellow,
            LogLevel::ERROR => Color::Red,
            LogLevel::FATAL => Color::Fatal,
        }
    }

    /// The name of the severity.
    pub fn label(self) -> (r: &'static str)
        ensures
            r@ == self.label_spec(),
    {
        match self {
            LogLevel::DEBUG => "DEBUG",
            LogLevel::INFO => "INFO",
            LogLevel::WARN => "WARN",
            LogLevel::ERROR => "ERROR",
            LogLevel::FATAL => "FATAL",
        }
    }

    /// The color in which the severity is shown.
    pub fn color(self) -> (r: Color)
        ensures
            r == self.color_spec(),
    {
        match self {
            LogLevel::DEBUG => Color::Purple,
            LogLevel::INFO => Color::Green,
            LogLevel::WARN => Color::Yellow,
            LogLevel::ERROR => Color::Red,
            LogLevel::FATAL => Color::Fatal,
        }
    }

    /// The severity field of a line: the name followed by as many spaces as
    /// the field's width asks for.
    pub fn field(self) -> (r: String)
        ensures
            r@ == self.field_spec(),
            r@.len() == LABEL_WIDTH,
    {
        crate::text::fit_width(self.label(), LABEL_WIDTH)
    }

    /// The severity field is the name followed by spaces only, and is
    /// exactly as wide as the field.
    pub proof fn lemma_field_is_padded_label(self)
        ensures
            self.field_spec().len() == LABEL_WIDTH,
            self.label_spec().len() <= LABEL_WIDTH,
            self.label_spec().is_prefix_of(self.field_spec()),
            forall|i: int|
                self.label_spec().len() <= i < LABEL_WIDTH ==> #[trigger] self.field_spec()[i]
                    == ' ',
    {
        reveal_strlit("DEBUG");
        reveal_strlit("INFO");
        reveal_strlit("WARN");
        reveal_strlit("ERROR");
        reveal_strlit("FATAL");
        let label = self.label_spec();
        let field = self.field_spec();
        assert(field.subrange(0, label.len() as int) =~= label);
    }
}

} // verus!
