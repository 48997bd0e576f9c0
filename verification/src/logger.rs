//! The logger: its configuration and the rendering of its lines.

use vstd::prelude::*;
use crate::clock::get_timestamp;
use crate::clock::is_clock_text;
use crate::style::style_code;
use crate::style::style_codes_spec;
use crate::style::style_spec;
use crate::template::call_table;
use crate::template::render_spec;
use crate::template::render_tokens;
use crate::text::has_prefix;
use crate::text::split;
use crate::text::split_spec;
use crate::text::views;
use crate::types::Color;
use crate::types::LogLevel;
use crate::variables::Variables;

verus! {

/// The configuration of a logger.
pub struct Logger {
    module_name: String,
    log_level: LogLevel,
    format: String,
    use_colors: bool,
}

/// What a logger is made of.
pub struct LoggerView {
    pub module_name: Seq<char>,
    pub log_level: LogLevel,
    pub format: Seq<char>,
    pub use_colors: bool,
}

impl View for Logger {
    type V = LoggerView;

    closed spec fn view(&self) -> LoggerView {
        LoggerView {
            module_name: self.module_name@,
            log_level: self.log_level,
            format: self.format@,
            use_colors: self.use_colors,
        }
    }
}

/// The module name of a logger that was given none.
pub open spec fn default_module_name() -> Seq<char> {
    "UNDEFINED"@
}

/// The template of a logger that was given none.
pub open spec fn default_format() -> Seq<char> {
    "%style:accent;bold%>> [ %L% ]%style:reset% > %T%%style:dark% (%Mod%) -%style:reset% %Msg%"@
}

/// The line that a logger renders for one emission at a given time.
pub open spec fn line_spec(
    logger: LoggerView,
    color: Color,
    level: LogLevel,
    time: Seq<char>,
    message: Seq<char>,
) -> Seq<char> {
    render_spec(
        logger.format,
        color,
        call_table(level.field_spec(), logger.module_name, time, message),
        logger.use_colors,
    )
}

/// What `describe` says of a logger.
pub open spec fn describe_spec(logger: LoggerView) -> Seq<char> {
    "Logger for "@ + logger.module_name + "\n> Level: "@ + logger.log_level.label_spec()
        + "\n> Format: \""@ + logger.format + "\"\n> UseColors: "@ + (if logger.use_colors {
        "true"@
    } else {
        "false"@
    })
}

impl Logger {
    /// A logger with the default module name, level `DEBUG`, the default
    /// template, and colors on.
    pub fn new() -> (r: Logger)
        ensures
            r@ == (LoggerView {
                module_name: default_module_name(),
                log_level: LogLevel::DEBUG,
                format: default_format(),
                use_colors: true,
            }),
    {
        Logger {
            module_name: String::from_str("UNDEFINED"),
            log_level: LogLevel::DEBUG,
            format: String::from_str(
                "%style:accent;bold%>> [ %L% ]%style:reset% > %T%%style:dark% (%Mod%) -%style:reset% %Msg%",
            ),
            use_colors: true,
        }
    }

    /// The same logger under another module name.
    pub fn with_module_name(self, name: &str) -> (r: Logger)
        ensures
            r@ == (LoggerView { module_name: name@, ..self@ }),
    {
        let mut logger = self;
        logger.module_name = String::from_str(name);
        logger
    }

    /// The same logger with another severity floor.
    pub fn with_level(self, level: LogLevel) -> (r: Logger)
        ensures
            r@ == (LoggerView { log_level: level, ..self@ }),
    {
        let mut logger = self;
        logger.log_level = level;
        logger
    }

    /// The same logger with another template.
    pub fn with_format(self, format: &str) -> (r: Logger)
        ensures
            r@ == (LoggerView { format: format@, ..self@ }),
    {
        let mut logger = self;
        logger.format = String::from_str(format);
        logger
    }

    /// The same logger with colors on or off.
    pub fn with_colors(self, with_colors: bool) -> (r: Logger)
        ensures
            r@ == (LoggerView { use_colors: with_colors, ..self@ }),
    {
        let mut logger = self;
        logger.use_colors = with_colors;
        logger
    }

    /// The module name.
    pub fn module_name(&self) -> (r: &str)
        ensures
            r@ == self@.module_name,
    {
        self.module_name.as_str()
    }

    /// The severity floor. It is kept, and no emission consults it.
    pub fn level(&self) -> (r: LogLevel)
        ensures
            r == self@.log_level,
    {
        self.log_level
    }

    /// The template.
    pub fn format(&self) -> (r: &str)
        ensures
            r@ == self@.format,
    {
        self.format.as_str()
    }

    /// Whether style directives are rendered.
    pub fn use_colors(&self) -> (r: bool)
        ensures
            r == self@.use_colors,
    {
        self.use_colors
    }

    /// A description of the configuration, over four lines.
    pub fn describe(&self) -> (r: String)
        ensures
            r@ == describe_spec(self@),
    {
        let mut out = String::from_str("Logger for ");
        out.append(self.module_name.as_str());
        out.append("\n> Level: ");
        out.append(self.log_level.label());
        out.append("\n> Format: \"");
        out.append(self.format.as_str());
        out.append("\"\n> UseColors: ");
        if self.use_colors {
            out.append("true");
        } else {
            out.append("false");
        }
        out
    }

    /// The escape sequence for a list of style keys.
    pub fn parse_style(accent_color: Color, style_keys: Vec<&str>) -> (r: String)
        ensures
            r@ == style_spec(accent_color, views(style_keys@)),
    {
        let mut style = String::from_str("\x1b[");
        let ghost keys = views(style_keys@);
        let mut i: usize = 0;
        while i < style_keys.len()
            invariant
                i <= style_keys.len(),
                keys == views(style_keys@),
                style@ == "\x1b["@ + style_codes_spec(accent_color, keys.take(i as int)),
            decreases style_keys.len() - i,
        {
            if i > 0 {
                style.append(";");
            }
            let code = style_code(accent_color, style_keys[i]);
            style.append(code.as_str());
            proof {
                assert(keys.take(i + 1).drop_last() =~= keys.take(i as int));
                assert(keys.take(i + 1).last() == style_keys@[i as int]@);
                if i == 0 {
                    assert(style@ =~= "\x1b["@ + style_codes_spec(accent_color, keys.take(1)));
                } else {
                    assert(style@ =~= "\x1b["@ + style_codes_spec(accent_color, keys.take(i + 1)));
                }
            }
            i += 1;
        }
        proof {
            assert(keys.take(i as int) =~= keys);
        }
        style.append("m");
        style
    }

    /// The line that `fmt` renders to, with the given accent color and
    /// variables.
    pub fn parse_format(fmt: &str, accent_color: Color, vars: &Variables, use_colors: bool) -> (r:
        String)
        ensures
            r@ == render_spec(fmt@, accent_color, vars@, use_colors),
    {
        let tokens = split(fmt, '%');
        let ghost all = split_spec(fmt@, '%');
        let mut parsed = String::new();
        let mut i: usize = 0;
        while i < tokens.len()
            invariant
                i <= tokens.len(),
                all == views(tokens@),
                parsed@ == render_tokens(all.take(i as int), accent_color, vars@, use_colors),
            decreases tokens.len() - i,
        {
            let token = tokens[i];
            proof {
                reveal_strlit("style:");
                assert(all.take(i + 1).drop_last() =~= all.take(i as int));
                assert(all.take(i + 1).last() == token@);
            }
            if has_prefix(token, "style:") {
                let keys = split(token.substring_char(6, token.unicode_len()), ';');
                let code = Logger::parse_style(accent_color, keys);
                if use_colors {
                    parsed.append(code.as_str());
                }
            } else {
                match vars.resolve(token) {
                    Some(value) => parsed.append(value),
                    None => parsed.append(token),
                }
            }
            proof {
                assert(parsed@ =~= render_tokens(
                    all.take(i + 1),
                    accent_color,
                    vars@,
                    use_colors,
                ));
            }
            i += 1;
        }
        proof {
            assert(all.take(i as int) =~= all);
        }
        parsed.append("\n");
        parsed
    }

    /// The line of one emission at the given time: the template rendered
    /// with the severity field, the module name, the time and the message.
    pub fn render(&self, color: Color, level: LogLevel, time: &str, message: &str) -> (r: String)
        ensures
            r@ == line_spec(self@, color, level, time@, message@),
    {
        let field = level.field();
        let mut vars = Variables::new();
        vars.insert("L", field.as_str());
        vars.insert("Mod", self.module_name.as_str());
        vars.insert("T", time);
        vars.insert("Msg", message);
        Logger::parse_format(self.format.as_str(), color, &vars, self.use_colors)
    }

    /// The line of one emission now. The severity floor is not consulted.
    pub fn log(&self, color: Color, level: LogLevel, message: &str) -> (r: String)
        ensures
            exists|time: Seq<char>| #[trigger]
                is_clock_text(time) && r@ == line_spec(self@, color, level, time, message@),
    {
        let time = get_timestamp();
        self.render(color, level, time.as_str(), message)
    }

    /// The line of a `DEBUG` emission, in purple.
    pub fn debug(&self, message: &str) -> (r: String)
        ensures
            exists|time: Seq<char>| #[trigger]
                is_clock_text(time) && r@ == line_spec(
                    self@,
                    Color::Purple,
                    LogLevel::DEBUG,
                    time,
                    message@,
                ),
    {
        self.log(Color::Purple, LogLevel::DEBUG, message)
    }

    /// The line of an `INFO` emission, in green.
    pub fn info(&self, message: &str) -> (r: String)
        ensures
            exists|time: Seq<char>| #[trigger]
                is_clock_text(time) && r@ == line_spec(
                    self@,
                    Color::Green,
                    LogLevel::INFO,
                    time,
                    message@,
                ),
    {
        self.log(Color::Green, LogLevel::INFO, message)
    }

    /// The line of a `WARN` emission, in yellow.
    pub fn warn(&self, message: &str) -> (r: String)
        ensures
            exists|time: Seq<char>| #[trigger]
                is_clock_text(time) && r@ == line_spec(
                    self@,
                    Color::Yellow,
                    LogLevel::WARN,
                    time,
                    message@,
                ),
    {
        self.log(Color::Yellow, LogLevel::WARN, message)
    }

    /// The line of an `ERROR` emission, in red.
    pub fn error(&self, message: &str) -> (r: String)
        ensures
            exists|time: Seq<char>| #[trigger]
                is_clock_text(time) && r@ == line_spec(
                    self@,
                    Color::Red,
                    LogLevel::ERROR,
                    time,
                    message@,
                ),
    {
        self.log(Color::Red, LogLevel::ERROR, message)
    }

    /// The line of a `FATAL` emission, in black on red.
    pub fn fatal(&self, message: &str) -> (r: String)
        ensures
            exists|time: Seq<char>| #[trigger]
                is_clock_text(time) && r@ == line_spec(
                    self@,
                    Color::Fatal,
                    LogLevel::FATAL,
                    time,
                    message@,
                ),
    {
        self.log(Color::Fatal, LogLevel::FATAL, message)
    }
}

} // verus!
