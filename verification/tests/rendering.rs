use logsty_rs::text::fit_width;
use logsty_rs::text::has_prefix;
use logsty_rs::text::same_text;
use logsty_rs::text::split;
use logsty_rs::Color;
use logsty_rs::LogLevel;
use logsty_rs::Logger;
use logsty_rs::Variables;

const DEFAULT_FORMAT: &str =
    "%style:accent;bold%>> [ %L% ]%style:reset% > %T%%style:dark% (%Mod%) -%style:reset% %Msg%";

fn call_vars<'a>(level: &'a str, module: &'a str, time: &'a str, msg: &'a str) -> Variables<'a> {
    let mut vars = Variables::new();
    vars.insert("L", level);
    vars.insert("Mod", module);
    vars.insert("T", time);
    vars.insert("Msg", msg);
    vars
}


#[test]
fn label_field_is_five_wide_for_every_severity() {
    let levels = [
        (LogLevel::DEBUG, "DEBUG"),
        (LogLevel::INFO, "INFO "),
        (LogLevel::WARN, "WARN "),
        (LogLevel::ERROR, "ERROR"),
        (LogLevel::FATAL, "FATAL"),
    ];
    for (level, expected) in levels {
        let field = level.field();
        assert_eq!(field.chars().count(), 5);
        assert_eq!(field, expected);
    }
}

#[test]
fn labels_are_the_severity_names() {
    assert_eq!(LogLevel::DEBUG.label(), "DEBUG");
    assert_eq!(LogLevel::INFO.label(), "INFO");
    assert_eq!(LogLevel::WARN.label(), "WARN");
    assert_eq!(LogLevel::ERROR.label(), "ERROR");
    assert_eq!(LogLevel::FATAL.label(), "FATAL");
}

#[test]
fn severities_have_fixed_colors() {
    assert_eq!(LogLevel::DEBUG.color(), Color::Purple);
    assert_eq!(LogLevel::INFO.color(), Color::Green);
    assert_eq!(LogLevel::WARN.color(), Color::Yellow);
    assert_eq!(LogLevel::ERROR.color(), Color::Red);
    assert_eq!(LogLevel::FATAL.color(), Color::Fatal);
}

#[test]
fn default_level_is_debug() {
    assert_eq!(LogLevel::default(), LogLevel::DEBUG);
}

#[test]
fn color_codes() {
    assert_eq!(Color::Black.code(), "0");
    assert_eq!(Color::Red.code(), "1");
    assert_eq!(Color::Green.code(), "2");
    assert_eq!(Color::Yellow.code(), "3");
    assert_eq!(Color::Blue.code(), "4");
    assert_eq!(Color::Purple.code(), "5");
    assert_eq!(Color::Cyan.code(), "6");
    assert_eq!(Color::White.code(), "7");
    assert_eq!(Color::Fatal.code(), "0;41");
}

#[test]
fn fit_width_pads_short_text() {
    assert_eq!(fit_width("ab", 5), "ab   ");
    assert_eq!(fit_width("", 3), "   ");
}

#[test]
fn fit_width_cuts_long_text() {
    assert_eq!(fit_width("CRITICAL", 5), "CRITI");
    assert_eq!(fit_width("abc", 0), "");
}

#[test]
fn fit_width_keeps_exact_text() {
    assert_eq!(fit_width("ERROR", 5), "ERROR");
}

#[test]
fn fit_width_counts_characters_not_bytes() {
    assert_eq!(fit_width("é", 3), "é  ");
    assert_eq!(fit_width("éèêë", 2), "éè");
}

#[test]
fn split_on_delimiter() {
    assert_eq!(split("a%b%c", '%'), vec!["a", "b", "c"]);
    assert_eq!(split("", '%'), vec![""]);
    assert_eq!(split("%", '%'), vec!["", ""]);
    assert_eq!(split("%%", '%'), vec!["", "", ""]);
    assert_eq!(split("abc", '%'), vec!["abc"]);
    assert_eq!(split("%L% x", '%'), vec!["", "L", " x"]);
    assert_eq!(split("accent;bold", ';'), vec!["accent", "bold"]);
}

#[test]
fn split_agrees_with_std() {
    let samples = ["", "%", "a%", "%a", "a%%b", DEFAULT_FORMAT, "é%ü%", "%%%"];
    for sample in samples {
        let expected: Vec<&str> = sample.split('%').collect();
        assert_eq!(split(sample, '%'), expected);
    }
}

#[test]
fn prefix_and_equality() {
    assert!(has_prefix("style:bold", "style:"));
    assert!(has_prefix("style:", "style:"));
    assert!(!has_prefix("style", "style:"));
    assert!(!has_prefix("Style:bold", "style:"));
    assert!(has_prefix("anything", ""));
    assert!(same_text("Mod", "Mod"));
    assert!(!same_text("Mo", "Mod"));
    assert!(!same_text("Mod", "Mo"));
    assert!(!same_text("mod", "Mod"));
    assert!(same_text("", ""));
}

#[test]
fn parse_style_accent_bold_green() {
    assert_eq!(Logger::parse_style(Color::Green, vec!["accent", "bold"]), "\x1b[32;1m");
}

#[test]
fn parse_style_no_keys() {
    assert_eq!(Logger::parse_style(Color::Green, vec![]), "\x1b[m");
}

#[test]
fn parse_style_every_key() {
    assert_eq!(Logger::parse_style(Color::Red, vec!["accent"]), "\x1b[31m");
    assert_eq!(Logger::parse_style(Color::Red, vec!["reset"]), "\x1b[0m");
    assert_eq!(Logger::parse_style(Color::Red, vec!["dark"]), "\x1b[90m");
    assert_eq!(Logger::parse_style(Color::Red, vec!["bold"]), "\x1b[1m");
    assert_eq!(Logger::parse_style(Color::Red, vec!["italic"]), "\x1b[3m");
    assert_eq!(Logger::parse_style(Color::Red, vec!["under"]), "\x1b[4m");
}

#[test]
fn parse_style_unknown_key_is_neutral() {
    assert_eq!(Logger::parse_style(Color::Blue, vec!["blink"]), "\x1b[0m");
    assert_eq!(Logger::parse_style(Color::Blue, vec![""]), "\x1b[0m");
    assert_eq!(Logger::parse_style(Color::Blue, vec!["Bold", "bold"]), "\x1b[0;1m");
}

#[test]
fn parse_style_keeps_order_and_repeats() {
    assert_eq!(
        Logger::parse_style(Color::Cyan, vec!["bold", "accent", "bold", "under"]),
        "\x1b[1;36;1;4m"
    );
}

#[test]
fn parse_style_fatal_accent() {
    assert_eq!(Logger::parse_style(Color::Fatal, vec!["accent", "bold"]), "\x1b[30;41;1m");
}

#[test]
fn parse_style_accent_of_every_color() {
    let colors = [
        (Color::Black, "\x1b[30m"),
        (Color::Red, "\x1b[31m"),
        (Color::Green, "\x1b[32m"),
        (Color::Yellow, "\x1b[33m"),
        (Color::Blue, "\x1b[34m"),
        (Color::Purple, "\x1b[35m"),
        (Color::Cyan, "\x1b[36m"),
        (Color::White, "\x1b[37m"),
        (Color::Fatal, "\x1b[30;41m"),
    ];
    for (color, expected) in colors {
        assert_eq!(Logger::parse_style(color, vec!["accent"]), expected);
    }
}

#[test]
fn resolve_is_exact_match_only() {
    let mut vars = Variables::new();
    vars.insert("Mod", "core");
    assert_eq!(vars.resolve("Mo"), None);
    assert_eq!(vars.resolve("Module"), None);
    assert_eq!(vars.resolve("mod"), None);
    assert_eq!(vars.resolve(""), None);
    assert_eq!(vars.resolve("Mod"), Some("core"));
}

#[test]
fn resolve_on_empty_table() {
    let vars = Variables::new();
    assert_eq!(vars.resolve("L"), None);
}

#[test]
fn later_binding_replaces_earlier() {
    let mut vars = Variables::new();
    vars.insert("T", "first");
    vars.insert("Msg", "m");
    vars.insert("T", "second");
    assert_eq!(vars.resolve("T"), Some("second"));
    assert_eq!(vars.resolve("Msg"), Some("m"));
}

#[test]
fn unmatched_token_is_literal_text() {
    let vars = call_vars("INFO ", "core", "12:00:00", "hi");
    assert_eq!(Logger::parse_format("%Mo%", Color::Green, &vars, true), "Mo\n");
    assert_eq!(Logger::parse_format("a %Mo% b", Color::Green, &vars, false), "a Mo b\n");
}

#[test]
fn literal_template_is_verbatim() {
    let vars = call_vars("INFO ", "core", "12:00:00", "hi");
    assert_eq!(Logger::parse_format("plain text", Color::Green, &vars, true), "plain text\n");
    assert_eq!(Logger::parse_format("plain text", Color::Green, &vars, false), "plain text\n");
    assert_eq!(Logger::parse_format("", Color::Green, &vars, true), "\n");
}

#[test]
fn literal_segment_that_is_a_variable_name_is_replaced() {
    let vars = call_vars("INFO ", "core", "12:00:00", "hi");
    assert_eq!(Logger::parse_format("Msg", Color::Green, &vars, true), "hi\n");
    assert_eq!(Logger::parse_format("L%x%T", Color::Green, &vars, true), "INFO x12:00:00\n");
}

#[test]
fn variables_are_replaced() {
    let vars = call_vars("WARN ", "net", "01:02:03", "down");
    assert_eq!(
        Logger::parse_format("[%L%] %T% (%Mod%) %Msg%", Color::Yellow, &vars, true),
        "[WARN ] 01:02:03 (net) down\n"
    );
}

#[test]
fn odd_delimiter_count_is_not_rejected() {
    let vars = call_vars("WARN ", "net", "01:02:03", "down");
    assert_eq!(Logger::parse_format("%L% 100%", Color::Yellow, &vars, true), "WARN  100\n");
    assert_eq!(Logger::parse_format("%Msg", Color::Yellow, &vars, true), "down\n");
    assert_eq!(Logger::parse_format("%", Color::Yellow, &vars, true), "\n");
}

#[test]
fn message_with_delimiter_is_not_tokenized_again() {
    let vars = call_vars("WARN ", "net", "01:02:03", "50% of %L%");
    assert_eq!(Logger::parse_format("%Msg%", Color::Yellow, &vars, true), "50% of %L%\n");
}

#[test]
fn style_directive_in_template() {
    let vars = call_vars("INFO ", "core", "12:00:00", "hi");
    assert_eq!(
        Logger::parse_format("%style:accent;bold%x%style:reset%", Color::Green, &vars, true),
        "\x1b[32;1mx\x1b[0m\n"
    );
    assert_eq!(Logger::parse_format("%style:%", Color::Green, &vars, true), "\x1b[0m\n");
    assert_eq!(Logger::parse_format("style:bold", Color::Green, &vars, true), "\x1b[1m\n");
}

#[test]
fn default_template_with_colors() {
    let vars = call_vars("INFO ", "core", "12:00:00", "hi");
    assert_eq!(
        Logger::parse_format(DEFAULT_FORMAT, Color::Green, &vars, true),
        "\x1b[32;1m>> [ INFO  ]\x1b[0m > 12:00:00\x1b[90m (core) -\x1b[0m hi\n"
    );
}

#[test]
fn disabling_colors_removes_escapes_only() {
    let vars = call_vars("INFO ", "core", "12:00:00", "hi");
    let plain = Logger::parse_format(DEFAULT_FORMAT, Color::Green, &vars, false);
    assert_eq!(plain, ">> [ INFO  ] > 12:00:00 (core) - hi\n");
    assert!(!plain.contains('\x1b'));
    let colored = Logger::parse_format(DEFAULT_FORMAT, Color::Green, &vars, true);
    let stripped = colored
        .replace("\x1b[32;1m", "")
        .replace("\x1b[0m", "")
        .replace("\x1b[90m", "");
    assert_eq!(stripped, plain);
}

#[test]
fn plain_render_equals_colored_render_without_style_tokens() {
    let vars = call_vars("INFO ", "core", "12:00:00", "hi");
    let plain =
        Logger::parse_format("a%style:bold%b%L%c%style:reset%d", Color::Red, &vars, false);
    let colored_without = Logger::parse_format("a%b%L%c%d", Color::Red, &vars, true);
    assert_eq!(plain, "abINFO cd\n");
    assert_eq!(plain, colored_without);
}
