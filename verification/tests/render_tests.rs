use paris_logger::clock::Timestamp;
use paris_logger::render::{render_block, render_line};
use paris_logger::severity::LogLevel;
use paris_logger::Logger;

fn ts() -> Timestamp {
    Timestamp { year: 2024, month: 1, day: 5, hour: 3, minute: 4, second: 5 }
}

fn indent() -> String {
    // 21 timestamp characters, a space, the 6-wide label, a space
    " ".repeat(29)
}

#[test]
fn single_line_plain() {
    colored::control::set_override(false);
    let line = render_line(LogLevel::Info, "hello", "net", &ts(), false, "\u{25aa}");
    assert_eq!(line, "[2024-1-5 3:4:5] info:  \u{25aa} [net] hello");
}

#[test]
fn single_line_coloured() {
    colored::control::set_override(true);
    let line = render_line(LogLevel::Info, "hello", "net", &ts(), false, "\u{25aa}");
    assert_eq!(
        line,
        "\u{1b}[2m[2024-1-5 3:4:5]\u{1b}[0m \u{1b}[92minfo: \u{1b}[0m \u{25aa} [\u{1b}[92mnet\u{1b}[0m] \u{1b}[92mhello\u{1b}[0m"
    );
}

#[test]
fn every_severity_label_and_colour() {
    colored::control::set_override(true);
    let logger = Logger::new();
    let cases: Vec<(LogLevel, &str, &str)> = vec![
        (LogLevel::Silly, "silly:", "95"),
        (LogLevel::Debug, "debug:", "94"),
        (LogLevel::Info, "info: ", "92"),
        (LogLevel::Warn, "warn: ", "93"),
        (LogLevel::Error, "error:", "91"),
        (LogLevel::Fatal, "fatal:", "31"),
    ];
    for (level, label, code) in cases {
        let tag = logger.get_tag(level);
        assert_eq!(tag, format!("\u{1b}[{}m{}\u{1b}[0m", code, label));
        let line = render_line(level, "msg", "t", &ts(), false, "\u{25aa}");
        assert!(line.contains(label));
        assert!(line.contains(&format!("\u{1b}[{}m", code)));
    }
}

#[test]
fn glyphs_and_empty_strings_pass_verbatim() {
    colored::control::set_override(false);
    let line = render_line(
        LogLevel::Warn,
        "pre \u{25aa}\u{2514} post",
        "\u{250c}tag\u{251c}",
        &ts(),
        false,
        "\u{25aa}",
    );
    assert_eq!(
        line,
        "[2024-1-5 3:4:5] warn:  \u{25aa} [\u{250c}tag\u{251c}] pre \u{25aa}\u{2514} post"
    );
    let empty = render_line(LogLevel::Error, "", "", &ts(), false, "\u{25aa}");
    assert_eq!(empty, "[2024-1-5 3:4:5] error: \u{25aa} [] ");
}

#[test]
fn block_without_extras_is_one_header_line() {
    colored::control::set_override(false);
    let lines = render_block(LogLevel::Info, "hello", "net", false, "", None, &ts());
    assert_eq!(lines.len(), 1);
    assert_eq!(lines[0], "[2024-01-05 03:04:05] info:  \u{250c} [net] hello");
    let single = render_line(LogLevel::Info, "hello", "net", &ts(), true, "\u{250c}");
    assert_eq!(lines[0], single);
}

#[test]
fn block_flag_without_description_adds_no_line() {
    colored::control::set_override(false);
    let lines = render_block(LogLevel::Info, "hello", "net", true, "", None, &ts());
    assert_eq!(lines.len(), 1);
}

#[test]
fn block_with_call_site_only() {
    colored::control::set_override(false);
    let lines = render_block(LogLevel::Debug, "m", "t", true, "app.rs:10 in start", None, &ts());
    assert_eq!(lines.len(), 2);
    assert_eq!(lines[1], format!("{}\u{2514} app.rs:10 in start", indent()));
}

#[test]
fn call_site_is_dim_italic_when_coloured() {
    colored::control::set_override(true);
    let lines = render_block(LogLevel::Debug, "m", "t", true, "app.rs:10", None, &ts());
    assert_eq!(lines.len(), 2);
    assert_eq!(
        lines[1],
        format!("{}\u{2514} \u{1b}[2;3mapp.rs:10\u{1b}[0m", indent())
    );
}

#[test]
fn block_with_value_lines_indexed() {
    colored::control::set_override(false);
    let lines = render_block(LogLevel::Info, "m", "t", false, "", Some("a\nb"), &ts());
    assert_eq!(lines.len(), 3);
    assert_eq!(lines[1], format!("{}\u{251c} [1] a", indent()));
    assert_eq!(lines[2], format!("{}\u{2514} [2] b", indent()));
}

#[test]
fn block_with_call_site_and_value() {
    colored::control::set_override(false);
    let lines = render_block(LogLevel::Info, "m", "t", true, "here", Some("x"), &ts());
    assert_eq!(lines.len(), 3);
    assert_eq!(lines[1], format!("{}\u{251c} here", indent()));
    assert_eq!(lines[2], format!("{}\u{2514} [1] x", indent()));
}

#[test]
fn value_lines_past_fourth_are_dimmed() {
    colored::control::set_override(true);
    let text = "l1\nl2\nl3\nl4\nl5\nl6";
    let lines = render_block(LogLevel::Info, "m", "t", false, "", Some(text), &ts());
    assert_eq!(lines.len(), 7);
    assert_eq!(lines[1], format!("{}\u{251c} [1] l1", indent()));
    assert_eq!(lines[2], format!("{}\u{251c} [2] l2", indent()));
    assert_eq!(lines[3], format!("{}\u{251c} [3] l3", indent()));
    assert_eq!(lines[4], format!("{}\u{251c} [4] l4", indent()));
    assert_eq!(lines[5], format!("{}\u{251c} \u{1b}[2m[5] l5\u{1b}[0m", indent()));
    assert_eq!(lines[6], format!("{}\u{2514} \u{1b}[2m[6] l6\u{1b}[0m", indent()));
}

#[test]
fn value_line_count_matches_text_lines() {
    colored::control::set_override(false);
    let lines = render_block(LogLevel::Silly, "m", "t", false, "", Some("a\nb\nc\n"), &ts());
    // "a\nb\nc\n" has three newlines, so four lines, the last empty.
    assert_eq!(lines.len(), 5);
    assert_eq!(lines[4], format!("{}\u{2514} [4] ", indent()));
}

#[test]
fn logging_entry_points_succeed() {
    colored::control::set_override(false);
    let logger = Logger::new();
    assert!(logger.silly("s", "t").is_ok());
    assert!(logger.debug("d", "t").is_ok());
    assert!(logger.info("i", "t").is_ok());
    assert!(logger.warn("w", "t").is_ok());
    assert!(logger.error("e", "t").is_ok());
    assert!(logger.fatal("f", "t").is_ok());
    assert!(logger.info_detailed("m", "t", true, "site", Some("v1\nv2")).is_ok());
    assert!(logger.warn_detailed("m", "t", false, "", None).is_ok());
}

#[test]
fn logger_timestamp_is_bracketed() {
    colored::control::set_override(false);
    let logger = Logger::new();
    let t = logger.timestamp();
    assert!(t.starts_with('['));
    assert!(t.ends_with(']'));
}
