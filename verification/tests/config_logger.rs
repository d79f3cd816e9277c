use evn_engine::config::{normalize_value, Config, ConfigError, ConfigValue};
use evn_engine::logger::{
    format_clock_date_time, format_clock_time, format_hhmmssnnn, level_name, output, sgr_paint,
    strip_newlines, ClockParts, Level, Logger,
};
use evn_engine::rendering::{route_debug_message, DebugSeverity};

fn sample_document() -> ConfigValue {
    ConfigValue::Mapping(vec![
        (
            ConfigValue::Text(String::from("fullscreen")),
            ConfigValue::Bool(true),
        ),
        (
            ConfigValue::Text(String::from("resolution")),
            ConfigValue::Sequence(vec![ConfigValue::Int(1280), ConfigValue::Int(720)]),
        ),
    ])
}

fn sample_template() -> ConfigValue {
    ConfigValue::Mapping(vec![
        (
            ConfigValue::Text(String::from("fullscreen")),
            ConfigValue::Bool(false),
        ),
        (
            ConfigValue::Text(String::from("resolution")),
            ConfigValue::Sequence(vec![ConfigValue::Int(0), ConfigValue::UInt(4)]),
        ),
    ])
}

#[test]
fn normalization_canonicalizes_scalars() {
    let normalized = normalize_value(&ConfigValue::Sequence(vec![
        ConfigValue::Bool(true),
        ConfigValue::Int(-3),
        ConfigValue::UInt(9),
        ConfigValue::Float(0x4000_0000_0000_0000),
        ConfigValue::Text(String::from("hello")),
        ConfigValue::Null,
    ]));
    let expected = ConfigValue::Sequence(vec![
        ConfigValue::Bool(false),
        ConfigValue::Int(0),
        ConfigValue::Int(0),
        ConfigValue::Int(0),
        ConfigValue::Text(String::new()),
        ConfigValue::Null,
    ]);
    assert!(normalized.doc_eq(&expected));
}

#[test]
fn normalization_keeps_mapping_keys() {
    let normalized = normalize_value(&sample_document());
    match normalized {
        ConfigValue::Mapping(entries) => {
            assert_eq!(entries.len(), 2);
            assert!(entries[0].0.doc_eq(&ConfigValue::Text(String::from("fullscreen"))));
            assert!(entries[0].1.doc_eq(&ConfigValue::Bool(false)));
        }
        _ => panic!("a mapping stays a mapping"),
    }
}

#[test]
fn config_accepts_matching_structure() {
    let config = Config::new(
        sample_document(),
        sample_template(),
        String::from("config.yml"),
        String::from("fullscreen: false\nresolution: [0, 0]\n"),
    )
    .expect("matching structure is accepted");
    assert!(config.get().doc_eq(&sample_document()));
}

#[test]
fn config_rejects_differing_structure() {
    let intruder = ConfigValue::Mapping(vec![(
        ConfigValue::Text(String::from("fullscreen")),
        ConfigValue::Bool(true),
    )]);
    match Config::new(
        intruder,
        sample_template(),
        String::from("config.yml"),
        String::from("the template text"),
    ) {
        Err(ConfigError::StructureValidation { path_str, template }) => {
            assert_eq!(path_str, "config.yml");
            assert_eq!(template, "the template text");
        }
        _ => panic!("a differing structure is rejected"),
    }
}

#[test]
fn doc_eq_tells_values_apart() {
    assert!(ConfigValue::Null.doc_eq(&ConfigValue::Null));
    assert!(!ConfigValue::Null.doc_eq(&ConfigValue::Bool(false)));
    assert!(!ConfigValue::Int(0).doc_eq(&ConfigValue::UInt(0)));
    let a = ConfigValue::Sequence(vec![ConfigValue::Int(1), ConfigValue::Int(2)]);
    let b = ConfigValue::Sequence(vec![ConfigValue::Int(1), ConfigValue::Int(3)]);
    assert!(!a.doc_eq(&b));
    assert!(a.doc_eq(&ConfigValue::Sequence(vec![
        ConfigValue::Int(1),
        ConfigValue::Int(2)
    ])));
}

#[test]
fn deep_copy_preserves_the_document() {
    let document = sample_document();
    let copy = document.deep_copy();
    assert!(copy.doc_eq(&document));
}

#[test]
fn config_error_messages_are_exact() {
    let read = ConfigError::ReadConfigFile {
        err: String::from("no such file"),
    };
    assert_eq!(read.message(), "Failed to read config file: no such file");
    let parse = ConfigError::ParseConfig {
        err: String::from("bad indent"),
    };
    assert_eq!(parse.message(), "Failed to parse config: bad indent");
    let structure = ConfigError::StructureValidation {
        path_str: String::from("config.yml"),
        template: String::from("fullscreen: false"),
    };
    assert_eq!(
        structure.message(),
        "The structure of \"config.yml\" is not valid, please refer to:\nfullscreen: false"
    );
}

#[test]
fn time_line_pads_components() {
    let p = ClockParts {
        year: 2020,
        month: 1,
        day: 2,
        hour: 13,
        minute: 5,
        second: 9,
        nanosecond: 7_654_321,
    };
    assert_eq!(format_clock_time(p), "13:05:09.007");
    assert_eq!(format_clock_date_time(p), "2020-01-02-13.05.09");
}

#[test]
fn time_line_keeps_leap_second_milliseconds() {
    let p = ClockParts {
        year: 2016,
        month: 12,
        day: 31,
        hour: 23,
        minute: 59,
        second: 59,
        nanosecond: 1_999_000_000,
    };
    assert_eq!(format_clock_time(p), "23:59:59.1999");
}

#[test]
fn clock_reading_formats_now() {
    let line = format_hhmmssnnn();
    assert!(line.len() >= 12);
    assert_eq!(&line[2..3], ":");
    assert_eq!(&line[5..6], ":");
    assert_eq!(&line[8..9], ".");
}

#[test]
fn level_names_and_filtering() {
    assert_eq!(level_name(Level::Error), "ERROR");
    assert_eq!(level_name(Level::Trace), "TRACE");
    let logger = Logger { console_colored: false };
    assert!(logger.enabled(Level::Error));
    assert!(logger.enabled(Level::Warn));
    assert!(logger.enabled(Level::Info));
    assert!(!logger.enabled(Level::Debug));
    assert!(!logger.enabled(Level::Trace));
}

#[test]
fn output_composes_log_lines() {
    let plain = output("12:00:00.000", Level::Info, "hello", false);
    assert_eq!(plain, "[12:00:00.000] INFO: hello");
    let colored = output("12:00:00.000", Level::Warn, "hot", true);
    assert_eq!(
        colored,
        "[\u{1b}[38;5;245m12:00:00.000\u{1b}[0m] \u{1b}[33mWARN\u{1b}[0m: hot"
    );
}

#[test]
fn render_gives_file_and_console_lines() {
    let colored_logger = Logger { console_colored: true };
    let (file_line, console_line) = colored_logger.render("t", Level::Error, "boom");
    assert_eq!(file_line, "[t] ERROR: boom");
    assert_eq!(console_line, "[\u{1b}[38;5;245mt\u{1b}[0m] \u{1b}[31mERROR\u{1b}[0m: boom");
    let plain_logger = Logger { console_colored: false };
    let (f, c) = plain_logger.render("t", Level::Error, "boom");
    assert_eq!(f, c);
}

#[test]
fn paint_wraps_in_color_and_reset() {
    assert_eq!(sgr_paint("31", "ERROR"), "\u{1b}[31mERROR\u{1b}[0m");
}

#[test]
fn newlines_are_stripped_from_messages() {
    assert_eq!(strip_newlines("a\nb\nc"), "abc");
    assert_eq!(strip_newlines("no newlines"), "no newlines");
    assert_eq!(strip_newlines("\n\n"), "");
}

#[test]
fn debug_messages_route_by_severity() {
    let routed = route_debug_message(DebugSeverity::Warning, "bad\nvalue").unwrap();
    assert_eq!(routed.0, Level::Warn);
    assert_eq!(routed.1, "badvalue");
    assert_eq!(route_debug_message(DebugSeverity::Verbose, "v").unwrap().0, Level::Info);
    assert_eq!(route_debug_message(DebugSeverity::Error, "e").unwrap().0, Level::Error);
    assert!(route_debug_message(DebugSeverity::Info, "ignored").is_none());
}
