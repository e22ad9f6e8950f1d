use loginit::enable;
use loginit::logger::{
    self, Color, ConfigError, Level, LevelFilter, LogState, Record, Sink,
};
use loginit::textfmt;

fn rec(level: Level, target: &str, line: u32, message: &str) -> Record {
    Record { level, target: target.to_string(), line, message: message.to_string() }
}

const ALL_LEVELS: [Level; 5] =
    [Level::Trace, Level::Debug, Level::Info, Level::Warn, Level::Error];

#[test]
fn test_logger() {
    let mut state = LogState::new();
    enable(&mut state, 3, Sink::ColorTerminal);
    let line = logger::emit(&state, &rec(Level::Info, "loginit::logger", 24, "abc"));
    assert!(line.is_some());
}

#[test]
fn level_three_admits_info_and_above() {
    let mut state = LogState::new();
    enable(&mut state, 3, Sink::ConsoleBridge);
    assert!(logger::emit(&state, &rec(Level::Trace, "a::b", 1, "m")).is_none());
    assert!(logger::emit(&state, &rec(Level::Debug, "a::b", 1, "m")).is_none());
    assert!(logger::emit(&state, &rec(Level::Info, "a::b", 1, "m")).is_some());
    assert!(logger::emit(&state, &rec(Level::Warn, "a::b", 1, "m")).is_some());
    assert!(logger::emit(&state, &rec(Level::Error, "a::b", 1, "m")).is_some());
}

#[test]
fn each_recognized_level_admits_at_or_above() {
    for l in 1..=5i32 {
        let mut state = LogState::new();
        enable(&mut state, l, Sink::ColorTerminal);
        for (i, lv) in ALL_LEVELS.iter().enumerate() {
            let severity = i as i32 + 1;
            let out = logger::emit(&state, &rec(*lv, "x::y", 7, "m"));
            assert_eq!(out.is_some(), severity >= l);
        }
    }
}

#[test]
fn unrecognized_level_disables_logging() {
    for l in [0i32, -1, -100, 6, 42, i32::MAX, i32::MIN] {
        let mut state = LogState::new();
        enable(&mut state, l, Sink::ColorTerminal);
        for lv in ALL_LEVELS.iter() {
            assert!(logger::emit(&state, &rec(*lv, "x::y", 7, "m")).is_none());
        }
    }
}

#[test]
fn second_enable_is_ignored() {
    let mut once = LogState::new();
    enable(&mut once, 3, Sink::ColorTerminal);
    let mut twice = LogState::new();
    enable(&mut twice, 3, Sink::ColorTerminal);
    enable(&mut twice, 5, Sink::ConsoleBridge);
    assert_eq!(once, twice);
    assert!(logger::emit(&twice, &rec(Level::Info, "a::b", 1, "m")).is_some());
    assert!(logger::emit(&twice, &rec(Level::Debug, "a::b", 1, "m")).is_none());
}

#[test]
fn setup_refuses_second_install() {
    let mut state = LogState::new();
    assert_eq!(logger::setup(&mut state, 3, Sink::ColorTerminal), Ok(()));
    assert_eq!(
        logger::setup(&mut state, 5, Sink::ColorTerminal),
        Err(ConfigError::AlreadyInstalled)
    );
}

#[test]
fn filter_table_matches_spec() {
    assert_eq!(logger::filter_of(1), LevelFilter::Trace);
    assert_eq!(logger::filter_of(2), LevelFilter::Debug);
    assert_eq!(logger::filter_of(3), LevelFilter::Info);
    assert_eq!(logger::filter_of(4), LevelFilter::Warn);
    assert_eq!(logger::filter_of(5), LevelFilter::Error);
    assert_eq!(logger::filter_of(0), LevelFilter::Off);
    assert_eq!(logger::filter_of(-3), LevelFilter::Off);
    assert_eq!(logger::filter_of(6), LevelFilter::Off);
}

#[test]
fn off_filter_passes_nothing() {
    for lv in ALL_LEVELS.iter() {
        assert!(!logger::passes(LevelFilter::Off, *lv));
    }
}

#[test]
fn trace_filter_passes_everything() {
    for lv in ALL_LEVELS.iter() {
        assert!(logger::passes(LevelFilter::Trace, *lv));
    }
}

#[test]
fn no_sink_emits_nothing() {
    let mut state = LogState::new();
    enable(&mut state, 1, Sink::NoSink);
    for lv in ALL_LEVELS.iter() {
        assert!(logger::emit(&state, &rec(*lv, "a::b", 1, "m")).is_none());
    }
}

#[test]
fn uninitialized_state_emits_nothing() {
    let state = LogState::new();
    assert!(logger::emit(&state, &rec(Level::Error, "a::b", 1, "m")).is_none());
}

#[test]
fn shortened_target_takes_last_segment() {
    assert_eq!(textfmt::target_with_line("a::b::c", 42), "c:42");
}

#[test]
fn shortened_target_edge_cases() {
    assert_eq!(textfmt::target_with_line("abc", 7), "abc:7");
    assert_eq!(textfmt::target_with_line("a::", 1), ":1");
    assert_eq!(textfmt::target_with_line("a:::b", 9), ":b:9");
    assert_eq!(textfmt::target_with_line("", 3), ":3");
    assert_eq!(textfmt::target_with_line("::x", 0), "x:0");
    assert_eq!(textfmt::target_with_line("a:b", 5), "a:b:5");
}

#[test]
fn decimal_rendering_exact() {
    assert_eq!(textfmt::u32_to_string(0), "0");
    assert_eq!(textfmt::u32_to_string(9), "9");
    assert_eq!(textfmt::u32_to_string(10), "10");
    assert_eq!(textfmt::u32_to_string(42), "42");
    assert_eq!(textfmt::u32_to_string(4294967295), "4294967295");
}

#[test]
fn padding_exact() {
    assert_eq!(textfmt::pad_left("INFO", 5), " INFO");
    assert_eq!(textfmt::pad_left("ERROR", 5), "ERROR");
    assert_eq!(textfmt::pad_left("TOOWIDE", 5), "TOOWIDE");
    assert_eq!(textfmt::pad_right("c:42", 14), "c:42          ");
    assert_eq!(textfmt::pad_right("abcdefghijklmnop", 14), "abcdefghijklmnop");
    assert_eq!(textfmt::pad_left("", 3), "   ");
    assert_eq!(textfmt::pad_right("", 0), "");
}

#[test]
fn level_names_match_facade() {
    assert_eq!(textfmt::level_name(Level::Trace), "TRACE");
    assert_eq!(textfmt::level_name(Level::Debug), "DEBUG");
    assert_eq!(textfmt::level_name(Level::Info), "INFO");
    assert_eq!(textfmt::level_name(Level::Warn), "WARN");
    assert_eq!(textfmt::level_name(Level::Error), "ERROR");
}

#[test]
fn color_codes_exact() {
    assert_eq!(Color::White.v(), 0);
    assert_eq!(Color::Red.v(), 31);
    assert_eq!(Color::Green.v(), 32);
    assert_eq!(Color::Yellow.v(), 33);
    assert_eq!(Color::Cyan.v(), 36);
}

#[test]
fn severity_colors_match_table() {
    assert_eq!(logger::color_of(Level::Trace), Color::White);
    assert_eq!(logger::color_of(Level::Debug), Color::White);
    assert_eq!(logger::color_of(Level::Info), Color::Green);
    assert_eq!(logger::color_of(Level::Warn), Color::Yellow);
    assert_eq!(logger::color_of(Level::Error), Color::Red);
}

#[test]
fn plain_line_exact() {
    let line = textfmt::format_plain_line(
        "2020-01-02 03:04:05.678",
        &rec(Level::Info, "a::b::c", 42, "abc"),
    );
    assert_eq!(line, "2020-01-02 03:04:05.678  INFO c:42           --- abc");
}

#[test]
fn plain_line_alignment_ignores_message_length() {
    let short = textfmt::format_plain_line("T", &rec(Level::Warn, "x::y", 1, ""));
    let long = textfmt::format_plain_line(
        "T",
        &rec(Level::Warn, "x::y", 1, "a much longer message than before"),
    );
    assert_eq!(short, "T  WARN y:1            --- ");
    assert!(long.starts_with("T  WARN y:1            --- "));
}

#[test]
fn wide_fields_are_kept_whole() {
    let line = textfmt::format_plain_line(
        "T",
        &rec(Level::Error, "path::averylongsegment", 123456, "m"),
    );
    assert_eq!(line, "T ERROR averylongsegment:123456 --- m");
}

#[test]
fn colored_line_exact() {
    let line = textfmt::format_colored_line("T", &rec(Level::Info, "a::b", 3, "hi"));
    assert_eq!(
        line,
        "T \u{1b}[32m INFO\u{1b}[0m \u{1b}[36mb:3           \u{1b}[0m --- hi"
    );
}

#[test]
fn colored_line_uses_severity_color() {
    let warn = textfmt::format_colored_line("T", &rec(Level::Warn, "a::b", 3, "hi"));
    assert!(warn.contains("\u{1b}[33m WARN\u{1b}[0m"));
    let err = textfmt::format_colored_line("T", &rec(Level::Error, "a::b", 3, "hi"));
    assert!(err.contains("\u{1b}[31mERROR\u{1b}[0m"));
    let trace = textfmt::format_colored_line("T", &rec(Level::Trace, "a::b", 3, "hi"));
    assert!(trace.contains("\u{1b}[0mTRACE\u{1b}[0m"));
}

#[test]
fn info_line_reaches_sink_after_enable_three() {
    let mut state = LogState::new();
    enable(&mut state, 3, Sink::ColorTerminal);
    let out = logger::emit(&state, &rec(Level::Info, "app::core", 10, "abc")).unwrap();
    assert!(out.contains("INFO"));
    assert!(out.contains("abc"));
    assert!(logger::emit(&state, &rec(Level::Debug, "app::core", 11, "later")).is_none());
}

#[test]
fn bridge_line_carries_target_and_message() {
    let mut state = LogState::new();
    enable(&mut state, 1, Sink::ConsoleBridge);
    let out = logger::emit(&state, &rec(Level::Trace, "a::b::c", 5, "deep")).unwrap();
    assert!(out.ends_with(" --- deep"));
    assert!(out.contains("TRACE"));
    assert!(out.contains("c:5"));
}
