use sublogger::newline::NEWLINE;
use sublogger::render::MAX_RECURSION_DEPTH;
use sublogger::{
    ClockTime, Color, DefaultLogFilter, ErrorReport, LogFilter, Logger, SettingsStore, FileStore, Message,
    NewlineReplacer, PrefixTempData, Severity, Snapshot, Target, UtcTime,
};

struct NoFilter;

impl LogFilter for NoFilter {
    fn test_message(&self, _target: Target, _message: &Message<'_>) -> bool {
        true
    }

    fn box_clone(&self) -> Box<Self> {
        Box::new(NoFilter)
    }
}

/// The stores of some loggers.
struct Store {
    settings: SettingsStore<NoFilter>,
    files: FileStore<Vec<u8>>,
}

impl Store {
    fn new(debug_assertions: bool) -> Self {
        Store { settings: SettingsStore::new(debug_assertions), files: FileStore::new() }
    }
}

fn now(thread: Option<&str>) -> Snapshot {
    Snapshot {
        thread: thread.map(|name| name.to_owned()),
        date: UtcTime { secs: 1518563312, nanos: 123_456_789 },
        time: ClockTime { secs: 1518563312, nanos: 123_456_789 },
    }
}

fn info(message: &str) -> Message<'_> {
    Message { severity: Severity::Info, message, error: None, module: None, line: None }
}

fn shown(
    logger: &Logger,
    store: &Store,
    message: &Message<'_>,
    pretty: bool,
    now: &Snapshot,
) -> String {
    let mut device: Vec<u8> = Vec::new();
    logger.do_write(&store.settings, &mut device, message, pretty, now);
    String::from_utf8(device).unwrap()
}

fn nested(root: &Logger, count: usize) -> Logger {
    let mut logger = root.sub_logger_colored("0", Color::Red);
    for i in 1..count {
        logger = logger.sub_logger_colored(&i.to_string(), Color::Red);
    }
    logger
}

#[test]
fn file_line_has_all_parts() {
    let mut store = Store::new(true);
    let logger = Logger::new(&mut store.settings, &mut store.files).sub_logger_colored("Net", Color::Fixed(9));
    let message = Message {
        severity: Severity::Info,
        message: "Hello",
        error: None,
        module: Some("app::net"),
        line: Some(42),
    };
    assert_eq!(
        shown(&logger, &store, &message, false, &now(Some("main"))),
        "[2018-02-13T23:08:32.123Z][Net][main][at app::net:42][Info]: Hello\n"
    );
}

#[test]
fn console_line_has_all_parts() {
    let mut store = Store::new(true);
    let logger = Logger::new(&mut store.settings, &mut store.files).sub_logger_colored("Net", Color::Fixed(9));
    let message = Message {
        severity: Severity::Info,
        message: "Hello",
        error: None,
        module: Some("app::net"),
        line: Some(42),
    };
    assert_eq!(
        shown(&logger, &store, &message, true, &now(Some("main"))),
        "\x1b[37m\x1b[0m23:08::32.123 -> \x1b[38;5;9mNet\x1b[0m -> thread `main` at \
         \x1b[47;30mapp::net\x1b[0m\x1b[47;30m:\x1b[0m\x1b[47;30m42\x1b[0m -> \
         \x1b[1;36mInfo\x1b[0m: Hello\n"
    );
}

#[test]
fn missing_thread_name_is_marked() {
    let mut store = Store::new(true);
    let logger = Logger::new(&mut store.settings, &mut store.files);
    assert_eq!(
        shown(&logger, &store, &info("a"), false, &now(None)),
        "[2018-02-13T23:08:32.123Z][*unnamed_thread*][Info]: a\n"
    );
}

#[test]
fn module_without_line_number() {
    let mut store = Store::new(true);
    let logger = Logger::new(&mut store.settings, &mut store.files);
    let message = Message { module: Some("m"), ..info("a") };
    assert_eq!(
        shown(&logger, &store, &message, false, &now(Some("t"))),
        "[2018-02-13T23:08:32.123Z][t][at m][Info]: a\n"
    );
    // A line number alone is not shown
    let message = Message { line: Some(7), ..info("a") };
    assert_eq!(
        shown(&logger, &store, &message, false, &now(Some("t"))),
        "[2018-02-13T23:08:32.123Z][t][Info]: a\n"
    );
}

#[test]
fn thread_and_module_can_be_hidden() {
    let mut store = Store::new(true);
    let logger = Logger::new(&mut store.settings, &mut store.files);
    let message = Message { module: Some("m"), line: Some(1), ..info("a") };
    logger.set_show_thread(&mut store.settings, false);
    assert_eq!(
        shown(&logger, &store, &message, false, &now(Some("t"))),
        "[2018-02-13T23:08:32.123Z][at m:1][Info]: a\n"
    );
    logger.set_show_module(&mut store.settings, false);
    assert_eq!(
        shown(&logger, &store, &message, false, &now(Some("t"))),
        "[2018-02-13T23:08:32.123Z][Info]: a\n"
    );
    logger.set_show_thread(&mut store.settings, true);
    assert_eq!(
        shown(&logger, &store, &message, false, &now(Some("t"))),
        "[2018-02-13T23:08:32.123Z][t][Info]: a\n"
    );
}

#[test]
fn line_breaks_are_marked_or_dropped() {
    let mut store = Store::new(true);
    let logger = Logger::new(&mut store.settings, &mut store.files).sub_logger_colored("a\nb", Color::Red);
    let error = ErrorReport { message: "bad\nly".to_owned(), sources: vec!["x\n\ny".to_owned()] };
    let message = Message {
        severity: Severity::Error,
        message: "\none\ntwo\n",
        error: Some(&error),
        module: Some("m\nn"),
        line: None,
    };
    let start = "[2018-02-13T23:08:32.123Z][ab][th][at mn][Error]: ";
    assert_eq!(
        shown(&logger, &store, &message, false, &now(Some("t\nh"))),
        format!(
            "{start}\n>one\n>two\n>\n{start}Error: bad\n>ly\n{start}Caused by: x\n>\n>y\n"
        )
    );
}

#[test]
fn errors_are_colored_on_the_console() {
    let mut store = Store::new(true);
    let logger = Logger::new(&mut store.settings, &mut store.files);
    logger.set_show_thread(&mut store.settings, false);
    let error = ErrorReport { message: "bad".to_owned(), sources: vec!["worse".to_owned()] };
    let message = Message {
        severity: Severity::Fatal,
        message: "m",
        error: Some(&error),
        module: None,
        line: None,
    };
    let start = "23:08::32.123 -> \x1b[1;43;31mFatal\x1b[0m: ";
    assert_eq!(
        shown(&logger, &store, &message, true, &now(None)),
        format!(
            "\x1b[37m\x1b[0m{start}m\n{start}\x1b[31mError\x1b[0m: bad\n\
             {start}\x1b[33mCaused by\x1b[0m: worse\n"
        )
    );
}

#[test]
fn prefix_chain_is_written_up_to_the_limit() {
    let mut store = Store::new(true);
    let root = Logger::new(&mut store.settings, &mut store.files);
    for count in [MAX_RECURSION_DEPTH - 1, MAX_RECURSION_DEPTH] {
        let mut expected = String::new();
        for i in 0..count {
            expected.push_str(&format!("[{i}]"));
        }
        let mut device: Vec<u8> = Vec::new();
        nested(&root, count).write_prefix(&mut device, false);
        assert_eq!(String::from_utf8(device).unwrap(), expected);
    }
}

#[test]
fn prefix_chain_is_truncated_beyond_the_limit() {
    let mut store = Store::new(true);
    let root = Logger::new(&mut store.settings, &mut store.files);
    let mut expected = String::new();
    for i in 0..=MAX_RECURSION_DEPTH {
        expected.push_str(&format!("[{i}]"));
    }
    expected.push_str("[*prefix chain truncated*]");
    for count in [MAX_RECURSION_DEPTH + 1, MAX_RECURSION_DEPTH + 2, MAX_RECURSION_DEPTH + 50] {
        let mut device: Vec<u8> = Vec::new();
        nested(&root, count).write_prefix(&mut device, false);
        assert_eq!(String::from_utf8(device).unwrap(), expected);
    }
    let mut device: Vec<u8> = Vec::new();
    nested(&root, MAX_RECURSION_DEPTH + 1).write_prefix(&mut device, true);
    assert!(String::from_utf8(device).unwrap().ends_with("\x1b[0m -> *prefix chain truncated*"));
}

#[test]
fn error_chain_is_truncated_beyond_the_limit() {
    let mut store = Store::new(true);
    let logger = Logger::new(&mut store.settings, &mut store.files);
    logger.set_show_thread(&mut store.settings, false);
    let start = "[2018-02-13T23:08:32.123Z][Info]: ";
    for count in [MAX_RECURSION_DEPTH, MAX_RECURSION_DEPTH + 1, MAX_RECURSION_DEPTH + 9] {
        let sources: Vec<String> = (0..count).map(|i| i.to_string()).collect();
        let error = ErrorReport { message: "e".to_owned(), sources };
        let message = Message { error: Some(&error), ..info("m") };
        let mut expected = format!("{start}m\n{start}Error: e\n");
        for i in 0..MAX_RECURSION_DEPTH {
            expected.push_str(&format!("{start}Caused by: {i}\n"));
        }
        if count > MAX_RECURSION_DEPTH {
            expected.push_str("*error chain truncated*\n");
        }
        assert_eq!(shown(&logger, &store, &message, false, &now(None)), expected);
    }
}

#[test]
fn complete_prefix_alone() {
    let mut store = Store::new(true);
    let logger = Logger::new(&mut store.settings, &mut store.files);
    let now = now(Some("t"));
    let temp = PrefixTempData::new(&logger, &store.settings, &now);
    let mut device: Vec<u8> = b"kept ".to_vec();
    logger.write_complete_prefix(&mut device, &info("not part of it"), false, &temp);
    assert_eq!(
        String::from_utf8(device).unwrap(),
        "kept [2018-02-13T23:08:32.123Z][t][Info]: "
    );
}

#[test]
fn replacer_replaces_every_break() {
    let replacer = NewlineReplacer("<>");
    for (input, expected) in [
        ("", ""),
        ("\n", "<>"),
        ("a", "a"),
        ("a\n", "a<>"),
        ("\na", "<>a"),
        ("a\n\nb\nc", "a<><>b<>c"),
    ] {
        let mut device: Vec<u8> = b"x".to_vec();
        assert_eq!(replacer.write(&mut device, input.as_bytes()), input.len());
        assert_eq!(String::from_utf8(device).unwrap(), format!("x{expected}"));
    }
    assert_eq!(NEWLINE, b'\n');
}

#[test]
fn replacing_in_pieces_is_replacing_in_one() {
    let replacer = NewlineReplacer("\n>");
    let mut pieces: Vec<u8> = Vec::new();
    replacer.write(&mut pieces, b"a\nb");
    replacer.write(&mut pieces, b"\nc");
    let mut whole: Vec<u8> = Vec::new();
    replacer.write(&mut whole, b"a\nb\nc");
    assert_eq!(pieces, whole);
    assert_eq!(whole, b"a\n>b\n>c".to_vec());
}

#[test]
fn non_ascii_text_is_kept() {
    let mut store = Store::new(true);
    let logger = Logger::new(&mut store.settings, &mut store.files).sub_logger_colored("ключ", Color::Blue);
    logger.set_show_thread(&mut store.settings, false);
    assert_eq!(
        shown(&logger, &store, &info("größer\n日本 🎉"), false, &now(None)),
        "[2018-02-13T23:08:32.123Z][ключ][Info]: größer\n>日本 🎉\n"
    );
}

#[test]
fn times_are_written() {
    let epoch = UtcTime { secs: 0, nanos: 0 };
    assert_eq!(epoch.clock_text(), "00:00::00.000");
    assert_eq!(epoch.stamp_text(), "01_01_1970_00_00");
    let before = UtcTime { secs: -1, nanos: 999_999_999 };
    assert_eq!(before.clock_text(), "23:59::59.999");
    assert_eq!(before.stamp_text(), "31_12_1969_23_59");
    let late = UtcTime { secs: 1518563312, nanos: 7_000_000 };
    assert_eq!(late.clock_text(), "23:08::32.007");
    assert_eq!(late.stamp_text(), "13_02_2018_23_08");
    let first = UtcTime { secs: sublogger::clock::MIN_SECS, nanos: 0 };
    assert_eq!(first.clock_text(), "00:00::00.000");
    assert_eq!(first.stamp_text(), "01_01_-262143_00_00");
    let last = UtcTime { secs: sublogger::clock::MAX_SECS, nanos: 999_999_999 };
    assert_eq!(last.clock_text(), "23:59::59.999");
    assert_eq!(last.stamp_text(), "31_12_+262142_23_59");
}

#[test]
fn timestamps_reach_the_year_9999() {
    let mut store = Store::new(true);
    let logger = Logger::new(&mut store.settings, &mut store.files);
    logger.set_show_thread(&mut store.settings, false);
    let mut now = now(None);
    now.time = ClockTime { secs: 0, nanos: 0 };
    assert_eq!(
        shown(&logger, &store, &info("a"), false, &now),
        "[1970-01-01T00:00:00.000Z][Info]: a\n"
    );
    now.time = ClockTime { secs: sublogger::clock::YEAR_10000 - 1, nanos: 999_999_999 };
    assert_eq!(
        shown(&logger, &store, &info("a"), false, &now),
        "[9999-12-31T23:59:59.999Z][Info]: a\n"
    );
}

#[test]
fn error_reports_list_all_sources() {
    let error = ErrorReport {
        message: "top".to_owned(),
        sources: vec!["middle".to_owned(), "bottom".to_owned()],
    };
    assert_eq!(error.gen_error_str(), "Error: top\nCaused by: middle\nCaused by: bottom");
    let error = ErrorReport { message: "alone".to_owned(), sources: Vec::new() };
    assert_eq!(error.gen_error_str(), "Error: alone");
}

#[test]
fn default_filter_can_be_copied() {
    let filter = DefaultLogFilter { debug_assertions: true };
    assert_eq!(*filter.box_clone(), filter);
}

#[test]
fn lines_of_the_log_can_be_counted() {
    let mut store = Store::new(true);
    let logger = Logger::new(&mut store.settings, &mut store.files).sub_logger_colored("a\nb", Color::Red);
    for pretty in [false, true] {
        for count in [0, 1, MAX_RECURSION_DEPTH, MAX_RECURSION_DEPTH + 1, MAX_RECURSION_DEPTH + 9] {
            let now = now(Some("main"));
            let mut start: Vec<u8> = Vec::new();
            let temp = PrefixTempData::new(&logger, &store.settings, &now);
            logger.write_complete_prefix(&mut start, &info(""), pretty, &temp);
            let start = String::from_utf8(start).unwrap();
            // A message and errors that try to pass for lines of the log
            let forged = format!("x\n{start}y\n\n{start}z\n");
            let error = ErrorReport { message: forged.clone(), sources: vec![forged.clone(); count] };
            let text = |error| {
                let message = Message { error, ..info(&forged) };
                let text = shown(&logger, &store, &message, pretty, &now);
                text.strip_prefix("\x1b[37m\x1b[0m").unwrap_or(&text).to_owned()
            };
            let lines = |text: &str| text.lines().filter(|line| line.starts_with(&start)).count();
            assert_eq!(lines(&text(None)), 1);
            assert_eq!(lines(&text(Some(&error))), 2 + count.min(MAX_RECURSION_DEPTH));
        }
    }
}

#[test]
fn error_reports_need_one_source_beyond_the_limit() {
    let mut store = Store::new(true);
    let logger = Logger::new(&mut store.settings, &mut store.files);
    let mut report = ErrorReport::new("e".to_owned());
    assert!(report.sources.is_empty());
    for i in 0..=MAX_RECURSION_DEPTH {
        assert!(report.needs_source());
        report.add_source(i.to_string());
    }
    assert!(!report.needs_source());
    assert_eq!(report.message, "e");
    assert_eq!(report.sources[MAX_RECURSION_DEPTH], MAX_RECURSION_DEPTH.to_string());

    let now = now(None);
    let enough = shown(
        &logger,
        &store,
        &Message { error: Some(&report), ..info("m") },
        false,
        &now,
    );
    report.add_source("more".to_owned());
    let more = shown(
        &logger,
        &store,
        &Message { error: Some(&report), ..info("m") },
        false,
        &now,
    );
    assert_eq!(enough, more);
    assert!(enough.ends_with("*error chain truncated*\n"));
}
