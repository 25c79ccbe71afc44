use sublogger::logger::{pick_color, COLORS};
use sublogger::{
    ClockTime, Color, DefaultLogFilter, ErrorReport, FileAction, FileEvent, FilePhase,
    Filter, InstalledFilter, LogAction, LogFilter, LogStage, Logger, SettingsStore, FileStore, Message, Severity,
    SharedLoggerData, Snapshot, Target, UtcTime,
};

/// A filter that asks a function, and counts its copies.
struct ByFunction {
    function: fn(Target, &Message<'_>) -> bool,
    generation: u32,
}

impl LogFilter for ByFunction {
    fn test_message(&self, target: Target, message: &Message<'_>) -> bool {
        (self.function)(target, message)
    }

    fn box_clone(&self) -> Box<Self> {
        Box::new(ByFunction { function: self.function, generation: self.generation + 1 })
    }
}

/// The stores of some loggers.
struct Store {
    settings: SettingsStore<ByFunction>,
    files: FileStore<Vec<u8>>,
}

impl Store {
    fn new(debug_assertions: bool) -> Self {
        Store { settings: SettingsStore::new(debug_assertions), files: FileStore::new() }
    }
}

fn by(function: fn(Target, &Message<'_>) -> bool) -> ByFunction {
    ByFunction { function, generation: 0 }
}

fn now() -> Snapshot {
    Snapshot {
        thread: Some("main".to_owned()),
        date: UtcTime { secs: 1518563312, nanos: 0 },
        time: ClockTime { secs: 1518563312, nanos: 0 },
    }
}

fn with_severity(severity: Severity, message: &str) -> Message<'_> {
    Message { severity, message, error: None, module: None, line: None }
}

/// Logs a message with a device that always works, and returns what went to the
/// console.
fn log(logger: &Logger, store: &mut Store, message: &Message<'_>) -> String {
    let now = now();
    let mut console = String::new();
    let mut stage = Some(LogStage::Console);
    let mut deliver = false;
    while let Some(current) = stage {
        let (next, action) = logger.log(&store.settings, message, current);
        if action == LogAction::Print {
            let (_, text) = logger.write_std(&store.settings, message, false, &now);
            console.push_str(&String::from_utf8(text).unwrap());
        }
        deliver = action == LogAction::Deliver;
        stage = next;
    }
    if !deliver {
        return console;
    }
    let mut phase = FilePhase::Start;
    let mut event = FileEvent::Begin;
    loop {
        let (next, action) =
            logger.log_to_file(&store.settings, &mut store.files, message, phase, event, &now);
        phase = next;
        event = match action {
            FileAction::CreateFolder(_) => FileEvent::FolderReady,
            FileAction::CreateFile(_) => FileEvent::FileCreated(Vec::new()),
            FileAction::Append(text) => {
                logger.log_file(&mut store.files).unwrap().extend(text);
                FileEvent::Appended
            }
            FileAction::Report(_) | FileAction::Done => return console,
        };
    }
}

fn written(logger: &Logger, store: &mut Store) -> Option<String> {
    logger.log_file(&mut store.files).map(|device| String::from_utf8(device.clone()).unwrap())
}

#[test]
fn new_loggers_are_independent() {
    let mut store = Store::new(true);
    let a = Logger::new(&mut store.settings, &mut store.files);
    let b = Logger::new(&mut store.settings, &mut store.files);
    assert_eq!((a.shared, a.settings), (0, 0));
    assert_eq!((b.shared, b.settings), (1, 1));
    a.set_log_output(&mut store.files, Some(Vec::new()));
    a.set_show_thread(&mut store.settings, false);
    assert!(store.files.shared[1].attempt_creation && store.files.shared[1].log_file.is_none());
    assert!(!store.files.shared[0].attempt_creation && store.files.shared[0].log_file.is_some());
    assert!(!store.settings.settings[0].show_thread && store.settings.settings[1].show_thread);
}

#[test]
fn sub_loggers_share_everything_both_ways() {
    let mut store = Store::new(true);
    let parent = Logger::new(&mut store.settings, &mut store.files);
    let child = parent.sub_logger_colored("child", Color::Green);
    let message = Message { module: Some("m"), ..with_severity(Severity::Warning, "w") };

    child.set_show_thread(&mut store.settings, false);
    parent.set_show_module(&mut store.settings, false);
    child.set_log_output(&mut store.files, Some(Vec::new()));
    assert_eq!(log(&parent, &mut store, &message), "[2018-02-13T23:08:32.000Z][Warning]: w\n");
    assert_eq!(
        log(&child, &mut store, &message),
        "[2018-02-13T23:08:32.000Z][child][Warning]: w\n"
    );
    assert_eq!(
        written(&parent, &mut store).unwrap(),
        "[2018-02-13T23:08:32.000Z][Warning]: w\n[2018-02-13T23:08:32.000Z][child][Warning]: w\n"
    );
    assert_eq!(written(&parent, &mut store), written(&child, &mut store));

    child.set_filter(&mut store.settings, by(|_, _| false));
    assert!(!parent.is_enabled(&store.settings, Target::Stdout, &message));
    assert!(!parent.is_enabled(&store.settings, Target::File, &message));
    parent.set_filter(&mut store.settings, by(|target, _| target == Target::File));
    assert!(!child.is_enabled(&store.settings, Target::Stdout, &message));
    assert!(child.is_enabled(&store.settings, Target::File, &message));
}

#[test]
fn clones_share_the_log_file_only() {
    let mut store = Store::new(true);
    let original = Logger::new(&mut store.settings, &mut store.files)
        .sub_logger_colored("p", Color::Red);
    original.set_show_module(&mut store.settings, false);
    original.set_filter(
        &mut store.settings,
        by(|_, message| message.severity == Severity::Fatal),
    );
    let mut own: SettingsStore<ByFunction> = SettingsStore::new(true);
    let copy = original.clone(&store.settings, &mut own);

    // The copy starts out like the original
    assert_eq!(copy.prefix.len(), 1);
    assert_eq!(copy.prefix[0].string, "p");
    assert_eq!(copy.shared, original.shared);
    assert!(!own.settings[copy.settings].show_module);
    match &own.settings[copy.settings].filter {
        InstalledFilter::Custom(filter) => assert_eq!(filter.generation, 1),
        InstalledFilter::Default(_) => panic!("the filter was lost"),
    }
    assert!(copy.is_enabled(&own, Target::File, &with_severity(Severity::Fatal, "")));
    assert!(!copy.is_enabled(&own, Target::File, &with_severity(Severity::Error, "")));

    // Its settings are its own
    copy.set_filter(&mut own, by(|_, _| true));
    copy.set_show_module(&mut own, true);
    let error = with_severity(Severity::Error, "");
    assert!(copy.is_enabled(&own, Target::File, &error));
    assert!(!original.is_enabled(&store.settings, Target::File, &error));
    assert!(!store.settings.settings[original.settings].show_module);

    // The log file is not
    copy.set_log_output(&mut store.files, Some(b"x".to_vec()));
    assert_eq!(written(&original, &mut store).unwrap(), "x");
}

#[test]
fn clone_of_default_filter_is_default() {
    let mut store = Store::new(false);
    let original = Logger::new(&mut store.settings, &mut store.files);
    let mut own: SettingsStore<ByFunction> = SettingsStore::new(true);
    let copy = original.clone(&store.settings, &mut own);
    match &own.settings[copy.settings].filter {
        InstalledFilter::Default(filter) => {
            assert_eq!(*filter, DefaultLogFilter { debug_assertions: false })
        }
        InstalledFilter::Custom(_) => panic!("no filter was set"),
    }
}

#[test]
fn new_with_log_file_shares_the_log_file_only() {
    let mut store = Store::new(true);
    let first = Logger::new(&mut store.settings, &mut store.files).sub_logger_colored("p", Color::Red);
    first.set_show_thread(&mut store.settings, false);
    first.set_filter(&mut store.settings, by(|_, _| false));
    let second = Logger::new_with_log_file(&mut store.settings, &first);
    assert!(second.prefix.is_empty());
    assert!(store.settings.settings[second.settings].show_thread);
    second.set_log_output(&mut store.files, Some(Vec::new()));
    let message = with_severity(Severity::Info, "i");
    assert_eq!(
        log(&second, &mut store, &message),
        "[2018-02-13T23:08:32.000Z][main][Info]: i\n"
    );
    assert_eq!(log(&first, &mut store, &message), "");
    assert_eq!(
        written(&first, &mut store).unwrap(),
        "[2018-02-13T23:08:32.000Z][main][Info]: i\n"
    );
}

#[test]
fn random_colors_come_from_the_palette() {
    let mut store = Store::new(true);
    let root = Logger::new(&mut store.settings, &mut store.files);
    for i in 0..100 {
        let logger = root.sub_logger(&format!("sub_{i}"));
        assert_eq!(logger.prefix.len(), 1);
        assert_eq!(logger.prefix[0].string, format!("sub_{i}"));
        match logger.prefix[0].color {
            Color::Fixed(n) => assert!(COLORS.contains(&n)),
            other => panic!("{other:?} is not in the palette"),
        }
    }
}

#[test]
fn colors_are_picked_by_remainder() {
    let expected: [u8; 12] = [1, 2, 3, 4, 5, 6, 9, 10, 11, 12, 13, 14];
    for (i, color) in expected.iter().enumerate() {
        assert_eq!(pick_color(i as u32), Color::Fixed(*color));
        assert_eq!(pick_color(i as u32 + 1200), Color::Fixed(*color));
    }
    assert_eq!(pick_color(u32::MAX), Color::Fixed(4));
}

#[test]
fn shared_data_starts_without_a_file() {
    let data: SharedLoggerData<Vec<u8>> = SharedLoggerData::new();
    assert!(data.attempt_creation);
    assert!(data.log_file.is_none());
}

#[test]
fn functions_can_be_set_as_filters() {
    let filter: fn(Target, &Message<'_>) -> bool = |target, _| target == Target::Stdout;
    let mut store: SettingsStore<Filter<fn(Target, &Message<'_>) -> bool>> =
        SettingsStore::new(false);
    let mut files: FileStore<()> = FileStore::new();
    let logger = Logger::new(&mut store, &mut files);
    logger.set_filter(&mut store, Filter(filter));
    let mut own = SettingsStore::new(false);
    let copy = logger.clone(&store, &mut own);
    for (logger, store) in [(&logger, &store), (&copy, &own)] {
        let message = with_severity(Severity::Trace, "t");
        assert!(logger.is_enabled(store, Target::Stdout, &message));
        assert!(!logger.is_enabled(store, Target::File, &message));
        assert_eq!(
            logger.log(store, &message, LogStage::Console),
            (Some(LogStage::File), LogAction::Print)
        );
        assert_eq!(logger.log(store, &message, LogStage::File), (None, LogAction::Done));
    }
}

#[test]
fn test_logger() {
    let mut store = Store::new(true);
    let global = Logger::new(&mut store.settings, &mut store.files);
    let logger = global.sub_logger("TestSubLogger");

    logger.set_filter(
        &mut store.settings,
        by(|target, message| match target {
            Target::Stdout => message.severity >= Severity::Debug,
            Target::File => message.severity >= Severity::Trace,
            _ => unreachable!(),
        }),
    );

    let arg1: bool = false;
    let arg2: i32 = 42;
    let arg3: &str = "HELLO THERE";

    let error = ErrorReport {
        message: "This is a dummy error message".to_owned(),
        sources: Vec::new(),
    };

    let formatting = format!("Formatting: {}, {}, {}", arg1, arg2, arg3);
    let another = format!("Another formatting: {}, {}, {}", arg1, arg2, arg3);
    let start = "[2018-02-13T23:08:32.000Z]";
    for (logger, prefix) in [(&global, ""), (&logger, "[TestSubLogger]")] {
        let line = format!("{start}{prefix}[main][Warning]: ");

        // Severity, error, literal, format args
        let message = Message {
            error: Some(&error),
            ..with_severity(Severity::Warning, &formatting)
        };
        assert_eq!(
            log(logger, &mut store, &message),
            format!(
                "{line}Formatting: false, 42, HELLO THERE\n\
                 {line}Error: This is a dummy error message\n"
            )
        );

        // Severity, literal, format args
        let message = with_severity(Severity::Warning, &another);
        assert_eq!(
            log(logger, &mut store, &message),
            format!("{line}Another formatting: false, 42, HELLO THERE\n")
        );

        // Severity, error, literal
        let message = Message {
            error: Some(&error),
            ..with_severity(Severity::Warning, "Just a string literal")
        };
        assert_eq!(
            log(logger, &mut store, &message),
            format!(
                "{line}Just a string literal\n{line}Error: This is a dummy error message\n"
            )
        );

        // Severity, literal
        let message = with_severity(Severity::Warning, "Literal with no error");
        assert_eq!(
            log(logger, &mut store, &message),
            format!("{line}Literal with no error\n")
        );
    }

    // Severities
    for (severity, name, printed) in [
        (Severity::Trace, "Trace", false),
        (Severity::Debug, "Debug", true),
        (Severity::Info, "Info", true),
        (Severity::Loading, "Loading", true),
        (Severity::Warning, "Warning", true),
        (Severity::Error, "Error", true),
        (Severity::Fatal, "Fatal", true),
    ] {
        let message = with_severity(severity, "Hello");
        let line = format!("{start}[main][{name}]: Hello\n");
        let before = written(&global, &mut store).unwrap();
        assert_eq!(log(&global, &mut store, &message), if printed { &line } else { "" });
        assert_eq!(written(&global, &mut store).unwrap(), format!("{before}{line}"));
    }

    // Nested loggers
    let mut loggers = Vec::new();
    let mut prefix = "[TestSubLogger]".to_owned();
    loggers.push(logger);
    for i in 0..20 {
        let new = loggers.last().unwrap().sub_logger(&format!("sub_{}", i));
        prefix.push_str(&format!("[sub_{}]", i));
        let message = with_severity(Severity::Info, "Hello");
        assert_eq!(
            log(&new, &mut store, &message),
            format!("{start}{prefix}[main][Info]: Hello\n")
        );
        loggers.push(new);
    }
}
