use sublogger::output::file_name_text;
use sublogger::{
    ClockTime, ErrorReport, FileAction, FileEvent, FilePhase, FlushAction, FlushEvent, LogAction,
    LogFilter, LogStage, Logger, SettingsStore, FileStore, Message, Severity, Snapshot, Stream, Target,
    UtcTime,
};

struct Fixed {
    stdout: bool,
    file: bool,
}

impl LogFilter for Fixed {
    fn test_message(&self, target: Target, _message: &Message<'_>) -> bool {
        match target {
            Target::Stdout => self.stdout,
            _ => self.file,
        }
    }

    fn box_clone(&self) -> Box<Self> {
        Box::new(Fixed { stdout: self.stdout, file: self.file })
    }
}

/// The stores of some loggers.
struct Store {
    settings: SettingsStore<Fixed>,
    files: FileStore<u8>,
}

impl Store {
    fn new(debug_assertions: bool) -> Self {
        Store { settings: SettingsStore::new(debug_assertions), files: FileStore::new() }
    }
}

const LINE: &str = "[2018-02-13T23:08:32.000Z][*unnamed_thread*][Info]: hi\n";

fn now() -> Snapshot {
    Snapshot {
        thread: None,
        date: UtcTime { secs: 1518563312, nanos: 0 },
        time: ClockTime { secs: 1518563312, nanos: 0 },
    }
}

fn message() -> Message<'static> {
    Message { severity: Severity::Info, message: "hi", error: None, module: None, line: None }
}

fn failure() -> ErrorReport {
    ErrorReport { message: "no space".to_owned(), sources: vec!["full".to_owned()] }
}

fn show(action: FileAction) -> String {
    match action {
        FileAction::CreateFolder(path) => format!("folder {path}"),
        FileAction::CreateFile(path) => format!("file {path}"),
        FileAction::Append(text) => format!("append {}", String::from_utf8(text).unwrap()),
        FileAction::Report(line) => format!("report {line}"),
        FileAction::Done => "done".to_owned(),
    }
}

/// Brings one message to the log file, and returns the actions that came of the
/// events.
fn run(logger: &Logger, store: &mut Store, events: Vec<FileEvent<u8>>) -> Vec<String> {
    let mut actions = Vec::new();
    let mut phase = FilePhase::Start;
    for event in events {
        let (next, action) =
            logger.log_to_file(&store.settings, &mut store.files, &message(), phase, event, &now());
        phase = next;
        let finished = matches!(phase, FilePhase::Finished);
        assert_eq!(finished, matches!(action, FileAction::Done | FileAction::Report(_)));
        actions.push(show(action));
    }
    actions
}

fn console(logger: &Logger, store: &Store, severity: Severity, stage: LogStage) -> String {
    let message = Message { severity, ..message() };
    let (next, action) = logger.log(&store.settings, &message, stage);
    assert_eq!(next, if action == LogAction::Print { Some(LogStage::File) } else { None });
    match action {
        LogAction::Print => {
            match logger.write_std(&store.settings, &message, false, &now()).0 {
                Stream::Stdout => "stdout".to_owned(),
                Stream::Stderr => "stderr".to_owned(),
            }
        }
        LogAction::Deliver => "deliver".to_owned(),
        LogAction::Done => "done".to_owned(),
    }
}

#[test]
fn filter_decides_where_a_message_goes() {
    let mut store = Store::new(true);
    let logger = Logger::new(&mut store.settings, &mut store.files);
    for (stdout, file) in [(false, false), (false, true), (true, false), (true, true)] {
        logger.set_filter(&mut store.settings, Fixed { stdout, file });
        let at_file = if file { "deliver" } else { "done" };
        let at_console = if stdout { "stdout" } else { at_file };
        assert_eq!(console(&logger, &store, Severity::Info, LogStage::Console), at_console);
        assert_eq!(console(&logger, &store, Severity::Info, LogStage::File), at_file);
        assert_eq!(logger.is_enabled(&store.settings, Target::Stdout, &message()), stdout);
        assert_eq!(logger.is_enabled(&store.settings, Target::File, &message()), file);
    }
}

#[test]
fn messages_run_through_both_outputs() {
    let mut store = Store::new(true);
    let logger = Logger::new(&mut store.settings, &mut store.files);
    for (stdout, file) in [(false, false), (false, true), (true, false), (true, true)] {
        logger.set_filter(&mut store.settings, Fixed { stdout, file });
        let mut actions = Vec::new();
        let mut stage = Some(LogStage::Console);
        while let Some(current) = stage {
            let (next, action) = logger.log(&store.settings, &message(), current);
            actions.push(action);
            stage = next;
        }
        let mut expected = Vec::new();
        if stdout {
            expected.push(LogAction::Print);
        }
        expected.push(if file { LogAction::Deliver } else { LogAction::Done });
        assert_eq!(actions, expected);
    }
}

#[test]
fn steps_are_possible_when_the_time_can_be_written() {
    let mut store = Store::new(true);
    let logger = Logger::new(&mut store.settings, &mut store.files);
    let mut early = now();
    early.time.secs = -1;
    early.date.secs = i64::MAX;
    assert!(!early.can_be_shown(true));
    assert!(!early.can_be_shown(false));
    assert!(now().can_be_shown(true));
    assert!(now().can_be_shown(false));
    let naming = |number| FilePhase::Naming { stamp: "s".to_owned(), number };
    // Without a device nothing is written at first
    assert!(logger.can_log_to_file(&store.files, &FilePhase::Start, &FileEvent::Begin, &early));
    for (phase, event, expected) in [
        (FilePhase::Folder, FileEvent::FolderReady, false),
        (FilePhase::Folder, FileEvent::FolderFailed(failure()), true),
        (naming(0), FileEvent::FileCreated(1), false),
        (naming(0), FileEvent::FileExists, true),
        (naming(usize::MAX - 1), FileEvent::FileExists, true),
        (naming(usize::MAX), FileEvent::FileExists, false),
        (naming(usize::MAX), FileEvent::FileFailed(failure()), true),
        (FilePhase::Appending, FileEvent::Appended, true),
    ] {
        assert_eq!(logger.can_log_to_file(&store.files, &phase, &event, &early), expected);
        let in_time = !matches!(
            (&phase, &event),
            (FilePhase::Naming { number: usize::MAX, .. }, FileEvent::FileExists)
        );
        assert_eq!(logger.can_log_to_file(&store.files, &phase, &event, &now()), in_time);
    }
    logger.set_log_output(&mut store.files, Some(1));
    assert!(!logger.can_log_to_file(&store.files, &FilePhase::Start, &FileEvent::Begin, &early));
    assert!(logger.can_log_to_file(&store.files, &FilePhase::Start, &FileEvent::Begin, &now()));
}

#[test]
fn errors_go_to_a_stream_of_their_own() {
    let mut store = Store::new(true);
    let logger = Logger::new(&mut store.settings, &mut store.files);
    logger.set_filter(&mut store.settings, Fixed { stdout: true, file: true });
    for (severity, stream) in [
        (Severity::Trace, "stdout"),
        (Severity::Debug, "stdout"),
        (Severity::Info, "stdout"),
        (Severity::Loading, "stdout"),
        (Severity::Warning, "stdout"),
        (Severity::Error, "stderr"),
        (Severity::Fatal, "stderr"),
    ] {
        assert_eq!(console(&logger, &store, severity, LogStage::Console), stream);
    }
}

#[test]
fn default_filter_depends_on_the_build() {
    for (debug_assertions, console_stage) in [(true, "stdout"), (false, "deliver")] {
        let mut store = Store::new(debug_assertions);
        let logger = Logger::new(&mut store.settings, &mut store.files);
        assert_eq!(
            console(&logger, &store, Severity::Debug, LogStage::Console),
            console_stage
        );
        assert_eq!(console(&logger, &store, Severity::Trace, LogStage::Console), "deliver");
        assert_eq!(console(&logger, &store, Severity::Info, LogStage::Console), "stdout");
        assert_eq!(console(&logger, &store, Severity::Trace, LogStage::File), "deliver");
    }
}

#[test]
fn first_message_creates_the_log_file() {
    let mut store = Store::new(true);
    let logger = Logger::new(&mut store.settings, &mut store.files);
    assert_eq!(
        run(
            &logger,
            &mut store,
            vec![
                FileEvent::Begin,
                FileEvent::FolderReady,
                FileEvent::FileExists,
                FileEvent::FileExists,
                FileEvent::FileCreated(7),
                FileEvent::Appended,
            ]
        ),
        vec![
            "folder logs".to_owned(),
            "file logs/13_02_2018_23_08.log".to_owned(),
            "file logs/13_02_2018_23_08_1.log".to_owned(),
            "file logs/13_02_2018_23_08_2.log".to_owned(),
            format!("append {LINE}"),
            "done".to_owned(),
        ]
    );
    assert_eq!(store.files.shared[0].log_file, Some(7));
    assert!(!store.files.shared[0].attempt_creation);

    // The next message finds the file open
    assert_eq!(
        run(&logger, &mut store, vec![FileEvent::Begin, FileEvent::Appended]),
        vec![format!("append {LINE}"), "done".to_owned()]
    );
    assert_eq!(store.files.shared[0].log_file, Some(7));
}

#[test]
fn failing_folder_is_reported_once() {
    let mut store = Store::new(true);
    let logger = Logger::new(&mut store.settings, &mut store.files);
    assert_eq!(
        run(&logger, &mut store, vec![FileEvent::Begin, FileEvent::FolderFailed(failure())]),
        vec![
            "folder logs",
            "report Error while creating folder structure for log files: Error: no space\n\
             Caused by: full",
        ]
    );
    // No second attempt is made
    assert_eq!(run(&logger, &mut store, vec![FileEvent::Begin]), vec!["done"]);
}

#[test]
fn failing_file_is_reported_once() {
    let mut store = Store::new(true);
    let logger = Logger::new(&mut store.settings, &mut store.files);
    assert_eq!(
        run(
            &logger,
            &mut store,
            vec![
                FileEvent::Begin,
                FileEvent::FolderReady,
                FileEvent::FileExists,
                FileEvent::FileFailed(failure())
            ]
        )
        .last()
        .unwrap(),
        "report Error while creating log file: Error: no space\nCaused by: full"
    );
    assert_eq!(store.files.shared[0].log_file, None);
    assert_eq!(run(&logger, &mut store, vec![FileEvent::Begin]), vec!["done"]);
}

#[test]
fn failing_device_is_closed() {
    let mut store = Store::new(true);
    let logger = Logger::new(&mut store.settings, &mut store.files);
    logger.set_log_output(&mut store.files, Some(3));
    assert_eq!(
        run(&logger, &mut store, vec![FileEvent::Begin, FileEvent::AppendFailed(failure())]),
        vec![
            format!("append {LINE}"),
            "report Cannot write to log file: Error: no space\nCaused by: full".to_owned(),
        ]
    );
    assert_eq!(store.files.shared[0].log_file, None);
    assert_eq!(run(&logger, &mut store, vec![FileEvent::Begin]), vec!["done"]);
    // Another device can be set
    logger.set_log_output(&mut store.files, Some(4));
    assert_eq!(
        run(&logger, &mut store, vec![FileEvent::Begin]),
        vec![format!("append {LINE}")]
    );
}

#[test]
fn closed_files_are_left_alone_until_a_device_is_set() {
    for flushing in [false, true] {
        let mut store = Store::new(true);
        let logger = Logger::new(&mut store.settings, &mut store.files);
        logger.set_log_output(&mut store.files, Some(3));
        if flushing {
            logger.flush(&mut store.files, FlushEvent::Failed(failure()));
        } else {
            run(&logger, &mut store, vec![FileEvent::Begin, FileEvent::AppendFailed(failure())]);
        }
        for _ in 0..3 {
            assert_eq!(run(&logger, &mut store, vec![FileEvent::Begin]), vec!["done"]);
            assert!(matches!(logger.flush(&mut store.files, FlushEvent::Begin), FlushAction::Done));
            logger.set_log_output(&mut store.files, None);
            assert_eq!(store.files.shared[0].log_file, None);
            assert!(!store.files.shared[0].attempt_creation);
        }
        logger.set_log_output(&mut store.files, Some(4));
        assert!(matches!(logger.flush(&mut store.files, FlushEvent::Begin), FlushAction::Flush));
    }
}

#[test]
fn setting_no_output_prevents_log_files() {
    let mut store = Store::new(true);
    let logger = Logger::new(&mut store.settings, &mut store.files);
    logger.set_log_output(&mut store.files, None);
    for _ in 0..3 {
        assert_eq!(run(&logger, &mut store, vec![FileEvent::Begin]), vec!["done"]);
    }
}

#[test]
fn names_count_up() {
    assert_eq!(file_name_text("x", 0), "logs/x.log");
    assert_eq!(file_name_text("x", 1), "logs/x_1.log");
    assert_eq!(file_name_text("x", 10), "logs/x_10.log");
    assert_eq!(
        file_name_text("", usize::MAX),
        format!("logs/_{}.log", usize::MAX)
    );
}

#[test]
fn flushing_needs_a_device() {
    let mut store = Store::new(true);
    let logger = Logger::new(&mut store.settings, &mut store.files);
    assert!(matches!(logger.flush(&mut store.files, FlushEvent::Begin), FlushAction::Done));
    // Flushing does not prevent the log file
    assert!(store.files.shared[0].attempt_creation);
    logger.set_log_output(&mut store.files, Some(1));
    assert!(matches!(logger.flush(&mut store.files, FlushEvent::Begin), FlushAction::Flush));
    assert!(matches!(logger.flush(&mut store.files, FlushEvent::Flushed), FlushAction::Done));
    assert_eq!(store.files.shared[0].log_file, Some(1));
}

#[test]
fn failing_flush_closes_the_device() {
    let mut store = Store::new(true);
    let logger = Logger::new(&mut store.settings, &mut store.files);
    logger.set_log_output(&mut store.files, Some(1));
    match logger.flush(&mut store.files, FlushEvent::Failed(failure())) {
        FlushAction::Report(line) => {
            assert_eq!(line, "Cannot flush log file: Error: no space\nCaused by: full")
        }
        _ => panic!("the error was not reported"),
    }
    assert_eq!(store.files.shared[0].log_file, None);
    assert!(matches!(logger.flush(&mut store.files, FlushEvent::Begin), FlushAction::Done));
}

#[test]
fn device_can_be_changed_in_place() {
    let mut store = Store::new(true);
    let logger = Logger::new(&mut store.settings, &mut store.files);
    assert!(logger.log_file(&mut store.files).is_none());
    logger.set_log_output(&mut store.files, Some(1));
    *logger.log_file(&mut store.files).unwrap() = 9;
    assert_eq!(store.files.shared[0].log_file, Some(9));
}
