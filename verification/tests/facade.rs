use sublogger::{
    initialize, record_message, Facade, FileStore, Level, LogFilter, Logger, Message,
    SettingsStore, Severity, Target,
};

struct FileOnly(Severity);

impl LogFilter for FileOnly {
    fn test_message(&self, target: Target, message: &Message<'_>) -> bool {
        target == Target::File && message.severity >= self.0 && message.message.is_empty()
    }

    fn box_clone(&self) -> Box<Self> {
        Box::new(FileOnly(self.0))
    }
}

struct Silent;

impl log::Log for Silent {
    fn enabled(&self, _metadata: &log::Metadata) -> bool {
        false
    }

    fn log(&self, _record: &log::Record) {}

    fn flush(&self) {}
}

static SILENT: Silent = Silent;

#[test]
fn installation_sets_the_level_once() {
    let mut facade = Facade::new();
    log::set_max_level(log::LevelFilter::Warn);
    assert!(initialize(&mut facade, log::set_logger(&SILENT)).is_ok());
    assert_eq!(log::max_level(), log::LevelFilter::Trace);

    // A logger that was not installed leaves the level alone
    for level in [log::LevelFilter::Warn, log::LevelFilter::Off, log::LevelFilter::Debug] {
        log::set_max_level(level);
        assert!(initialize(&mut facade, log::set_logger(&SILENT)).is_err());
        assert_eq!(log::max_level(), level);
    }
}

#[test]
fn records_become_messages() {
    let message = record_message(Level::Warn, "text", Some("module"), Some(3));
    assert_eq!(message.severity, Severity::Warning);
    assert_eq!(message.message, "text");
    assert!(message.error.is_none());
    assert_eq!(message.module, Some("module"));
    assert_eq!(message.line, Some(3));
}

#[test]
fn levels_are_enabled_by_the_filter_for_the_file() {
    let mut store: SettingsStore<FileOnly> = SettingsStore::new(false);
    let logger = Logger::new(&mut store, &mut FileStore::<()>::new());
    for level in [Level::Error, Level::Warn, Level::Info, Level::Debug, Level::Trace] {
        assert!(logger.enabled(&store, level));
    }
    logger.set_filter(&mut store, FileOnly(Severity::Warning));
    for (level, enabled) in [
        (Level::Error, true),
        (Level::Warn, true),
        (Level::Info, false),
        (Level::Debug, false),
        (Level::Trace, false),
    ] {
        assert_eq!(logger.enabled(&store, level), enabled);
    }
}
