use sublogger::clock::{MAX_SECS, MIN_SECS};
use sublogger::{
    ClockTime, DefaultLogFilter, FileStore, Logger, Message, SettingsStore, Severity, Snapshot,
    UtcTime,
};

#[test]
fn log_files_are_named_after_the_date() {
    for (secs, stamp) in [
        (951827681, "29_02_2000_12_34"),
        (951868841, "01_03_2000_00_00"),
        (-2203891219, "28_02_1900_23_59"),
        (-2203891159, "01_03_1900_00_00"),
        (41, "01_01_1970_00_00"),
        (-19, "31_12_1969_23_59"),
        (1735689581, "31_12_2024_23_59"),
        (-30630934279, "06_05_0999_07_08"),
        (-62162117839, "29_02_0000_01_02"),
        (-62167294519, "31_12_-0001_03_04"),
        (253402300901, "01_01_+10000_00_01"),
        (253402300781, "31_12_9999_23_59"),
        (-8334601228759, "01_01_-262143_00_00"),
        (8210266876781, "31_12_+262142_23_59"),
    ] {
        assert_eq!(UtcTime { secs, nanos: 999_999_999 }.stamp_text(), stamp);
    }
}

#[test]
fn extreme_dates_can_be_written() {
    assert_eq!(UtcTime { secs: MIN_SECS, nanos: 0 }.stamp_text(), "01_01_-262143_00_00");
    assert_eq!(UtcTime { secs: MAX_SECS, nanos: 0 }.stamp_text(), "31_12_+262142_23_59");
    assert_eq!(UtcTime { secs: MIN_SECS, nanos: 0 }.clock_text(), "00:00::00.000");
    assert_eq!(UtcTime { secs: MAX_SECS, nanos: 999_999_999 }.clock_text(), "23:59::59.999");
}

#[test]
fn lines_in_the_file_start_with_the_date() {
    let mut store: SettingsStore<DefaultLogFilter> = SettingsStore::new(true);
    let logger = Logger::new(&mut store, &mut FileStore::<()>::new());
    logger.set_show_thread(&mut store, false);
    let message =
        Message { severity: Severity::Info, message: "", error: None, module: None, line: None };
    for (secs, nanos, timestamp) in [
        (0, 0, "1970-01-01T00:00:00.000Z"),
        (951827696, 7999999, "2000-02-29T12:34:56.007Z"),
        (4107542399, 999999999, "2100-02-28T23:59:59.999Z"),
        (4107542400, 1000000, "2100-03-01T00:00:00.001Z"),
        (253402300799, 120000000, "9999-12-31T23:59:59.120Z"),
    ] {
        let now = Snapshot {
            thread: None,
            date: UtcTime { secs: 0, nanos: 0 },
            time: ClockTime { secs, nanos },
        };
        let mut text = Vec::new();
        logger.do_write(&store, &mut text, &message, false, &now);
        assert_eq!(String::from_utf8(text).unwrap(), format!("[{timestamp}][Info]: \n"));
    }
}
