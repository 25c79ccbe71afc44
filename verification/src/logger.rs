//! Loggers: how they are made, what they share, and their settings.

use crate::filter::{InstalledFilter, LogFilter};
use crate::message::{Message, PrefixData};
use crate::severity::Target;
use crate::store::{FileStore, LoggerSettings, SettingsStore, SharedLoggerData};
use crate::style::Color;
use rand::RngCore;
use vstd::prelude::*;

verus! {

/// A logger allows you to print messages to the console in a standardized way
/// while also optionally logging them to a file.
///
/// A logger does not fail on an error but rather ignores it and, if the error
/// happens while writing to a file, closes the handle.
pub struct Logger {
    /// The log file of the logger, by its place in the store.
    pub shared: usize,
    /// The settings of the logger, by their place in the store.
    pub settings: usize,
    /// The prefixes of the logger, the outermost one first.
    pub prefix: Vec<PrefixData>,
}

/// The colors of the palette that a sub-logger can be given by chance.
pub const COLORS: [u8; 12] = [1, 2, 3, 4, 5, 6, 9, 10, 11, 12, 13, 14];

/// The color of a sub-logger for a number that was drawn by chance.
pub open spec fn drawn_color(number: u32) -> Color {
    Color::Fixed(COLORS@[(number % 12) as int])
}

/// The color of a sub-logger for a number that was drawn by chance.
pub fn pick_color(number: u32) -> (color: Color)
    ensures
        color == drawn_color(number),
{
    let index: usize = number as usize % COLORS.len();
    Color::Fixed(COLORS[index])
}

/// Calls `rand::RngCore::next_u32` on the generator that `rand::rng` gives.
///
/// Trusted: nothing is claimed of the number. Panics if the system has no
/// randomness to seed the generator with, the first time or when it is seeded
/// again.
#[verifier::external_body]
fn draw_number() -> u32 {
    rand::rng().next_u32()
}

impl Logger {
    /// Whether the store holds the settings of the logger.
    pub open spec fn has_settings<F>(self, store: SettingsStore<F>) -> bool {
        self.settings < store.settings@.len()
    }

    /// Whether the store holds the log file of the logger.
    pub open spec fn has_file<D>(self, store: FileStore<D>) -> bool {
        self.shared < store.shared@.len()
    }

    /// The settings of the logger.
    pub open spec fn settings_in<F>(self, store: SettingsStore<F>) -> LoggerSettings<F> {
        store.settings@[self.settings as int]
    }

    /// The log file of the logger.
    pub open spec fn file_in<D>(self, store: FileStore<D>) -> SharedLoggerData<D> {
        store.shared@[self.shared as int]
    }

    /// Whether two states of the store differ at most in the settings of the
    /// logger, which are `settings` in the second one.
    pub open spec fn only_settings_change<F>(
        self,
        before: SettingsStore<F>,
        after: SettingsStore<F>,
        settings: LoggerSettings<F>,
    ) -> bool {
        &&& after.settings@ =~= before.settings@.update(self.settings as int, settings)
        &&& after.debug_assertions == before.debug_assertions
    }

    /// Whether two states of the store differ at most in the log file of the
    /// logger, which is `file` in the second one.
    pub open spec fn only_file_changes<D>(
        self,
        before: FileStore<D>,
        after: FileStore<D>,
        file: SharedLoggerData<D>,
    ) -> bool {
        after.shared@ =~= before.shared@.update(self.shared as int, file)
    }

    /// Creates a new logger, with settings and a log file of its own.
    pub fn new<D, F>(store: &mut SettingsStore<F>, files: &mut FileStore<D>) -> (logger: Self)
        ensures
            logger.settings == old(store).settings@.len(),
            logger.shared == old(files).shared@.len(),
            logger.prefix@.len() == 0,
            final(store).settings@ == old(store).settings@.push(
                LoggerSettings::initial(old(store).debug_assertions),
            ),
            final(store).debug_assertions == old(store).debug_assertions,
            final(files).shared@ == old(files).shared@.push(
                SharedLoggerData { attempt_creation: true, log_file: None },
            ),
    {
        let settings: usize = store.settings.len();
        let shared: usize = files.shared.len();
        store.settings.push(LoggerSettings::new(store.debug_assertions));
        files.shared.push(SharedLoggerData::new());
        Logger { shared, settings, prefix: Vec::new() }
    }

    /// Creates a new logger that shares the log file with a different logger.
    pub fn new_with_log_file<F>(store: &mut SettingsStore<F>, other: &Logger) -> (logger: Self)
        ensures
            logger.shared == other.shared,
            logger.settings == old(store).settings@.len(),
            logger.prefix@.len() == 0,
            final(store).settings@ == old(store).settings@.push(
                LoggerSettings::initial(old(store).debug_assertions),
            ),
            final(store).debug_assertions == old(store).debug_assertions,
    {
        let settings: usize = store.settings.len();
        store.settings.push(LoggerSettings::new(store.debug_assertions));
        Logger { shared: other.shared, settings, prefix: Vec::new() }
    }

    /// Creates a logger with the same prefixes that shares the log file with
    /// this one, and starts out with a copy of its settings, which is kept in
    /// the store `own`.
    pub fn clone<F: LogFilter>(
        &self,
        store: &SettingsStore<F>,
        own: &mut SettingsStore<F>,
    ) -> (logger: Self)
        requires
            self.has_settings(*store),
        ensures
            logger.shared == self.shared,
            logger.settings == old(own).settings@.len(),
            logger.prefix@ == self.prefix@,
            final(own).settings@.drop_last() == old(own).settings@,
            final(own).settings@.len() == old(own).settings@.len() + 1,
            final(own).debug_assertions == old(own).debug_assertions,
            self.settings_in(*store).may_clone_to(final(own).settings@.last()),
    {
        let settings: usize = own.settings.len();
        own.settings.push(store.settings[self.settings].copy());
        assert(own.settings@.drop_last() =~= old(own).settings@);
        Logger { shared: self.shared, settings, prefix: self.copy_prefix() }
    }

    /// A copy of the prefixes of the logger.
    fn copy_prefix(&self) -> (prefix: Vec<PrefixData>)
        ensures
            prefix@ == self.prefix@,
    {
        let mut prefix: Vec<PrefixData> = Vec::new();
        let mut i: usize = 0;
        while i < self.prefix.len()
            invariant
                i <= self.prefix@.len(),
                prefix@ == self.prefix@.take(i as int),
            decreases self.prefix@.len() - i,
        {
            prefix.push(self.prefix[i].clone());
            i = i + 1;
            assert(prefix@ =~= self.prefix@.take(i as int));
        }
        assert(prefix@ =~= self.prefix@);
        prefix
    }

    /// Sets the filter of the logger and of all loggers that share its settings.
    pub fn set_filter<F: LogFilter>(&self, store: &mut SettingsStore<F>, filter: F)
        requires
            self.has_settings(*old(store)),
        ensures
            self.only_settings_change(
                *old(store),
                *final(store),
                LoggerSettings {
                    filter: InstalledFilter::Custom(Box::new(filter)),
                    ..self.settings_in(*old(store))
                },
            ),
    {
        store.settings[self.settings].filter = InstalledFilter::Custom(Box::new(filter));
    }

    /// Sets whether an attempt should be made to print information about the
    /// current thread.
    pub fn set_show_thread<F>(&self, store: &mut SettingsStore<F>, show_thread: bool)
        requires
            self.has_settings(*old(store)),
        ensures
            self.only_settings_change(
                *old(store),
                *final(store),
                LoggerSettings { show_thread, ..self.settings_in(*old(store)) },
            ),
    {
        store.settings[self.settings].show_thread = show_thread;
    }

    /// Sets whether an attempt should be made to print information about the
    /// module path of a message.
    pub fn set_show_module<F>(&self, store: &mut SettingsStore<F>, show_module: bool)
        requires
            self.has_settings(*old(store)),
        ensures
            self.only_settings_change(
                *old(store),
                *final(store),
                LoggerSettings { show_module, ..self.settings_in(*old(store)) },
            ),
    {
        store.settings[self.settings].show_module = show_module;
    }

    /// Changes the device log messages are written to.
    ///
    /// Calling this with any value will prevent automatic log file creation in
    /// favor of the provided output device. This means that calling this with
    /// `None` before logging anything effectively stops any log file from being
    /// created.
    pub fn set_log_output<D>(&self, files: &mut FileStore<D>, device: Option<D>)
        requires
            self.has_file(*old(files)),
        ensures
            self.only_file_changes(
                *old(files),
                *final(files),
                SharedLoggerData { attempt_creation: false, log_file: device },
            ),
    {
        files.shared[self.shared] = SharedLoggerData { attempt_creation: false, log_file: device };
    }

    /// Whether the filter of the logger lets the message through to the target.
    pub fn is_enabled<F: LogFilter>(
        &self,
        store: &SettingsStore<F>,
        target: Target,
        message: &Message<'_>,
    ) -> (enabled: bool)
        requires
            self.has_settings(*store),
            self.settings_in(*store).filter.can_answer(target, *message),
        ensures
            self.settings_in(*store).filter.may_answer(target, *message, enabled),
    {
        store.settings[self.settings].filter.test_message(target, message)
    }

    /// The device log messages are written to, for writing to it.
    pub fn log_file<'a, D>(&self, files: &'a mut FileStore<D>) -> (device: Option<&'a mut D>)
        requires
            self.has_file(*old(files)),
        ensures
            match device {
                Some(device) => {
                    &&& self.file_in(*old(files)).log_file == Some(*device)
                    &&& self.only_file_changes(
                        *old(files),
                        *final(files),
                        SharedLoggerData {
                            log_file: Some(*final(device)),
                            ..self.file_in(*old(files))
                        },
                    )
                },
                None => {
                    &&& self.file_in(*old(files)).log_file is None
                    &&& self.only_file_changes(
                        *old(files),
                        *final(files),
                        self.file_in(*old(files)),
                    )
                },
            },
    {
        match &mut files.shared[self.shared].log_file {
            Some(device) => Some(device),
            None => None,
        }
    }

    /// Creates a sub-logger from this logger.
    ///
    /// When printing with the returned logger, it will act exactly like its
    /// parent but will also print the given prefix and (if pretty printing is
    /// supported) color.
    ///
    /// Any change done to this logger will reflect on the parent and vice versa.
    pub fn sub_logger_colored(&self, prefix: &str, color: Color) -> (logger: Self)
        ensures
            logger.shared == self.shared,
            logger.settings == self.settings,
            logger.prefix@.len() == self.prefix@.len() + 1,
            logger.prefix@.drop_last() == self.prefix@,
            logger.prefix@.last().string@ == prefix@,
            logger.prefix@.last().color == color,
    {
        let mut prefixes = self.copy_prefix();
        prefixes.push(PrefixData { string: prefix.to_owned(), color });
        assert(prefixes@.drop_last() =~= self.prefix@);
        Logger { shared: self.shared, settings: self.settings, prefix: prefixes }
    }

    /// Creates a sub-logger from this logger.
    ///
    /// When printing with the returned logger, it will act exactly like its
    /// parent but will also print the given prefix and (if pretty printing is
    /// supported) a random color.
    ///
    /// Any change done to this logger will reflect on the parent and vice versa.
    pub fn sub_logger(&self, prefix: &str) -> (logger: Self)
        ensures
            logger.shared == self.shared,
            logger.settings == self.settings,
            logger.prefix@.len() == self.prefix@.len() + 1,
            logger.prefix@.drop_last() == self.prefix@,
            logger.prefix@.last().string@ == prefix@,
            exists|number: u32| logger.prefix@.last().color == #[trigger] drawn_color(number),
    {
        self.sub_logger_colored(prefix, pick_color(draw_number()))
    }
}

} // verus!
