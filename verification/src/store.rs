//! Where the state of loggers is kept.
//!
//! A logger itself only says which settings and which log file it uses, and
//! which prefixes it adds. What it refers to is kept here, so that several
//! loggers can refer to the same. Settings and log files are kept apart, so that
//! the one can be read while the other is being written to.

use crate::filter::{DefaultLogFilter, InstalledFilter, LogFilter};
use vstd::prelude::*;

verus! {

/// The log file of one or more loggers.
pub struct SharedLoggerData<D> {
    /// Whether a log file is still to be created when one is needed.
    pub attempt_creation: bool,
    /// The device that messages are written to, if there is one.
    pub log_file: Option<D>,
}

impl<D> SharedLoggerData<D> {
    /// No device yet: the first message that needs one has a log file created.
    pub fn new() -> (data: Self)
        ensures
            data == (SharedLoggerData::<D> { attempt_creation: true, log_file: None }),
    {
        SharedLoggerData { attempt_creation: true, log_file: None }
    }
}

/// What one or more loggers are set to do.
pub struct LoggerSettings<F> {
    /// Which messages go to which output.
    pub filter: InstalledFilter<F>,
    /// Whether the name of the thread is shown.
    pub show_thread: bool,
    /// Whether the module path is shown.
    pub show_module: bool,
}

impl<F> LoggerSettings<F> {
    /// The settings of a new logger: everything is shown, and the default
    /// filter decides.
    pub open spec fn initial(debug_assertions: bool) -> Self {
        LoggerSettings {
            filter: InstalledFilter::Default(DefaultLogFilter { debug_assertions }),
            show_thread: true,
            show_module: true,
        }
    }

    /// The settings of a new logger.
    pub fn new(debug_assertions: bool) -> (settings: Self)
        ensures
            settings == Self::initial(debug_assertions),
    {
        LoggerSettings {
            filter: InstalledFilter::Default(DefaultLogFilter { debug_assertions }),
            show_thread: true,
            show_module: true,
        }
    }
}

impl<F: LogFilter> LoggerSettings<F> {
    /// Whether a copy of the settings can come out like this: with a copy of the
    /// filter, and otherwise the same.
    pub open spec fn may_clone_to(self, copy: Self) -> bool {
        &&& self.filter.may_clone_to(copy.filter)
        &&& copy.show_thread == self.show_thread
        &&& copy.show_module == self.show_module
    }

    /// A copy of the settings, for a logger of its own.
    pub fn copy(&self) -> (copy: Self)
        ensures
            self.may_clone_to(copy),
    {
        LoggerSettings {
            filter: *self.filter.box_clone(),
            show_thread: self.show_thread,
            show_module: self.show_module,
        }
    }
}

/// Where settings are kept, with filters of type `F`.
pub struct SettingsStore<F> {
    /// Whether the program was built with debug assertions.
    pub debug_assertions: bool,
    pub settings: Vec<LoggerSettings<F>>,
}

impl<F> SettingsStore<F> {
    /// A store without settings.
    pub fn new(debug_assertions: bool) -> (store: Self)
        ensures
            store.debug_assertions == debug_assertions,
            store.settings@ == Seq::<LoggerSettings<F>>::empty(),
    {
        SettingsStore { debug_assertions, settings: Vec::new() }
    }
}

/// Where log files are kept, with devices of type `D`.
pub struct FileStore<D> {
    pub shared: Vec<SharedLoggerData<D>>,
}

impl<D> FileStore<D> {
    /// A store without log files.
    pub fn new() -> (store: Self)
        ensures
            store.shared@ == Seq::<SharedLoggerData<D>>::empty(),
    {
        FileStore { shared: Vec::new() }
    }
}

} // verus!
