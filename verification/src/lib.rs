//! A logger that prints messages to the console in a standardized way while also
//! writing them to a log file.
//!
//! Loggers can be nested: a sub-logger shares everything with its parent and
//! adds a prefix of its own. The library decides what is written where, and in
//! what words; writing it, and reading the clock, is left to the program.

pub mod calendar;
pub mod clock;
pub mod facade;
pub mod filter;
pub mod laws;
pub mod level;
pub mod lines;
pub mod logger;
pub mod lookup;
pub mod message;
pub mod newline;
pub mod output;
pub mod reading;
pub mod render;
pub mod severity;
pub mod shown;
pub mod store;
pub mod style;
pub mod text;

pub use clock::{ClockTime, UtcTime};
pub use facade::{initialize, record_message};
pub use filter::{DefaultLogFilter, Filter, InstalledFilter, LogFilter};
pub use level::Facade;
pub use logger::Logger;
pub use lookup::PendingCall;
pub use message::{ErrorReport, Message, PrefixData};
pub use newline::NewlineReplacer;
pub use output::{
    FileAction, FileEvent, FilePhase, FlushAction, FlushEvent, LogAction, LogStage, Stream,
};
pub use render::{PrefixTempData, Snapshot};
pub use severity::{level_to_severity, Level, Severity, Target};
pub use store::{FileStore, LoggerSettings, SettingsStore, SharedLoggerData};
pub use style::{Color, Style};
