//! Serving the `log` facade.

use crate::filter::LogFilter;
use crate::level::{set_max_level, Facade};
use crate::logger::Logger;
use crate::message::Message;
use crate::severity::{level_to_severity, Level, Target};
use crate::store::SettingsStore;
use vstd::prelude::*;

verus! {

/// The error of the `log` facade when it has a logger already.
#[verifier::external_type_specification]
#[verifier::external_body]
pub struct ExSetLoggerError(log::SetLoggerError);

/// Completes the installation of a logger in the `log` facade, where `installed`
/// is what `log::set_logger` returned. If the logger was installed, the level up
/// to which the facade is to hand messages on is handed to it: all of them,
/// because loggers do their own filtering. If it was not, because the facade has
/// a logger already, nothing is handed on.
pub fn initialize(facade: &mut Facade, installed: Result<(), log::SetLoggerError>) -> (result:
    Result<(), log::SetLoggerError>)
    ensures
        result is Ok <==> installed is Ok,
        installed is Ok ==> final(facade).level() == Some(Level::Trace),
        installed is Err ==> result == installed && *final(facade) == *old(facade),
{
    match installed {
        Ok(_) => {
            set_max_level(facade, Level::Trace);  // Because we do our own filtering
            Ok(())
        },
        Err(error) => Err(error),
    }
}

/// The message for a record of the `log` facade.
pub open spec fn message_of_record<'a>(
    level: Level,
    args: &'a str,
    module: Option<&'a str>,
    line: Option<u32>,
) -> Message<'a> {
    Message { severity: level.severity(), message: args, error: None, module, line }
}

/// The message for a record of the `log` facade.
pub fn record_message<'a>(
    level: Level,
    args: &'a str,
    module: Option<&'a str>,
    line: Option<u32>,
) -> (message: Message<'a>)
    ensures
        message == message_of_record(level, args, module, line),
{
    Message { severity: level_to_severity(level), message: args, error: None, module, line }
}

impl Logger {
    /// Whether messages of the `log` facade at this level are of interest: those
    /// that the filter lets through to the file.
    pub fn enabled<F: LogFilter>(&self, store: &SettingsStore<F>, level: Level) -> (enabled: bool)
        requires
            self.has_settings(*store),
            self.settings_in(*store).filter.can_answer(
                Target::File,
                message_of_record(level, "", None, None),
            ),
        ensures
            self.settings_in(*store).filter.may_answer(
                Target::File,
                message_of_record(level, "", None, None),
                enabled,
            ),
    {
        self.is_enabled(store, Target::File, &record_message(level, "", None, None))
    }
}

} // verus!
