//! Handing a level on to the `log` facade.

use crate::severity::Level;
use vstd::prelude::*;

verus! {

/// A handle on the `log` facade, through which a level is handed on to it.
pub struct Facade {
    level: Ghost<Option<Level>>,
}

impl Facade {
    /// The level that was last handed on to the facade through this handle, if
    /// there was one.
    pub closed spec fn level(self) -> Option<Level> {
        self.level@
    }

    /// A handle through which nothing was handed on so far.
    pub fn new() -> (facade: Self)
        ensures
            facade.level() is None,
    {
        Facade { level: Ghost(None) }
    }
}

/// Calls `log::set_max_level`.
///
/// Trusted: the level is the one that was last handed on through the handle. The
/// level of the facade is a variable of the whole process, so nothing is claimed
/// of what other parts of the program make of it.
#[verifier::external_body]
pub(crate) fn set_max_level(facade: &mut Facade, level: Level)
    ensures
        final(facade).level() == Some(level),
{
    log::set_max_level(
        match level {
            Level::Error => log::LevelFilter::Error,
            Level::Warn => log::LevelFilter::Warn,
            Level::Info => log::LevelFilter::Info,
            Level::Debug => log::LevelFilter::Debug,
            Level::Trace => log::LevelFilter::Trace,
        },
    );
}

} // verus!
