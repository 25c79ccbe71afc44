//! The severity of a message, and the outputs a message can go to.

use crate::style::{Color, Style};
use std::cmp::Ordering;
use vstd::prelude::*;

verus! {

/// Represents the target of a log message, meaning the place the logger is
/// trying to write it to.
#[derive(Copy, Clone, PartialEq, Eq, Structural, Debug)]
#[non_exhaustive]
pub enum Target {
    Stdout,
    File,
}

/// Represents the severity of a logger message, which is displayed and used to
/// determine if a message should be printed or not.
#[derive(Copy, Clone, PartialEq, Eq, Structural, Debug)]
#[non_exhaustive]
pub enum Severity {
    Trace,
    Debug,
    Info,
    Loading,
    Warning,
    Error,
    Fatal,
}

impl Severity {
    /// The position of the severity, counted from the least severe one.
    pub open spec fn rank(self) -> u8 {
        match self {
            Severity::Trace => 0,
            Severity::Debug => 1,
            Severity::Info => 2,
            Severity::Loading => 3,
            Severity::Warning => 4,
            Severity::Error => 5,
            Severity::Fatal => 6,
        }
    }

    /// The position of the severity, counted from the least severe one.
    fn position(self) -> (position: u8)
        ensures
            position == self.rank(),
    {
        match self {
            Severity::Trace => 0,
            Severity::Debug => 1,
            Severity::Info => 2,
            Severity::Loading => 3,
            Severity::Warning => 4,
            Severity::Error => 5,
            Severity::Fatal => 6,
        }
    }

    /// The name under which the severity is displayed.
    pub open spec fn display(self) -> Seq<char> {
        match self {
            Severity::Trace => "Trace"@,
            Severity::Debug => "Debug"@,
            Severity::Info => "Info"@,
            Severity::Loading => "Loading"@,
            Severity::Warning => "Warning"@,
            Severity::Error => "Error"@,
            Severity::Fatal => "Fatal"@,
        }
    }

    /// The name under which the severity is displayed.
    pub fn name(&self) -> (name: &'static str)
        ensures
            name@ == self.display(),
    {
        match self {
            Severity::Trace => "Trace",
            Severity::Debug => "Debug",
            Severity::Info => "Info",
            Severity::Loading => "Loading",
            Severity::Warning => "Warning",
            Severity::Error => "Error",
            Severity::Fatal => "Fatal",
        }
    }

    /// The style in which the severity is shown: each has a color of its own in
    /// bold, and the most severe one is red on yellow.
    pub open spec fn look(self) -> Style {
        let foreground = match self {
            Severity::Trace => Color::Blue,
            Severity::Debug => Color::Green,
            Severity::Info => Color::Cyan,
            Severity::Loading => Color::Purple,
            Severity::Warning => Color::Yellow,
            Severity::Error => Color::Red,
            Severity::Fatal => Color::Red,
        };
        let background = if self is Fatal {
            Some(Color::Yellow)
        } else {
            None
        };
        Style { foreground: Some(foreground), background, is_bold: true }
    }

    /// The style in which the severity is shown.
    pub fn style(&self) -> (style: Style)
        ensures
            style == self.look(),
    {
        match self {
            Severity::Trace => Color::Blue.bold(),
            Severity::Debug => Color::Green.bold(),
            Severity::Info => Color::Cyan.bold(),
            Severity::Loading => Color::Purple.bold(),
            Severity::Warning => Color::Yellow.bold(),
            Severity::Error => Color::Red.bold(),
            Severity::Fatal => Style {
                foreground: Some(Color::Red),
                background: Some(Color::Yellow),
                is_bold: true,
            },
        }
    }

    /// The name of the severity, painted in its style.
    pub fn styled(&self) -> (shown: String)
        ensures
            shown@ == self.look().painted(self.display()),
    {
        self.style().paint(self.name())
    }
}

impl vstd::std_specs::cmp::PartialOrdSpecImpl for Severity {
    open spec fn obeys_partial_cmp_spec() -> bool {
        true
    }

    open spec fn partial_cmp_spec(&self, other: &Self) -> Option<Ordering> {
        if self.rank() < other.rank() {
            Some(Ordering::Less)
        } else if self.rank() == other.rank() {
            Some(Ordering::Equal)
        } else {
            Some(Ordering::Greater)
        }
    }
}

/// A severity is below another one when it is less severe.
impl PartialOrd for Severity {
    fn partial_cmp(&self, other: &Self) -> (order: Option<Ordering>) {
        let a: u8 = self.position();
        let b: u8 = other.position();
        if a < b {
            Some(Ordering::Less)
        } else if a == b {
            Some(Ordering::Equal)
        } else {
            Some(Ordering::Greater)
        }
    }
}

/// A level of the `log` facade.
#[derive(Copy, Clone, PartialEq, Eq, Structural, Debug)]
pub enum Level {
    Error,
    Warn,
    Info,
    Debug,
    Trace,
}

impl Level {
    /// The severity of a message that was logged at this level.
    pub open spec fn severity(self) -> Severity {
        match self {
            Level::Error => Severity::Error,
            Level::Warn => Severity::Warning,
            Level::Info => Severity::Info,
            Level::Debug => Severity::Debug,
            Level::Trace => Severity::Trace,
        }
    }
}

/// The severity of a message that was logged at the given level.
pub fn level_to_severity(level: Level) -> (severity: Severity)
    ensures
        severity == level.severity(),
{
    match level {
        Level::Error => Severity::Error,
        Level::Warn => Severity::Warning,
        Level::Info => Severity::Info,
        Level::Debug => Severity::Debug,
        Level::Trace => Severity::Trace,
    }
}

} // verus!
