//! Which messages go to which output.

use crate::message::Message;
use crate::severity::{Severity, Target};
use vstd::prelude::*;

verus! {

/// The log filter determines whether a message will be written to an output.
pub trait LogFilter: Send + Sync + Sized {
    /// Whether the filter can be asked about the message.
    open spec fn can_answer(&self, target: Target, message: Message<'_>) -> bool {
        true
    }

    /// Whether the filter can give this answer for the message. A filter that
    /// says nothing else, or keeps a state of its own, can give either.
    open spec fn may_answer(&self, target: Target, message: Message<'_>, answer: bool) -> bool {
        true
    }

    /// Whether a copy of the filter can come out like this.
    open spec fn may_clone_to(&self, copy: Self) -> bool {
        true
    }

    /// Whether the message is to be written to the target.
    fn test_message(&self, target: Target, message: &Message<'_>) -> (answer: bool)
        requires
            self.can_answer(target, *message),
        ensures
            self.may_answer(target, *message, answer),
    ;

    /// A copy of the filter, for a logger of its own.
    fn box_clone(&self) -> (copy: Box<Self>)
        ensures
            self.may_clone_to(*copy),
    ;
}

/// The filter of a logger for which no other one was set: the file takes every
/// message, and the console all but the least severe ones.
#[derive(Copy, Clone, PartialEq, Eq, Structural, Debug)]
pub struct DefaultLogFilter {
    /// Whether the program was built with debug assertions, which lets messages
    /// for debugging through to the console.
    pub debug_assertions: bool,
}

impl DefaultLogFilter {
    /// The least severity that the target takes.
    pub open spec fn threshold(self, target: Target) -> Severity {
        match target {
            Target::Stdout => if self.debug_assertions {
                Severity::Debug
            } else {
                Severity::Info
            },
            Target::File => Severity::Trace,
        }
    }

    /// Whether the target takes messages of the severity.
    pub open spec fn takes(self, target: Target, severity: Severity) -> bool {
        severity.rank() >= self.threshold(target).rank()
    }
}

impl LogFilter for DefaultLogFilter {
    open spec fn can_answer(&self, target: Target, message: Message<'_>) -> bool {
        true
    }

    open spec fn may_answer(&self, target: Target, message: Message<'_>, answer: bool) -> bool {
        answer == self.takes(target, message.severity)
    }

    open spec fn may_clone_to(&self, copy: Self) -> bool {
        copy == *self
    }

    fn test_message(&self, target: Target, message: &Message<'_>) -> (answer: bool) {
        match target {
            Target::Stdout => {
                if self.debug_assertions {
                    message.severity >= Severity::Debug
                } else {
                    message.severity >= Severity::Info
                }
            },
            Target::File => message.severity >= Severity::Trace,
        }
    }

    fn box_clone(&self) -> (copy: Box<Self>) {
        Box::new(DefaultLogFilter { debug_assertions: self.debug_assertions })
    }
}

/// A filter that asks a function.
pub struct Filter<T>(pub T);

impl<T> LogFilter for Filter<T> where
    T: Fn(Target, &Message<'_>) -> bool + Send + Sync + Clone,
 {
    /// The function can be called.
    open spec fn can_answer(&self, target: Target, message: Message<'_>) -> bool {
        call_requires(self.0, (target, &message))
    }

    /// The function can return the answer.
    open spec fn may_answer(&self, target: Target, message: Message<'_>, answer: bool) -> bool {
        call_ensures(self.0, (target, &message), answer)
    }

    /// The copy asks a clone of the function.
    open spec fn may_clone_to(&self, copy: Self) -> bool {
        cloned(self.0, copy.0)
    }

    fn test_message(&self, target: Target, message: &Message<'_>) -> (answer: bool) {
        (self.0)(target, message)
    }

    fn box_clone(&self) -> (copy: Box<Self>) {
        Box::new(Filter(self.0.clone()))
    }
}

/// The filter that a logger has: the default one, or one that was set.
pub enum InstalledFilter<F> {
    Default(DefaultLogFilter),
    Custom(Box<F>),
}

impl<F: LogFilter> LogFilter for InstalledFilter<F> {
    open spec fn can_answer(&self, target: Target, message: Message<'_>) -> bool {
        match self {
            InstalledFilter::Default(filter) => filter.can_answer(target, message),
            InstalledFilter::Custom(filter) => filter.can_answer(target, message),
        }
    }

    open spec fn may_answer(&self, target: Target, message: Message<'_>, answer: bool) -> bool {
        match self {
            InstalledFilter::Default(filter) => filter.may_answer(target, message, answer),
            InstalledFilter::Custom(filter) => filter.may_answer(target, message, answer),
        }
    }

    open spec fn may_clone_to(&self, copy: Self) -> bool {
        match (self, copy) {
            (InstalledFilter::Default(filter), InstalledFilter::Default(other)) => {
                filter.may_clone_to(other)
            },
            (InstalledFilter::Custom(filter), InstalledFilter::Custom(other)) => {
                filter.may_clone_to(*other)
            },
            _ => false,
        }
    }

    fn test_message(&self, target: Target, message: &Message<'_>) -> (answer: bool) {
        match self {
            InstalledFilter::Default(filter) => filter.test_message(target, message),
            InstalledFilter::Custom(filter) => filter.test_message(target, message),
        }
    }

    fn box_clone(&self) -> (copy: Box<Self>) {
        match self {
            InstalledFilter::Default(filter) => {
                Box::new(InstalledFilter::Default(*filter.box_clone()))
            },
            InstalledFilter::Custom(filter) => {
                Box::new(InstalledFilter::Custom(filter.box_clone()))
            },
        }
    }
}

/// The default filter is monotone: a target that takes a message also takes
/// every more severe one.
pub proof fn default_filter_is_monotone(
    filter: DefaultLogFilter,
    target: Target,
    lower: Severity,
    higher: Severity,
)
    requires
        lower.rank() <= higher.rank(),
        filter.takes(target, lower),
    ensures
        filter.takes(target, higher),
{
}

/// The default filter lets messages of every severity through to the file.
pub proof fn default_file_takes_everything(filter: DefaultLogFilter, severity: Severity)
    ensures
        filter.takes(Target::File, severity),
{
}

} // verus!
