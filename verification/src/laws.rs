//! What holds across the functions of the library.

use crate::facade;
use crate::filter::{DefaultLogFilter, Filter, InstalledFilter, LogFilter};
use crate::logger;
use crate::logger::Logger;
use crate::message;
use crate::message::{ErrorReport, Message, PrefixData};
use crate::output;
use crate::output::{
    ActionView, FileAction, FileEvent, FilePhase, FlushAction, FlushEvent, LogAction, LogStage,
    PhaseView, Step,
};
use crate::render;
use crate::render::{PrefixTempData, Snapshot};
use crate::severity::{Level, Severity, Target};
use crate::store::{FileStore, LoggerSettings, SettingsStore, SharedLoggerData};
use crate::style::Color;
use crate::text;
use vstd::prelude::*;
use vstd::utf8::*;

verus! {

// Loggers and what they share

/// Whether `child` is a sub-logger of `parent`, as `sub_logger` and
/// `sub_logger_colored` make it.
pub open spec fn is_sub_logger(child: Logger, parent: Logger) -> bool {
    &&& child.shared == parent.shared
    &&& child.settings == parent.settings
    &&& child.prefix@.len() == parent.prefix@.len() + 1
    &&& child.prefix@.drop_last() == parent.prefix@
}

/// Any change done to the settings or the log file of a sub-logger reflects on
/// the parent and vice versa: whoever of the two makes the change, afterwards it
/// is what both of them have.
pub proof fn sub_loggers_share_changes<D, F>(
    child: Logger,
    parent: Logger,
    before: SettingsStore<F>,
    after: SettingsStore<F>,
    settings: LoggerSettings<F>,
    files_before: FileStore<D>,
    files_after: FileStore<D>,
    file: SharedLoggerData<D>,
)
    requires
        is_sub_logger(child, parent),
        parent.has_settings(before),
        parent.has_file(files_before),
    ensures
        child.has_settings(before),
        child.has_file(files_before),
        child.settings_in(before) == parent.settings_in(before),
        child.file_in(files_before) == parent.file_in(files_before),
        child.only_settings_change(before, after, settings) || parent.only_settings_change(
            before,
            after,
            settings,
        ) ==> child.settings_in(after) == settings && parent.settings_in(after) == settings,
        child.only_file_changes(files_before, files_after, file) || parent.only_file_changes(
            files_before,
            files_after,
            file,
        ) ==> child.file_in(files_after) == file && parent.file_in(files_after) == file,
{
}

/// Loggers with the same log file, such as a logger and its clone, or two of
/// which one was made with the log file of the other, see each other's changes
/// to it.
pub proof fn log_files_are_shared<D>(
    a: Logger,
    b: Logger,
    before: FileStore<D>,
    after: FileStore<D>,
    file: SharedLoggerData<D>,
)
    requires
        a.has_file(before),
        a.shared == b.shared,
        a.only_file_changes(before, after, file),
    ensures
        b.file_in(after) == file,
{
}

/// Loggers with different log files do not see each other's changes to them.
pub proof fn separate_log_files_stay_apart<D>(
    a: Logger,
    b: Logger,
    before: FileStore<D>,
    after: FileStore<D>,
    file: SharedLoggerData<D>,
)
    requires
        a.has_file(before),
        b.has_file(before),
        a.shared != b.shared,
        a.only_file_changes(before, after, file),
    ensures
        b.file_in(after) == b.file_in(before),
{
}

/// Loggers with different settings do not see each other's changes to them.
pub proof fn separate_settings_stay_apart<F>(
    a: Logger,
    b: Logger,
    before: SettingsStore<F>,
    after: SettingsStore<F>,
    settings: LoggerSettings<F>,
)
    requires
        a.has_settings(before),
        b.has_settings(before),
        a.settings != b.settings,
        a.only_settings_change(before, after, settings),
    ensures
        b.settings_in(after) == b.settings_in(before),
{
}

/// A logger stays usable whatever any logger changes.
pub proof fn changes_keep_loggers<D, F>(
    a: Logger,
    b: Logger,
    before: SettingsStore<F>,
    after: SettingsStore<F>,
    settings: LoggerSettings<F>,
    files_before: FileStore<D>,
    files_after: FileStore<D>,
    file: SharedLoggerData<D>,
)
    requires
        a.has_settings(before),
        b.has_settings(before),
        a.has_file(files_before),
        b.has_file(files_before),
    ensures
        b.only_settings_change(before, after, settings) ==> a.has_settings(after),
        b.only_file_changes(files_before, files_after, file) ==> a.has_file(files_after),
{
}

proof fn joining_associates(
    a: Seq<char>,
    b: Seq<char>,
    c: Seq<char>,
    d: Seq<char>,
    e: Seq<char>,
)
    ensures
        a + b + c + d + e == a + (b + c + d + e),
{
    assert(a + b + c + d + e =~= a + (b + c + d + e));
}

/// A sub-logger prints exactly what its parent prints, with its own prefix added
/// behind those of the parent. This holds as long as the chain of prefixes is
/// within its limit.
pub proof fn sub_logger_adds_its_prefix(
    child: Logger,
    parent: Logger,
    message: Message<'_>,
    pretty: bool,
    temp: PrefixTempData<'_>,
)
    requires
        is_sub_logger(child, parent),
        parent.prefix@.len() < render::MAX_RECURSION_DEPTH,
    ensures
        ({
            let before = render::time_part(pretty, temp) + render::prefix_chain(
                parent.prefix@,
                pretty,
            );
            let after = render::thread_part(pretty, temp) + render::module_part(
                message,
                pretty,
                temp,
            ) + render::severity_part(message, pretty) + ": "@;
            &&& render::rendered(parent.prefix@, message, pretty, temp) == render::rendered_from(
                before + after,
                message,
                pretty,
            )
            &&& render::rendered(child.prefix@, message, pretty, temp) == render::rendered_from(
                before + render::prefix_part(child.prefix@.last(), pretty) + after,
                message,
                pretty,
            )
        }),
{
    let time = render::time_part(pretty, temp);
    let chain = render::prefix_chain(parent.prefix@, pretty);
    let own = render::prefix_part(child.prefix@.last(), pretty);
    let thread = render::thread_part(pretty, temp);
    let module = render::module_part(message, pretty, temp);
    let severity = render::severity_part(message, pretty);
    assert(render::prefix_chain(child.prefix@, pretty) == chain + own);
    joining_associates(time + chain, thread, module, severity, ": "@);
    joining_associates(time + (chain + own), thread, module, severity, ": "@);
    assert(time + (chain + own) =~= time + chain + own);
}

/// A logger and its clone print the same, until the settings of one of them
/// change.
pub proof fn clones_print_the_same<F: LogFilter>(
    a: Logger,
    b: Logger,
    settings: LoggerSettings<F>,
    copy: LoggerSettings<F>,
    message: Message<'_>,
    pretty: bool,
    now: &Snapshot,
)
    requires
        a.prefix@ == b.prefix@,
        settings.may_clone_to(copy),
    ensures
        a.text_of(settings, message, pretty, now) == b.text_of(copy, message, pretty, now),
{
}

/// Beyond the limit a chain of prefixes is cut off: what comes later makes no
/// difference.
pub proof fn long_prefix_chains_are_cut_off(
    a: Seq<PrefixData>,
    b: Seq<PrefixData>,
    pretty: bool,
)
    requires
        a.len() > render::MAX_RECURSION_DEPTH,
        b.len() > render::MAX_RECURSION_DEPTH,
        a.take(render::MAX_RECURSION_DEPTH + 1) == b.take(render::MAX_RECURSION_DEPTH + 1),
    ensures
        render::prefix_chain(a, pretty) == render::prefix_chain(b, pretty),
{
}

/// Beyond the limit a chain of errors is cut off: what comes later makes no
/// difference.
pub proof fn long_error_chains_are_cut_off(
    start: Seq<char>,
    a: Seq<String>,
    b: Seq<String>,
    pretty: bool,
)
    requires
        a.len() > render::MAX_RECURSION_DEPTH,
        b.len() > render::MAX_RECURSION_DEPTH,
        a.take(render::MAX_RECURSION_DEPTH as int) == b.take(render::MAX_RECURSION_DEPTH as int),
    ensures
        render::source_chain(start, a, pretty) == render::source_chain(start, b, pretty),
{
}

/// Once an error report needs no more sources, adding any makes no difference to
/// the text of a message: a chain of sources, even an endless one, need not be
/// followed further.
pub proof fn needless_sources_make_no_difference(
    start: Seq<char>,
    message: Message<'_>,
    report: ErrorReport,
    longer: ErrorReport,
    pretty: bool,
)
    requires
        report.sources@.len() > render::MAX_RECURSION_DEPTH,
        longer.message == report.message,
        report.sources@.len() <= longer.sources@.len(),
        longer.sources@.take(report.sources@.len() as int) == report.sources@,
    ensures
        render::rendered_from(start, Message { error: Some(&report), ..message }, pretty)
            == render::rendered_from(start, Message { error: Some(&longer), ..message }, pretty),
{
    let limit = render::MAX_RECURSION_DEPTH as int;
    assert(longer.sources@.take(limit) =~= longer.sources@.take(
        report.sources@.len() as int,
    ).take(limit));
    long_error_chains_are_cut_off(start, report.sources@, longer.sources@, pretty);
}

/// The text of a message is valid UTF-8, whatever is logged.
pub proof fn text_is_valid_utf8<F>(
    logger: Logger,
    settings: LoggerSettings<F>,
    message: Message<'_>,
    pretty: bool,
    now: &Snapshot,
)
    ensures
        valid_utf8(logger.text_of(settings, message, pretty, now)),
{
    encode_utf8_valid_utf8(
        render::rendered(
            logger.prefix@,
            message,
            pretty,
            PrefixTempData::captured(settings, now),
        ),
    );
}

// What goes where

/// A message goes where the filter says. With a filter that knows its answers,
/// the work on a message takes one step at the console, and after printing one
/// more for the log file. It is printed exactly if the answer for the console is
/// yes, and goes to the log file exactly if the answer for the file is, whether
/// it was printed or not.
pub proof fn messages_go_where_the_filter_says<F: LogFilter>(
    settings: LoggerSettings<F>,
    message: Message<'_>,
    stdout: bool,
    file: bool,
    first: (Option<LogStage>, LogAction),
    second: (Option<LogStage>, LogAction),
)
    requires
        forall|answer: bool| #[trigger]
            settings.filter.may_answer(Target::Stdout, message, answer) ==> answer == stdout,
        forall|answer: bool| #[trigger]
            settings.filter.may_answer(Target::File, message, answer) ==> answer == file,
        output::log_step(settings, message, LogStage::Console, first),
        first.0 matches Some(stage) ==> output::log_step(settings, message, stage, second),
    ensures
        first.1 is Print <==> stdout,
        first.0 is Some <==> stdout,
        ({
            let last = if first.0 is Some {
                second
            } else {
                first
            };
            &&& last.0 is None
            &&& last.1 !is Print
            &&& last.1 is Deliver <==> file
        }),
{
}

/// As long as no filter was set, the console gets the messages that reach the
/// threshold, and the log file gets every message.
pub proof fn default_filter_decides_by_severity<F: LogFilter>(
    settings: LoggerSettings<F>,
    default: DefaultLogFilter,
    message: Message<'_>,
    next: (Option<LogStage>, LogAction),
)
    requires
        settings.filter == InstalledFilter::<F>::Default(default),
    ensures
        output::log_step(settings, message, LogStage::Console, next) ==> next
            == if default.takes(Target::Stdout, message.severity) {
            (Some(LogStage::File), LogAction::Print)
        } else {
            (None, LogAction::Deliver)
        },
        output::log_step(settings, message, LogStage::File, next) ==> next == (
            None::<LogStage>,
            LogAction::Deliver,
        ),
{
}

/// A logger and its clone decide the same on a message, until the settings of
/// one of them change, provided that a clone of the filter that was set answers
/// as the filter itself. A clone of the default filter always does.
pub proof fn clones_decide_the_same<F: LogFilter>(
    settings: LoggerSettings<F>,
    copy: LoggerSettings<F>,
    message: Message<'_>,
    stage: LogStage,
    next: (Option<LogStage>, LogAction),
)
    requires
        settings.may_clone_to(copy),
        settings.filter matches InstalledFilter::Custom(filter) ==> forall|
            other: F,
            target: Target,
            answer: bool,
        |
            filter.may_clone_to(other) ==> #[trigger] other.may_answer(target, message, answer)
                == filter.may_answer(target, message, answer),
    ensures
        output::log_step(settings, message, stage, next) == output::log_step(
            copy,
            message,
            stage,
            next,
        ),
{
    assert(settings.filter.may_answer(Target::Stdout, message, true)
        == copy.filter.may_answer(Target::Stdout, message, true));
    assert(settings.filter.may_answer(Target::Stdout, message, false)
        == copy.filter.may_answer(Target::Stdout, message, false));
    assert(settings.filter.may_answer(Target::File, message, true)
        == copy.filter.may_answer(Target::File, message, true));
    assert(settings.filter.may_answer(Target::File, message, false)
        == copy.filter.may_answer(Target::File, message, false));
}

/// A filter that was set is the one that is asked: for every target and every
/// message, whatever its severity, the answers are exactly those that the filter
/// itself can give. The same goes for the default filter, as long as none was
/// set, and for copies.
pub proof fn the_filter_that_was_set_decides<F: LogFilter>(
    filter: F,
    default: DefaultLogFilter,
    target: Target,
    message: Message<'_>,
    answer: bool,
    copy: F,
    copied: InstalledFilter<F>,
)
    ensures
        InstalledFilter::Custom(Box::new(filter)).may_answer(target, message, answer)
            <==> filter.may_answer(target, message, answer),
        InstalledFilter::Custom(Box::new(filter)).can_answer(target, message)
            <==> filter.can_answer(target, message),
        InstalledFilter::<F>::Default(default).may_answer(target, message, answer)
            <==> default.may_answer(target, message, answer),
        InstalledFilter::<F>::Default(default).can_answer(target, message),
        InstalledFilter::Custom(Box::new(filter)).may_clone_to(
            InstalledFilter::Custom(Box::new(copy)),
        ) <==> filter.may_clone_to(copy),
        InstalledFilter::Custom(Box::new(filter)).may_clone_to(copied) ==> copied is Custom,
        InstalledFilter::<F>::Default(default).may_clone_to(copied) <==> copied
            == InstalledFilter::<F>::Default(default),
{
}

/// What becomes of a message follows from the answers that the filter that was
/// set can give for it, and from nothing else.
pub proof fn set_filters_decide_on_messages<F: LogFilter>(
    filter: F,
    settings: LoggerSettings<F>,
    message: Message<'_>,
    next: (Option<LogStage>, LogAction),
)
    requires
        settings.filter == InstalledFilter::Custom(Box::new(filter)),
    ensures
        output::log_step(settings, message, LogStage::Console, next) <==> {
            ||| filter.may_answer(Target::Stdout, message, true) && next == (
                Some(LogStage::File),
                LogAction::Print,
            )
            ||| filter.may_answer(Target::Stdout, message, false) && filter.may_answer(
                Target::File,
                message,
                true,
            ) && next == (None::<LogStage>, LogAction::Deliver)
            ||| filter.may_answer(Target::Stdout, message, false) && filter.may_answer(
                Target::File,
                message,
                false,
            ) && next == (None::<LogStage>, LogAction::Done)
        },
        output::log_step(settings, message, LogStage::File, next) <==> {
            ||| filter.may_answer(Target::File, message, true) && next == (
                None::<LogStage>,
                LogAction::Deliver,
            )
            ||| filter.may_answer(Target::File, message, false) && next == (
                None::<LogStage>,
                LogAction::Done,
            )
        },
{
    let installed = settings.filter;
    assert(installed.may_answer(Target::Stdout, message, true) == filter.may_answer(
        Target::Stdout,
        message,
        true,
    ));
    assert(installed.may_answer(Target::Stdout, message, false) == filter.may_answer(
        Target::Stdout,
        message,
        false,
    ));
    assert(installed.may_answer(Target::File, message, true) == filter.may_answer(
        Target::File,
        message,
        true,
    ));
    assert(installed.may_answer(Target::File, message, false) == filter.may_answer(
        Target::File,
        message,
        false,
    ));
}

/// A function that is set as a filter is called with the target and the message,
/// and what it returns is the answer.
pub proof fn functions_answer_for_themselves<T>(
    function: T,
    target: Target,
    message: Message<'_>,
    answer: bool,
    copy: T,
) where T: Fn(Target, &Message<'_>) -> bool + Send + Sync + Clone
    ensures
        Filter(function).may_answer(target, message, answer) <==> call_ensures(
            function,
            (target, &message),
            answer,
        ),
        Filter(function).can_answer(target, message) <==> call_requires(
            function,
            (target, &message),
        ),
        Filter(function).may_clone_to(Filter(copy)) <==> cloned(function, copy),
{
}

/// The default filter lets every message through to the file. On the console it
/// holds back tracing, and in a program without debug assertions debugging too.
pub proof fn default_filter_answers(
    filter: DefaultLogFilter,
    target: Target,
    message: Message<'_>,
    answer: bool,
)
    ensures
        filter.can_answer(target, message),
        filter.may_answer(target, message, answer) <==> answer == match target {
            Target::File => true,
            Target::Stdout => match message.severity {
                Severity::Trace => false,
                Severity::Debug => filter.debug_assertions,
                _ => true,
            },
        },
        filter.takes(target, message.severity) <==> filter.may_answer(target, message, true),
{
}

/// Errors go to the stream for errors, everything less severe to the other one.
pub proof fn errors_have_a_stream(severity: Severity)
    ensures
        output::Stream::of(severity) == match severity {
            Severity::Error => output::Stream::Stderr,
            Severity::Fatal => output::Stream::Stderr,
            _ => output::Stream::Stdout,
        },
{
}

/// A record of the `log` facade becomes the message that says the same, with the
/// severity that goes by the same name.
pub proof fn records_keep_what_they_say<'a>(
    level: Level,
    args: &'a str,
    module: Option<&'a str>,
    line: Option<u32>,
)
    ensures
        ({
            let message = facade::message_of_record(level, args, module, line);
            &&& message.message == args
            &&& message.module == module
            &&& message.line == line
            &&& message.error is None
            &&& message.severity == match level {
                Level::Error => Severity::Error,
                Level::Warn => Severity::Warning,
                Level::Info => Severity::Info,
                Level::Debug => Severity::Debug,
                Level::Trace => Severity::Trace,
            }
            &&& message.severity == level.severity()
        }),
{
}

/// Severities are in the order in which they are listed.
pub proof fn severities_are_in_order(a: Severity, b: Severity)
    ensures
        a.rank() == match a {
            Severity::Trace => 0u8,
            Severity::Debug => 1u8,
            Severity::Info => 2u8,
            Severity::Loading => 3u8,
            Severity::Warning => 4u8,
            Severity::Error => 5u8,
            Severity::Fatal => 6u8,
        },
        vstd::std_specs::cmp::PartialOrdSpec::partial_cmp_spec(&a, &b) == if a.rank() < b.rank() {
            Some(core::cmp::Ordering::Less)
        } else if a.rank() > b.rank() {
            Some(core::cmp::Ordering::Greater)
        } else {
            Some(core::cmp::Ordering::Equal)
        },
        a.rank() == b.rank() <==> a == b,
{
}

/// The color that is drawn by chance is one of the twelve colors of the palette
/// that are neither black nor white nor gray, and each of them is drawn for
/// every twelfth number.
pub proof fn drawn_colors_are_colorful(number: u32)
    ensures
        logger::drawn_color(number) == Color::Fixed(
            (if number % 12 < 6 {
                number % 12 + 1
            } else {
                number % 12 + 3
            }) as u8,
        ),
{
}

/// A new logger shows everything, and has the default filter.
pub proof fn new_loggers_show_everything<F>(debug_assertions: bool)
    ensures
        ({
            let settings = LoggerSettings::<F>::initial(debug_assertions);
            &&& settings.show_thread
            &&& settings.show_module
            &&& settings.filter == InstalledFilter::<F>::Default(
                DefaultLogFilter { debug_assertions },
            )
        }),
{
}

/// A copy of settings shows what they show, and has a copy of their filter.
pub proof fn copied_settings_show_the_same<F: LogFilter>(
    settings: LoggerSettings<F>,
    copy: LoggerSettings<F>,
)
    ensures
        settings.may_clone_to(copy) <==> {
            &&& copy.show_thread == settings.show_thread
            &&& copy.show_module == settings.show_module
            &&& settings.filter.may_clone_to(copy.filter)
        },
{
}

/// The settings and the log file of a logger are those that it refers to.
pub proof fn loggers_have_what_they_refer_to<D, F>(
    logger: Logger,
    store: SettingsStore<F>,
    files: FileStore<D>,
)
    ensures
        logger.has_settings(store) <==> logger.settings < store.settings@.len(),
        logger.has_file(files) <==> logger.shared < files.shared@.len(),
        logger.settings_in(store) == store.settings@[logger.settings as int],
        logger.file_in(files) == files.shared@[logger.shared as int],
{
}

/// A change to the settings of a logger is a change to these alone, and so for
/// its log file.
pub proof fn changes_are_confined<D, F>(
    logger: Logger,
    before: SettingsStore<F>,
    after: SettingsStore<F>,
    settings: LoggerSettings<F>,
    files_before: FileStore<D>,
    files_after: FileStore<D>,
    file: SharedLoggerData<D>,
)
    requires
        logger.has_settings(before),
        logger.has_file(files_before),
    ensures
        logger.only_settings_change(before, after, settings) <==> {
            &&& after.settings@.len() == before.settings@.len()
            &&& after.debug_assertions == before.debug_assertions
            &&& forall|i: int|
                0 <= i < before.settings@.len() ==> #[trigger] after.settings@[i] == if i
                    == logger.settings {
                    settings
                } else {
                    before.settings@[i]
                }
        },
        logger.only_file_changes(files_before, files_after, file) <==> {
            &&& files_after.shared@.len() == files_before.shared@.len()
            &&& forall|i: int|
                0 <= i < files_before.shared@.len() ==> #[trigger] files_after.shared@[i] == if i
                    == logger.shared {
                    file
                } else {
                    files_before.shared@[i]
                }
        },
{
}

// The log file

/// Something that is done with a log file.
pub enum FileOperation<D> {
    /// One step of the work on a message.
    Log { shown: Seq<u8>, stamp: Seq<char>, phase: PhaseView, event: FileEvent<D> },
    /// One step of flushing.
    Flush(FlushEvent),
    /// Another device is set.
    SetOutput(Option<D>),
}

/// What an operation makes of the log file, and what it has done next.
pub open spec fn operated<D>(file: SharedLoggerData<D>, operation: FileOperation<D>) -> (
    SharedLoggerData<D>,
    ActionView,
) {
    match operation {
        FileOperation::Log { shown, stamp, phase, event } => {
            let step = output::step(shown, stamp, file, phase, event);
            (step.file, step.action)
        },
        FileOperation::Flush(event) => output::flush_step(file, event),
        FileOperation::SetOutput(device) => (
            SharedLoggerData { attempt_creation: false, log_file: device },
            ActionView::Done,
        ),
    }
}

/// How many times a sequence of operations has the creation of a log file begun.
pub open spec fn creations<D>(file: SharedLoggerData<D>, operations: Seq<FileOperation<D>>) -> nat
    decreases operations.len(),
{
    if operations.len() == 0 {
        0
    } else {
        let (next, action) = operated(file, operations[0]);
        creations(next, operations.drop_first()) + if action is CreateFolder {
            1nat
        } else {
            0nat
        }
    }
}

/// The creation of a log file is begun at most once, and not at all after a
/// device was set, even if that is none: neither anything that is logged, nor a
/// device that fails, nor a flush brings it about again.
pub proof fn log_file_is_created_at_most_once<D>(
    file: SharedLoggerData<D>,
    operations: Seq<FileOperation<D>>,
)
    ensures
        creations(file, operations) <= 1,
        !file.attempt_creation ==> creations(file, operations) == 0,
        operations.len() > 0 && operations[0] is SetOutput ==> creations(file, operations) == 0,
    decreases operations.len(),
{
    if operations.len() > 0 {
        let (next, action) = operated(file, operations[0]);
        log_file_is_created_at_most_once(next, operations.drop_first());
    }
}

/// Whether a device is only there when no log file is to be created any more.
pub open spec fn settled<D>(file: SharedLoggerData<D>) -> bool {
    file.log_file is Some ==> !file.attempt_creation
}

/// Whether the attempt to create a log file, if the work on a message has come
/// that far, is on record as begun.
pub open spec fn attempt_recorded<D>(file: SharedLoggerData<D>, phase: PhaseView) -> bool {
    phase is Folder || phase is Naming ==> !file.attempt_creation
}

/// A new log file is settled, and every operation keeps it so. For this, a step
/// of the work on a message relies on the attempt to create a file being on
/// record, which every step before it sees to and no operation undoes.
pub proof fn log_files_stay_settled<D>(
    file: SharedLoggerData<D>,
    operation: FileOperation<D>,
    any: PhaseView,
)
    requires
        settled(file),
        operation matches FileOperation::Log { phase, event, .. } ==> phase.awaits(event)
            && attempt_recorded(file, phase),
    ensures
        settled(SharedLoggerData::<D> { attempt_creation: true, log_file: None }),
        settled(operated(file, operation).0),
        operation matches FileOperation::Log { shown, stamp, phase, event } ==> {
            let step = output::step(shown, stamp, file, phase, event);
            attempt_recorded(step.file, step.phase)
        },
        attempt_recorded(file, any) ==> attempt_recorded(operated(file, operation).0, any),
{
}

/// Whether there is no device, and no log file is to be created any more.
pub open spec fn closed<D>(file: SharedLoggerData<D>) -> bool {
    file.log_file is None && !file.attempt_creation
}

/// Whether an action has something done with a log file.
pub open spec fn touches_file(action: ActionView) -> bool {
    action is CreateFolder || action is CreateFile || action is Append || action is Flush
}

/// The phase of the work on a message after an operation.
pub open spec fn phase_after<D>(
    file: SharedLoggerData<D>,
    phase: PhaseView,
    operation: FileOperation<D>,
) -> PhaseView {
    match operation {
        FileOperation::Log { shown, stamp, phase: current, event } => {
            output::step(shown, stamp, file, current, event).phase
        },
        _ => phase,
    }
}

/// Whether operations come one after the other as they can: each step of the
/// work on a message begins a new message, or goes on in the phase that the last
/// step has led to.
pub open spec fn orderly<D>(
    file: SharedLoggerData<D>,
    phase: PhaseView,
    operations: Seq<FileOperation<D>>,
) -> bool
    decreases operations.len(),
{
    operations.len() > 0 ==> {
        &&& operations[0] matches FileOperation::Log { phase: current, event, .. }
            ==> current.awaits(event) && (current is Start || current == phase)
        &&& orderly(
            operated(file, operations[0]).0,
            phase_after(file, phase, operations[0]),
            operations.drop_first(),
        )
    }
}

/// Whether a sequence of operations has nothing done with the log file, and
/// leaves it as it is.
pub open spec fn leaves_file_alone<D>(
    file: SharedLoggerData<D>,
    operations: Seq<FileOperation<D>>,
) -> bool
    decreases operations.len(),
{
    operations.len() > 0 ==> {
        let (next, action) = operated(file, operations[0]);
        &&& !touches_file(action)
        &&& next == file
        &&& leaves_file_alone(next, operations.drop_first())
    }
}

/// A closed log file stays closed: until another device is set, nothing is done
/// with a log file any more, whatever is logged or flushed.
pub proof fn closed_files_are_left_alone<D>(
    file: SharedLoggerData<D>,
    phase: PhaseView,
    operations: Seq<FileOperation<D>>,
)
    requires
        closed(file),
        !(phase is Folder || phase is Naming),
        orderly(file, phase, operations),
        forall|i: int|
            0 <= i < operations.len() ==> !(#[trigger] operations[i] matches FileOperation::SetOutput(
                device,
            ) && device is Some),
    ensures
        leaves_file_alone(file, operations),
    decreases operations.len(),
{
    if operations.len() > 0 {
        let next = operated(file, operations[0]).0;
        let rest = operations.drop_first();
        assert forall|i: int| 0 <= i < rest.len() implies !(#[trigger] rest[i]
            matches FileOperation::SetOutput(device) && device is Some) by {
            assert(rest[i] == operations[i + 1]);
        }
        assert(!(operations[0] matches FileOperation::SetOutput(device) && device is Some));
        closed_files_are_left_alone(next, phase_after(file, phase, operations[0]), rest);
    }
}

/// Once a device fails it is closed for good: the error is reported, and until
/// another device is set nothing is done with a log file any more, whatever is
/// logged or flushed.
pub proof fn failed_devices_are_closed<D>(
    file: SharedLoggerData<D>,
    error: ErrorReport,
    shown: Seq<u8>,
    stamp: Seq<char>,
    later: Seq<FileOperation<D>>,
)
    requires
        settled(file),
        file.log_file is Some,
        forall|i: int|
            0 <= i < later.len() ==> !(#[trigger] later[i] matches FileOperation::SetOutput(device)
                && device is Some),
    ensures
        ({
            let written = output::step(
                shown,
                stamp,
                file,
                PhaseView::Appending,
                FileEvent::AppendFailed(error),
            );
            let flushed = output::flush_step(file, FlushEvent::Failed(error));
            &&& written.action is Report
            &&& closed(written.file)
            &&& orderly(written.file, written.phase, later) ==> leaves_file_alone(
                written.file,
                later,
            )
            &&& flushed.1 is Report
            &&& closed(flushed.0)
            &&& orderly(flushed.0, PhaseView::Finished, later) ==> leaves_file_alone(
                flushed.0,
                later,
            )
        }),
{
    let written = output::step(
        shown,
        stamp,
        file,
        PhaseView::Appending,
        FileEvent::AppendFailed(error),
    );
    let flushed = output::flush_step(file, FlushEvent::Failed(error));
    if orderly(written.file, written.phase, later) {
        closed_files_are_left_alone(written.file, written.phase, later);
    }
    if orderly(flushed.0, PhaseView::Finished, later) {
        closed_files_are_left_alone(flushed.0, PhaseView::Finished, later);
    }
}

/// A log file that cannot be created is given up: the error is reported, and
/// until a device is set nothing is done with a log file any more, whatever is
/// logged or flushed.
pub proof fn failed_creations_are_final<D>(
    file: SharedLoggerData<D>,
    shown: Seq<u8>,
    stamp: Seq<char>,
    phase: PhaseView,
    event: FileEvent<D>,
    later: Seq<FileOperation<D>>,
)
    requires
        closed(file),
        phase.awaits(event),
        event is FolderFailed || event is FileFailed,
        forall|i: int|
            0 <= i < later.len() ==> !(#[trigger] later[i] matches FileOperation::SetOutput(device)
                && device is Some),
    ensures
        ({
            let failed = output::step(shown, stamp, file, phase, event);
            &&& failed.action is Report
            &&& closed(failed.file)
            &&& orderly(failed.file, failed.phase, later) ==> leaves_file_alone(
                failed.file,
                later,
            )
        }),
{
    let failed = output::step(shown, stamp, file, phase, event);
    if orderly(failed.file, failed.phase, later) {
        closed_files_are_left_alone(failed.file, failed.phase, later);
    }
}

/// The first message has its log file created, and is then written to it in
/// full: the folder is created, then the file under the first name that is not
/// taken, and whatever number of names was taken before, once the file is there
/// the next action is to append the text of the message. Each step has the text
/// that the message has at that time.
pub proof fn created_files_get_the_message<D>(
    file: SharedLoggerData<D>,
    shown: Seq<u8>,
    stamp: Seq<char>,
    other: Seq<char>,
    number: nat,
    device: D,
)
    requires
        file.log_file is None,
        file.attempt_creation,
    ensures
        ({
            let begun = output::step(shown, other, file, PhaseView::Start, FileEvent::<D>::Begin);
            let first = output::step(
                shown,
                stamp,
                begun.file,
                PhaseView::Folder,
                FileEvent::<D>::FolderReady,
            );
            let naming = PhaseView::Naming { stamp, number };
            let taken = output::step(
                shown,
                other,
                begun.file,
                naming,
                FileEvent::<D>::FileExists,
            );
            let created = output::step(
                shown,
                other,
                begun.file,
                naming,
                FileEvent::FileCreated(device),
            );
            let done = output::step(
                shown,
                other,
                created.file,
                PhaseView::Appending,
                FileEvent::<D>::Appended,
            );
            &&& begun.action == ActionView::CreateFolder("logs"@)
            &&& begun.phase is Folder
            &&& begun.file.log_file is None && !begun.file.attempt_creation
            &&& first.action == ActionView::CreateFile("logs/"@ + stamp + ".log"@)
            &&& first.phase == (PhaseView::Naming { stamp, number: 0 })
            &&& first.file == begun.file
            &&& taken.action == ActionView::CreateFile(
                "logs/"@ + stamp + "_"@ + text::decimal(number + 1) + ".log"@,
            )
            &&& taken.phase == (PhaseView::Naming { stamp, number: number + 1 })
            &&& taken.file == begun.file
            &&& created.action == ActionView::Append(shown)
            &&& created.phase is Appending
            &&& created.file.log_file == Some(device) && !created.file.attempt_creation
            &&& done.action is Done
            &&& done.phase is Finished
            &&& done.file == created.file
        }),
{
}

/// The name of a log file is made of the folder, the time and, from the second
/// name on, the number of names that were taken.
pub proof fn names_hold_time_and_number(stamp: Seq<char>, number: nat)
    ensures
        output::file_name(stamp, 0) == "logs/"@ + stamp + ".log"@,
        number > 0 ==> output::file_name(stamp, number) == "logs/"@ + stamp + "_"@ + text::decimal(
            number,
        ) + ".log"@,
{
}

/// A message that comes to a closed log file is dropped without a word.
pub proof fn closed_files_take_nothing<D>(
    file: SharedLoggerData<D>,
    shown: Seq<u8>,
    stamp: Seq<char>,
)
    requires
        file.log_file is None,
        !file.attempt_creation,
    ensures
        ({
            let step = output::step(shown, stamp, file, PhaseView::Start, FileEvent::<D>::Begin);
            &&& step.action is Done
            &&& step.phase is Finished
            &&& step.file == file
        }),
{
}

/// An error with the log file ends the work, and is reported by saying what
/// could not be done, and why. The log file is then left without a device.
pub proof fn failures_are_reported<D>(
    file: SharedLoggerData<D>,
    shown: Seq<u8>,
    stamp: Seq<char>,
    number: nat,
    error: ErrorReport,
)
    ensures
        ({
            let folder = output::step(
                shown,
                stamp,
                file,
                PhaseView::Folder,
                FileEvent::<D>::FolderFailed(error),
            );
            let created = output::step(
                shown,
                stamp,
                file,
                PhaseView::Naming { stamp, number },
                FileEvent::<D>::FileFailed(error),
            );
            let written = output::step(
                shown,
                stamp,
                file,
                PhaseView::Appending,
                FileEvent::<D>::AppendFailed(error),
            );
            let flushed = output::flush_step(file, FlushEvent::Failed(error));
            let closed = SharedLoggerData {
                attempt_creation: file.attempt_creation,
                log_file: None::<D>,
            };
            &&& folder.action == ActionView::Report(
                "Error while creating folder structure for log files: "@ + error.described(),
            )
            &&& folder.phase is Finished && folder.file == file
            &&& created.action == ActionView::Report(
                "Error while creating log file: "@ + error.described(),
            )
            &&& created.phase is Finished && created.file == closed
            &&& written.action == ActionView::Report(
                "Cannot write to log file: "@ + error.described(),
            )
            &&& written.phase is Finished && written.file == closed
            &&& flushed.1 == ActionView::Report("Cannot flush log file: "@ + error.described())
            &&& flushed.0 == closed
        }),
{
}

/// A report names the error, and each of its sources on a line of its own, in
/// the order of the chain and without a limit.
pub proof fn reports_name_all_causes(error: ErrorReport, longer: ErrorReport, source: String)
    requires
        longer.message == error.message,
        longer.sources@ == error.sources@.push(source),
    ensures
        error.sources@.len() == 0 ==> error.described() == "Error: "@ + error.message@,
        longer.described() == error.described() + "\nCaused by: "@ + source@,
{
    assert(longer.sources@.drop_last() =~= error.sources@);
    let start = "Error: "@ + error.message@;
    let causes = message::causes(error.sources@);
    assert(start + (causes + "\nCaused by: "@ + source@) =~= start + causes + "\nCaused by: "@
        + source@);
    assert(start + Seq::<char>::empty() =~= start);
}

/// Flushing flushes the device, if there is one, and changes nothing as long as
/// that succeeds.
pub proof fn flushing_flushes_the_device<D>(file: SharedLoggerData<D>)
    ensures
        output::flush_step(file, FlushEvent::Begin) == (
            file,
            if file.log_file is Some {
                ActionView::Flush
            } else {
                ActionView::Done
            },
        ),
        output::flush_step(file, FlushEvent::Flushed) == (file, ActionView::Done),
{
}

/// A step can be taken as soon as the time can be written that it writes down:
/// the timestamp of a message that is appended now, or the date in the name of a
/// new log file. Otherwise only the number of a name sets a limit.
pub proof fn steps_wait_for_nothing_else<D>(
    file: SharedLoggerData<D>,
    phase: PhaseView,
    event: FileEvent<D>,
    now: &Snapshot,
)
    requires
        phase.awaits(event),
    ensures
        output::step_fits(file, phase, event, now) <==> {
            &&& phase is Start && file.log_file is Some || event is FileCreated
                ==> now.time.valid()
            &&& event is FolderReady ==> now.date.valid()
            &&& event is FileExists ==> phase->Naming_number < usize::MAX
        },
{
}

/// In each phase exactly those events are awaited that can come of its action.
pub proof fn phases_await_what_comes_of_their_action<D>(phase: PhaseView, event: FileEvent<D>)
    ensures
        phase.awaits(event) <==> match event {
            FileEvent::Begin => phase is Start,
            FileEvent::FolderReady => phase is Folder,
            FileEvent::FolderFailed(_) => phase is Folder,
            FileEvent::FileCreated(_) => phase is Naming,
            FileEvent::FileExists => phase is Naming,
            FileEvent::FileFailed(_) => phase is Naming,
            FileEvent::Appended => phase is Appending,
            FileEvent::AppendFailed(_) => phase is Appending,
        },
{
}

/// The actions and phases mean what they hold.
pub proof fn actions_mean_what_they_hold(
    action: FileAction,
    flush: FlushAction,
    phase: FilePhase,
)
    ensures
        action@ == match action {
            FileAction::CreateFolder(path) => ActionView::CreateFolder(path@),
            FileAction::CreateFile(path) => ActionView::CreateFile(path@),
            FileAction::Append(shown) => ActionView::Append(shown@),
            FileAction::Report(line) => ActionView::Report(line@),
            FileAction::Done => ActionView::Done,
        },
        flush@ == match flush {
            FlushAction::Flush => ActionView::Flush,
            FlushAction::Report(line) => ActionView::Report(line@),
            FlushAction::Done => ActionView::Done,
        },
        phase@ == match phase {
            FilePhase::Start => PhaseView::Start,
            FilePhase::Folder => PhaseView::Folder,
            FilePhase::Naming { stamp, number } => PhaseView::Naming {
                stamp: stamp@,
                number: number as nat,
            },
            FilePhase::Appending => PhaseView::Appending,
            FilePhase::Finished => PhaseView::Finished,
        },
{
}

/// As long as the device works, every message that goes to the log file is
/// written to it in full, and the log file stays as it is.
pub proof fn open_files_get_every_message<D>(
    file: SharedLoggerData<D>,
    shown: Seq<u8>,
    stamp: Seq<char>,
)
    requires
        file.log_file is Some,
    ensures
        ({
            let begun = output::step(shown, stamp, file, PhaseView::Start, FileEvent::<D>::Begin);
            let done = output::step(
                shown,
                stamp,
                begun.file,
                begun.phase,
                FileEvent::<D>::Appended,
            );
            &&& begun.action == ActionView::Append(shown)
            &&& done.action is Done
            &&& done.file == file
        }),
{
}

/// How many steps the work on a message can still take, when no name is taken.
pub open spec fn steps_left(phase: PhaseView) -> nat {
    match phase {
        PhaseView::Start => 4,
        PhaseView::Folder => 3,
        PhaseView::Naming { .. } => 2,
        PhaseView::Appending => 1,
        PhaseView::Finished => 0,
    }
}

/// The work on a message comes to an end: every step brings the end nearer,
/// except when a name is taken, and then the next name is tried. The action of a
/// step is always the one that the new phase waits for, and only an action that
/// nothing comes of ends the work.
pub proof fn work_comes_to_an_end<D>(
    file: SharedLoggerData<D>,
    shown: Seq<u8>,
    stamp: Seq<char>,
    phase: PhaseView,
    event: FileEvent<D>,
)
    requires
        phase.awaits(event),
    ensures
        ({
            let next = output::step(shown, stamp, file, phase, event);
            &&& if event is FileExists {
                next.phase == (PhaseView::Naming {
                    stamp: phase->Naming_stamp,
                    number: phase->Naming_number + 1,
                })
            } else {
                steps_left(next.phase) < steps_left(phase)
            }
            &&& next.phase is Folder <==> next.action is CreateFolder
            &&& next.phase is Naming <==> next.action is CreateFile
            &&& next.phase is Appending <==> next.action is Append
            &&& next.phase is Finished <==> next.action is Done || next.action is Report
        }),
{
}

/// The state of the work on a log file after so many names were found to be
/// taken.
pub open spec fn after_taken_names<D>(
    shown: Seq<u8>,
    stamp: Seq<char>,
    file: SharedLoggerData<D>,
    taken: nat,
) -> Step<D>
    decreases taken,
{
    if taken == 0 {
        output::step(shown, stamp, file, PhaseView::Folder, FileEvent::<D>::FolderReady)
    } else {
        let last = after_taken_names(shown, stamp, file, (taken - 1) as nat);
        output::step(shown, stamp, last.file, last.phase, FileEvent::<D>::FileExists)
    }
}

/// While names are taken, the names with increasing numbers are tried one after
/// the other.
pub proof fn names_are_tried_in_order<D>(
    shown: Seq<u8>,
    stamp: Seq<char>,
    file: SharedLoggerData<D>,
    taken: nat,
)
    ensures
        after_taken_names(shown, stamp, file, taken) == (Step {
            file,
            phase: PhaseView::Naming { stamp, number: taken },
            action: ActionView::CreateFile(output::file_name(stamp, taken)),
        }),
    decreases taken,
{
    if taken > 0 {
        names_are_tried_in_order(shown, stamp, file, (taken - 1) as nat);
    }
}

proof fn decimal_is_injective(m: nat, n: nat)
    requires
        text::decimal(m) == text::decimal(n),
    ensures
        m == n,
    decreases m,
{
    let a = text::decimal(m);
    let b = text::decimal(n);
    decimal_is_not_empty(m / 10);
    decimal_is_not_empty(n / 10);
    assert(a.last() == text::digit(m % 10) && b.last() == text::digit(n % 10));
    if m >= 10 && n >= 10 {
        assert(a.drop_last() =~= text::decimal(m / 10));
        assert(b.drop_last() =~= text::decimal(n / 10));
        decimal_is_injective(m / 10, n / 10);
    }
}

proof fn decimal_is_not_empty(n: nat)
    ensures
        text::decimal(n).len() > 0,
{
}

/// No name is tried twice: different numbers give different names.
pub proof fn file_names_are_distinct(stamp: Seq<char>, m: nat, n: nat)
    requires
        m != n,
    ensures
        output::file_name(stamp, m) != output::file_name(stamp, n),
{
    reveal_strlit("_");
    let a = output::file_name(stamp, m);
    let b = output::file_name(stamp, n);
    let start = "logs/"@ + stamp;
    if a == b {
        if m == 0 || n == 0 {
            decimal_is_not_empty(m);
            decimal_is_not_empty(n);
            assert(a.len() == b.len());
        } else {
            let from = start.len() + 1;
            let end = a.len() - ".log"@.len();
            assert(a.subrange(from as int, end) =~= text::decimal(m));
            assert(b.subrange(from as int, end) =~= text::decimal(n));
            decimal_is_injective(m, n);
        }
    }
}

} // verus!
