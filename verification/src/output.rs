//! What a logger does with a message, step by step.
//!
//! Writing to the console, and creating, writing and flushing a log file, is
//! left to the surroundings. A logger decides what is to be done next from what
//! came of the last action.

use crate::filter::LogFilter;
use crate::logger::Logger;
use crate::message::{ErrorReport, Message};
use crate::render::Snapshot;
use crate::severity::{Severity, Target};
use crate::store::{FileStore, LoggerSettings, SettingsStore, SharedLoggerData};
use crate::text;
use crate::text::decimal_text;
use vstd::prelude::*;

verus! {

/// The folder that log files are created in.
pub const LOG_FOLDER: &'static str = "logs";

/// The two streams of the console.
#[derive(Copy, Clone, PartialEq, Eq, Structural, Debug)]
pub enum Stream {
    Stdout,
    Stderr,
}

impl Stream {
    /// The stream for messages of a severity: errors have one of their own.
    pub open spec fn of(severity: Severity) -> Stream {
        if severity.rank() >= Severity::Error.rank() {
            Stream::Stderr
        } else {
            Stream::Stdout
        }
    }
}

/// Which output of a message comes next.
#[derive(Copy, Clone, PartialEq, Eq, Structural, Debug)]
pub enum LogStage {
    /// The console, which comes first.
    Console,
    /// The log file.
    File,
}

/// What is to be done next for a message.
#[derive(Copy, Clone, PartialEq, Eq, Structural, Debug)]
pub enum LogAction {
    /// Print the message to the console, whether or not that succeeds.
    Print,
    /// Write the message to the log file.
    Deliver,
    /// Nothing: the work on the message is done.
    Done,
}

/// What is to be done next for a message that goes to the log file.
pub enum FileAction {
    /// Create a folder, unless it exists.
    CreateFolder(&'static str),
    /// Create a file that does not exist yet.
    CreateFile(String),
    /// Write text to the log file.
    Append(Vec<u8>),
    /// Print a line about an error, which ends the work on the message.
    Report(String),
    /// Nothing: the work on the message is done.
    Done,
}

/// What came of the last action on the log file.
pub enum FileEvent<D> {
    /// There was none yet: the message has just come in.
    Begin,
    /// The folder exists.
    FolderReady,
    /// The folder could not be created.
    FolderFailed(ErrorReport),
    /// The file was created, and can be written to.
    FileCreated(D),
    /// There is already a file of that name.
    FileExists,
    /// The file could not be created for another reason.
    FileFailed(ErrorReport),
    /// The text was written to the log file.
    Appended,
    /// The text could not be written to the log file.
    AppendFailed(ErrorReport),
}

/// How far the work on a message that goes to the log file has come.
pub enum FilePhase {
    /// The message has just come in.
    Start,
    /// The folder for log files is being created.
    Folder,
    /// A log file is being created. So many names were taken already.
    Naming { stamp: String, number: usize },
    /// The message is being written to the log file.
    Appending,
    /// The work on the message is done.
    Finished,
}

/// What came of flushing the log file.
pub enum FlushEvent {
    /// Nothing yet: the log file is to be flushed.
    Begin,
    /// The log file was flushed.
    Flushed,
    /// The log file could not be flushed.
    Failed(ErrorReport),
}

/// What is to be done next to flush the log file.
pub enum FlushAction {
    /// Flush the device that messages are written to.
    Flush,
    /// Print a line about an error, which ends the work.
    Report(String),
    /// Nothing: the work is done.
    Done,
}

/// The actions on the log file by their meaning.
pub enum ActionView {
    CreateFolder(Seq<char>),
    CreateFile(Seq<char>),
    Append(Seq<u8>),
    Flush,
    Report(Seq<char>),
    Done,
}

/// The phases of the work on the log file by their meaning.
pub enum PhaseView {
    Start,
    Folder,
    Naming { stamp: Seq<char>, number: nat },
    Appending,
    Finished,
}

impl View for FileAction {
    type V = ActionView;

    open spec fn view(&self) -> ActionView {
        match self {
            FileAction::CreateFolder(path) => ActionView::CreateFolder(path@),
            FileAction::CreateFile(path) => ActionView::CreateFile(path@),
            FileAction::Append(shown) => ActionView::Append(shown@),
            FileAction::Report(line) => ActionView::Report(line@),
            FileAction::Done => ActionView::Done,
        }
    }
}

impl View for FlushAction {
    type V = ActionView;

    open spec fn view(&self) -> ActionView {
        match self {
            FlushAction::Flush => ActionView::Flush,
            FlushAction::Report(line) => ActionView::Report(line@),
            FlushAction::Done => ActionView::Done,
        }
    }
}

impl View for FilePhase {
    type V = PhaseView;

    open spec fn view(&self) -> PhaseView {
        match self {
            FilePhase::Start => PhaseView::Start,
            FilePhase::Folder => PhaseView::Folder,
            FilePhase::Naming { stamp, number } => PhaseView::Naming {
                stamp: stamp@,
                number: *number as nat,
            },
            FilePhase::Appending => PhaseView::Appending,
            FilePhase::Finished => PhaseView::Finished,
        }
    }
}

impl PhaseView {
    /// Whether the event can come of what is done in this phase.
    pub open spec fn awaits<D>(self, event: FileEvent<D>) -> bool {
        match self {
            PhaseView::Start => event is Begin,
            PhaseView::Folder => event is FolderReady || event is FolderFailed,
            PhaseView::Naming { .. } => event is FileCreated || event is FileExists
                || event is FileFailed,
            PhaseView::Appending => event is Appended || event is AppendFailed,
            PhaseView::Finished => false,
        }
    }
}

/// The last step for a message, once the filter gave its answer for the file.
pub open spec fn file_decision(accepted: bool) -> (Option<LogStage>, LogAction) {
    if accepted {
        (None, LogAction::Deliver)
    } else {
        (None, LogAction::Done)
    }
}

/// Whether a step is what an answer of the filter leads to, when the message
/// comes to the log file.
pub open spec fn file_stage<F: LogFilter>(
    settings: LoggerSettings<F>,
    message: Message<'_>,
    next: (Option<LogStage>, LogAction),
) -> bool {
    exists|accepted: bool|
        {
            &&& #[trigger] settings.filter.may_answer(Target::File, message, accepted)
            &&& next == file_decision(accepted)
        }
}

/// Whether a step is what the answers of the filter lead to, when the message
/// comes to the console: it is printed and then comes to the log file, or comes
/// to the log file at once.
pub open spec fn console_stage<F: LogFilter>(
    settings: LoggerSettings<F>,
    message: Message<'_>,
    next: (Option<LogStage>, LogAction),
) -> bool {
    exists|accepted: bool|
        {
            &&& #[trigger] settings.filter.may_answer(Target::Stdout, message, accepted)
            &&& if accepted {
                next == (Some(LogStage::File), LogAction::Print)
            } else {
                file_stage(settings, message, next)
            }
        }
}

/// Whether a step is what the answers of the filter lead to: which output comes
/// next, and what is to be done now.
pub open spec fn log_step<F: LogFilter>(
    settings: LoggerSettings<F>,
    message: Message<'_>,
    stage: LogStage,
    next: (Option<LogStage>, LogAction),
) -> bool {
    match stage {
        LogStage::Console => console_stage(settings, message, next),
        LogStage::File => file_stage(settings, message, next),
    }
}

/// The name of a log file, when so many names were taken already.
pub open spec fn file_name(stamp: Seq<char>, number: nat) -> Seq<char> {
    if number == 0 {
        "logs/"@ + stamp + ".log"@
    } else {
        "logs/"@ + stamp + "_"@ + text::decimal(number) + ".log"@
    }
}

/// What one step of the work on the log file leads to: the state of the log
/// file, the phase and the next action.
pub struct Step<D> {
    pub file: SharedLoggerData<D>,
    pub phase: PhaseView,
    pub action: ActionView,
}

/// Writing a text to the log file, if there is one.
pub open spec fn append_step<D>(shown: Seq<u8>, file: SharedLoggerData<D>) -> Step<D> {
    if file.log_file is Some {
        Step { file, phase: PhaseView::Appending, action: ActionView::Append(shown) }
    } else {
        Step { file, phase: PhaseView::Finished, action: ActionView::Done }
    }
}

/// One step of the work on a message for the log file: `shown` is the text of
/// the message, and `stamp` the time in the name of a new log file.
pub open spec fn step<D>(
    shown: Seq<u8>,
    stamp: Seq<char>,
    file: SharedLoggerData<D>,
    phase: PhaseView,
    event: FileEvent<D>,
) -> Step<D> {
    match phase {
        PhaseView::Start => if file.log_file is None && file.attempt_creation {
            Step {
                file: SharedLoggerData { attempt_creation: false, log_file: None },
                phase: PhaseView::Folder,
                action: ActionView::CreateFolder(LOG_FOLDER@),
            }
        } else {
            append_step(shown, file)
        },
        PhaseView::Folder => match event {
            FileEvent::FolderFailed(error) => Step {
                file,
                phase: PhaseView::Finished,
                action: ActionView::Report(
                    "Error while creating folder structure for log files: "@ + error.described(),
                ),
            },
            _ => Step {
                file,
                phase: PhaseView::Naming { stamp, number: 0 },
                action: ActionView::CreateFile(file_name(stamp, 0)),
            },
        },
        PhaseView::Naming { stamp, number } => match event {
            FileEvent::FileCreated(device) => append_step(
                shown,
                SharedLoggerData { log_file: Some(device), ..file },
            ),
            FileEvent::FileFailed(error) => Step {
                file: SharedLoggerData { log_file: None, ..file },
                phase: PhaseView::Finished,
                action: ActionView::Report(
                    "Error while creating log file: "@ + error.described(),
                ),
            },
            _ => Step {
                file,
                phase: PhaseView::Naming { stamp, number: number + 1 },
                action: ActionView::CreateFile(file_name(stamp, number + 1)),
            },
        },
        PhaseView::Appending => match event {
            FileEvent::AppendFailed(error) => Step {
                file: SharedLoggerData { log_file: None, ..file },
                phase: PhaseView::Finished,
                action: ActionView::Report("Cannot write to log file: "@ + error.described()),
            },
            _ => Step { file, phase: PhaseView::Finished, action: ActionView::Done },
        },
        PhaseView::Finished => Step { file, phase, action: ActionView::Done },
    }
}

/// What flushing the log file leads to: a device that fails is given up.
pub open spec fn flush_step<D>(file: SharedLoggerData<D>, event: FlushEvent) -> (
    SharedLoggerData<D>,
    ActionView,
) {
    match event {
        FlushEvent::Begin => if file.log_file is Some {
            (file, ActionView::Flush)
        } else {
            (file, ActionView::Done)
        },
        FlushEvent::Flushed => (file, ActionView::Done),
        FlushEvent::Failed(error) => (
            SharedLoggerData { log_file: None, ..file },
            ActionView::Report("Cannot flush log file: "@ + error.described()),
        ),
    }
}

/// Whether a step can be taken: the time that it writes down can be written, and
/// the next number in the name of a log file is not too large.
pub open spec fn step_fits<D>(
    file: SharedLoggerData<D>,
    phase: PhaseView,
    event: FileEvent<D>,
    now: &Snapshot,
) -> bool {
    match phase {
        PhaseView::Start => file.log_file is Some ==> now.time.valid(),
        PhaseView::Folder => event is FolderReady ==> now.date.valid(),
        PhaseView::Naming { number, .. } => {
            &&& event is FileCreated ==> now.time.valid()
            &&& event is FileExists ==> number < usize::MAX
        },
        _ => true,
    }
}

/// The name of a log file, when so many names were taken already.
pub fn file_name_text(stamp: &str, number: usize) -> (name: String)
    ensures
        name@ == file_name(stamp@, number as nat),
{
    let mut name = "logs/".to_owned();
    name.append(stamp);
    if number > 0 {
        name.append("_");
        name.append(decimal_text(number as u64).as_str());
    }
    name.append(".log");
    name
}

/// A line about an error: what failed, and how.
fn report(failure: &str, error: &ErrorReport) -> (line: String)
    ensures
        line@ == failure@ + error.described(),
{
    let mut line = failure.to_owned();
    line.append(error.gen_error_str().as_str());
    line
}

impl Logger {
    /// The text of a message for one output.
    fn shown_text<F>(
        &self,
        store: &SettingsStore<F>,
        message: &Message<'_>,
        pretty: bool,
        now: &Snapshot,
    ) -> (shown: Vec<u8>)
        requires
            self.has_settings(*store),
            now.valid(pretty),
        ensures
            shown@ == self.text_of(self.settings_in(*store), *message, pretty, now),
    {
        let mut shown: Vec<u8> = Vec::new();
        self.do_write(store, &mut shown, message, pretty, now);
        shown
    }

    /// What is printed to the console for a message, and to which stream: errors
    /// have one of their own.
    pub fn write_std<F>(
        &self,
        store: &SettingsStore<F>,
        message: &Message<'_>,
        pretty: bool,
        now: &Snapshot,
    ) -> (printed: (Stream, Vec<u8>))
        requires
            self.has_settings(*store),
            now.valid(pretty),
        ensures
            printed.0 == Stream::of(message.severity),
            printed.1@ == self.text_of(self.settings_in(*store), *message, pretty, now),
    {
        let shown = self.shown_text(store, message, pretty, now);
        if message.severity >= Severity::Error {
            (Stream::Stderr, shown)
        } else {
            (Stream::Stdout, shown)
        }
    }

    /// Logs a message: what the filter lets through to the console is printed,
    /// and then what it lets through to the file is written to the log file.
    ///
    /// Returns which output comes next, unless this was the last one, and what
    /// is to be done now.
    pub fn log<F: LogFilter>(
        &self,
        store: &SettingsStore<F>,
        message: &Message<'_>,
        stage: LogStage,
    ) -> (next: (Option<LogStage>, LogAction))
        requires
            self.has_settings(*store),
            stage is Console ==> self.settings_in(*store).filter.can_answer(
                Target::Stdout,
                *message,
            ),
            self.settings_in(*store).filter.can_answer(Target::File, *message),
        ensures
            log_step(self.settings_in(*store), *message, stage, next),
    {
        if stage == LogStage::Console {
            if self.is_enabled(store, Target::Stdout, message) {
                return (Some(LogStage::File), LogAction::Print);
            }
        }
        if self.is_enabled(store, Target::File, message) {
            (None, LogAction::Deliver)
        } else {
            (None, LogAction::Done)
        }
    }

    /// Writes a message to the log file, only if there is one.
    pub fn write_file<D, F>(
        &self,
        store: &SettingsStore<F>,
        files: &FileStore<D>,
        message: &Message<'_>,
        now: &Snapshot,
    ) -> (next: (FilePhase, FileAction))
        requires
            self.has_settings(*store),
            self.has_file(*files),
            self.file_in(*files).log_file is Some ==> now.time.valid(),
        ensures
            ({
                let step = append_step(
                    self.text_of(self.settings_in(*store), *message, false, now),
                    self.file_in(*files),
                );
                next.0@ == step.phase && next.1@ == step.action
            }),
    {
        if files.shared[self.shared].log_file.is_some() {
            (FilePhase::Appending, FileAction::Append(self.shown_text(store, message, false, now)))
        } else {
            (FilePhase::Finished, FileAction::Done)
        }
    }

    /// Creates a log file: first the folder for it, then the file itself, under
    /// the first name that is not taken. Once the file is there, the message is
    /// written to it.
    pub fn create_log_file<D, F>(
        &self,
        store: &SettingsStore<F>,
        files: &mut FileStore<D>,
        message: &Message<'_>,
        phase: FilePhase,
        event: FileEvent<D>,
        now: &Snapshot,
    ) -> (next: (FilePhase, FileAction))
        requires
            self.has_settings(*store),
            self.has_file(*old(files)),
            phase is Folder || phase is Naming,
            phase@.awaits(event),
            step_fits(self.file_in(*old(files)), phase@, event, now),
        ensures
            ({
                let step = step(
                    self.text_of(self.settings_in(*store), *message, false, now),
                    now.date.stamp(),
                    self.file_in(*old(files)),
                    phase@,
                    event,
                );
                &&& next.0@ == step.phase
                &&& next.1@ == step.action
                &&& self.only_file_changes(*old(files), *final(files), step.file)
            }),
    {
        match (phase, event) {
            (FilePhase::Folder, FileEvent::FolderFailed(error)) => {
                let line = report("Error while creating folder structure for log files: ", &error);
                (FilePhase::Finished, FileAction::Report(line))
            },
            (FilePhase::Naming { stamp, number }, FileEvent::FileExists) => {
                // Keep trying increasing log file indexes until we find a free
                // file name
                let number: usize = number + 1;
                let name = file_name_text(stamp.as_str(), number);
                (FilePhase::Naming { stamp, number }, FileAction::CreateFile(name))
            },
            (FilePhase::Naming { .. }, FileEvent::FileCreated(device)) => {
                files.shared[self.shared].log_file = Some(device);
                self.write_file(store, files, message, now)
            },
            (FilePhase::Naming { .. }, FileEvent::FileFailed(error)) => {
                files.shared[self.shared].log_file = None;
                let line = report("Error while creating log file: ", &error);
                (FilePhase::Finished, FileAction::Report(line))
            },
            _ => {
                // The folder is there
                let stamp = now.date.stamp_text();
                let name = file_name_text(stamp.as_str(), 0);
                (FilePhase::Naming { stamp, number: 0 }, FileAction::CreateFile(name))
            },
        }
    }

    /// Whether the next step in bringing a message to the log file can be taken.
    pub fn can_log_to_file<D>(
        &self,
        files: &FileStore<D>,
        phase: &FilePhase,
        event: &FileEvent<D>,
        now: &Snapshot,
    ) -> (can: bool)
        requires
            self.has_file(*files),
        ensures
            can == step_fits(self.file_in(*files), phase@, *event, now),
    {
        match (phase, event) {
            (FilePhase::Start, _) => {
                files.shared[self.shared].log_file.is_none() || now.time.is_valid()
            },
            (FilePhase::Folder, FileEvent::FolderReady) => now.date.is_valid(),
            (FilePhase::Naming { .. }, FileEvent::FileCreated(_)) => now.time.is_valid(),
            (FilePhase::Naming { number, .. }, FileEvent::FileExists) => *number < usize::MAX,
            (_, _) => true,
        }
    }

    /// Brings a message to the log file: decides what is to be done next, from
    /// how far the work on the message has come and what came of the last
    /// action.
    pub fn log_to_file<D, F>(
        &self,
        store: &SettingsStore<F>,
        files: &mut FileStore<D>,
        message: &Message<'_>,
        phase: FilePhase,
        event: FileEvent<D>,
        now: &Snapshot,
    ) -> (next: (FilePhase, FileAction))
        requires
            self.has_settings(*store),
            self.has_file(*old(files)),
            phase@.awaits(event),
            step_fits(self.file_in(*old(files)), phase@, event, now),
        ensures
            ({
                let step = step(
                    self.text_of(self.settings_in(*store), *message, false, now),
                    now.date.stamp(),
                    self.file_in(*old(files)),
                    phase@,
                    event,
                );
                &&& next.0@ == step.phase
                &&& next.1@ == step.action
                &&& self.only_file_changes(*old(files), *final(files), step.file)
            }),
    {
        match (phase, event) {
            (FilePhase::Start, _) => {
                let data = &files.shared[self.shared];
                // Only if we have no output device...
                if data.log_file.is_none() && data.attempt_creation {
                    files.shared[self.shared].attempt_creation = false;
                    (FilePhase::Folder, FileAction::CreateFolder(LOG_FOLDER))
                } else {
                    self.write_file(store, files, message, now)
                }
            },
            (FilePhase::Appending, FileEvent::AppendFailed(error)) => {
                // Write error, handle is probably dead, invalidate it
                files.shared[self.shared].log_file = None;
                let line = report("Cannot write to log file: ", &error);
                (FilePhase::Finished, FileAction::Report(line))
            },
            (FilePhase::Folder, event) => {
                self.create_log_file(store, files, message, FilePhase::Folder, event, now)
            },
            (FilePhase::Naming { stamp, number }, event) => {
                self.create_log_file(
                    store,
                    files,
                    message,
                    FilePhase::Naming { stamp, number },
                    event,
                    now,
                )
            },
            (_, _) => (FilePhase::Finished, FileAction::Done),
        }
    }

    /// Flushes the log file. This won't flush the console (unless it was
    /// specifically registered as a log file for some reason).
    pub fn flush<D>(&self, files: &mut FileStore<D>, event: FlushEvent) -> (action: FlushAction)
        requires
            self.has_file(*old(files)),
        ensures
            action@ == flush_step(self.file_in(*old(files)), event).1,
            self.only_file_changes(
                *old(files),
                *final(files),
                flush_step(self.file_in(*old(files)), event).0,
            ),
    {
        match event {
            FlushEvent::Begin => {
                if files.shared[self.shared].log_file.is_some() {
                    FlushAction::Flush
                } else {
                    FlushAction::Done
                }
            },
            FlushEvent::Flushed => FlushAction::Done,
            FlushEvent::Failed(error) => {
                // Flush error, handle is probably dead so invalidate it
                files.shared[self.shared].log_file = None;
                FlushAction::Report(report("Cannot flush log file: ", &error))
            },
        }
    }
}

} // verus!
