//! The text of a message in the log.
//!
//! A message takes one line, and so does its error and each source of that
//! error. Every line starts with the same prefix: the time, the chain of logger
//! prefixes, the thread, the module and the severity. Line breaks inside the
//! prefix are dropped; those inside a message or an error are marked.

use crate::clock::{ClockTime, UtcTime};
use crate::lines;
use crate::logger::Logger;
use crate::message::{ErrorReport, Message, PrefixData};
use crate::newline;
use crate::newline::NewlineReplacer;
use crate::store::{LoggerSettings, SettingsStore};
use crate::style::{Color, Style};
use crate::text;
use crate::text::{decimal_text, push_text};
use vstd::prelude::*;

verus! {

/// How many sources of an error are written at most, and how many prefixes may
/// stand before the last one that is written.
pub const MAX_RECURSION_DEPTH: usize = 256;

/// What stands for a line break inside a message or an error.
pub const NEWLINE_MARKER: &'static str = "\n>";

/// What stands for the name of a thread that has none.
pub const UNNAMED_THREAD: &'static str = "*unnamed_thread*";

/// What follows a chain of prefixes that was too long.
pub const PREFIX_CHAIN_TRUNCATED: &'static str = "*prefix chain truncated*";

/// What follows a chain of errors that was too long.
pub const ERROR_CHAIN_TRUNCATED: &'static str = "*error chain truncated*";

/// What is read from the surroundings when a message is written.
pub struct Snapshot {
    /// The name of the current thread, if it has one.
    pub thread: Option<String>,
    /// The calendar time, which is shown on the console.
    pub date: UtcTime,
    /// The time of the system clock, which is written to the file.
    pub time: ClockTime,
}

impl Snapshot {
    /// Whether the time that the output shows can be written.
    pub open spec fn valid(self, pretty: bool) -> bool {
        if pretty {
            self.date.valid()
        } else {
            self.time.valid()
        }
    }

    /// Whether the time that the output shows can be written.
    pub fn can_be_shown(&self, pretty: bool) -> (can: bool)
        ensures
            can == self.valid(pretty),
    {
        if pretty {
            self.date.is_valid()
        } else {
            self.time.is_valid()
        }
    }
}

/// What all lines of one message have in common.
pub struct PrefixTempData<'a> {
    pub show_thread: bool,
    pub show_module: bool,
    pub now: &'a Snapshot,
}

impl PrefixTempData<'_> {
    /// The name of the thread, or what stands for a missing one.
    pub open spec fn thread_name(self) -> Seq<char> {
        match self.now.thread {
            Some(name) => name@,
            None => UNNAMED_THREAD@,
        }
    }
}

/// A text with its line breaks dropped.
pub open spec fn dropped_breaks(line: Seq<char>) -> Seq<char> {
    newline::broken_by(line, ""@)
}

/// A text with its line breaks marked.
pub open spec fn marked_breaks(line: Seq<char>) -> Seq<char> {
    newline::broken_by(line, NEWLINE_MARKER@)
}

/// One prefix of the chain.
pub open spec fn prefix_part(prefix: PrefixData, pretty: bool) -> Seq<char> {
    if pretty {
        " -> "@ + dropped_breaks(prefix.look().painted(prefix.string@))
    } else {
        "["@ + dropped_breaks(prefix.string@) + "]"@
    }
}

/// All prefixes of a chain, one after the other.
pub open spec fn prefix_parts(prefixes: Seq<PrefixData>, pretty: bool) -> Seq<char>
    decreases prefixes.len(),
{
    if prefixes.len() == 0 {
        Seq::empty()
    } else {
        prefix_parts(prefixes.drop_last(), pretty) + prefix_part(prefixes.last(), pretty)
    }
}

/// What is written after a chain of prefixes that was too long.
pub open spec fn prefix_notice(pretty: bool) -> Seq<char> {
    if pretty {
        " -> "@ + PREFIX_CHAIN_TRUNCATED@
    } else {
        "["@ + PREFIX_CHAIN_TRUNCATED@ + "]"@
    }
}

/// A chain of prefixes as it is written: in full, or, if it is too long, cut
/// off and followed by a notice.
pub open spec fn prefix_chain(prefixes: Seq<PrefixData>, pretty: bool) -> Seq<char> {
    if prefixes.len() <= MAX_RECURSION_DEPTH {
        prefix_parts(prefixes, pretty)
    } else {
        prefix_parts(prefixes.take(MAX_RECURSION_DEPTH + 1), pretty) + prefix_notice(pretty)
    }
}

/// The style of the module path and the line number.
pub open spec fn location_look() -> Style {
    Style { foreground: Some(Color::Black), background: Some(Color::White), is_bold: false }
}

/// The time at the start of a line.
pub open spec fn time_part(pretty: bool, temp: PrefixTempData<'_>) -> Seq<char> {
    if pretty {
        temp.now.date.clock()
    } else {
        "["@ + temp.now.time.timestamp() + "]"@
    }
}

/// The name of the thread, if it is to be shown.
pub open spec fn thread_part(pretty: bool, temp: PrefixTempData<'_>) -> Seq<char> {
    if !temp.show_thread {
        Seq::empty()
    } else if pretty {
        " -> thread `"@ + dropped_breaks(temp.thread_name()) + "`"@
    } else {
        "["@ + dropped_breaks(temp.thread_name()) + "]"@
    }
}

/// The line number behind the module path, if it is known.
pub open spec fn line_part(line: Option<u32>, pretty: bool) -> Seq<char> {
    match line {
        None => Seq::empty(),
        Some(line) => if pretty {
            location_look().painted(":"@) + location_look().painted(text::decimal(line as nat))
        } else {
            ":"@ + text::decimal(line as nat)
        },
    }
}

/// The module path and the line number, if they are known and to be shown.
pub open spec fn module_part(
    message: Message<'_>,
    pretty: bool,
    temp: PrefixTempData<'_>,
) -> Seq<char> {
    match message.module {
        Some(module) => if !temp.show_module {
            Seq::empty()
        } else if pretty {
            " at "@ + dropped_breaks(location_look().painted(module@)) + line_part(
                message.line,
                pretty,
            )
        } else {
            "[at "@ + dropped_breaks(module@) + line_part(message.line, pretty) + "]"@
        },
        None => Seq::empty(),
    }
}

/// The severity at the end of the prefix.
pub open spec fn severity_part(message: Message<'_>, pretty: bool) -> Seq<char> {
    if pretty {
        " -> "@ + message.severity.look().painted(message.severity.display())
    } else {
        "["@ + message.severity.display() + "]"@
    }
}

/// What every line of a message starts with.
pub open spec fn complete_prefix(
    prefixes: Seq<PrefixData>,
    message: Message<'_>,
    pretty: bool,
    temp: PrefixTempData<'_>,
) -> Seq<char> {
    time_part(pretty, temp) + prefix_chain(prefixes, pretty) + thread_part(pretty, temp)
        + module_part(message, pretty, temp) + severity_part(message, pretty) + ": "@
}

/// What an error is called, in its color on the console.
pub open spec fn error_label(label: Seq<char>, color: Color, pretty: bool) -> Seq<char> {
    if pretty {
        (Style { foreground: Some(color), background: None, is_bold: false }).painted(label)
    } else {
        label
    }
}

/// A line about an error: what it is called, and what it displays.
pub open spec fn error_line(
    start: Seq<char>,
    label: Seq<char>,
    color: Color,
    error: Seq<char>,
    pretty: bool,
) -> Seq<char> {
    start + marked_breaks(error_label(label, color, pretty) + ": "@ + error) + "\n"@
}

/// The lines about the sources of an error.
pub open spec fn source_lines(start: Seq<char>, sources: Seq<String>, pretty: bool) -> Seq<char>
    decreases sources.len(),
{
    if sources.len() == 0 {
        Seq::empty()
    } else {
        source_lines(start, sources.drop_last(), pretty) + error_line(
            start,
            "Caused by"@,
            Color::Yellow,
            sources.last()@,
            pretty,
        )
    }
}

/// The lines about the sources of an error as they are written: all of them,
/// or, if there are too many, the first ones followed by a notice.
pub open spec fn source_chain(start: Seq<char>, sources: Seq<String>, pretty: bool) -> Seq<char> {
    if sources.len() <= MAX_RECURSION_DEPTH {
        source_lines(start, sources, pretty)
    } else {
        source_lines(start, sources.take(MAX_RECURSION_DEPTH as int), pretty)
            + ERROR_CHAIN_TRUNCATED@ + "\n"@
    }
}

/// The lines about the error of a message.
pub open spec fn error_lines(
    start: Seq<char>,
    error: Option<&ErrorReport>,
    pretty: bool,
) -> Seq<char> {
    match error {
        None => Seq::empty(),
        Some(error) => error_line(start, "Error"@, Color::Red, error.message@, pretty)
            + source_chain(start, error.sources@, pretty),
    }
}

/// What is written before a message to reset the color.
pub open spec fn color_reset(pretty: bool) -> Seq<char> {
    if pretty {
        (Style { foreground: Some(Color::White), background: None, is_bold: false }).painted(""@)
    } else {
        Seq::empty()
    }
}

/// The whole text of a message in the log, when `start` is what every line
/// starts with.
pub open spec fn rendered_from(start: Seq<char>, message: Message<'_>, pretty: bool) -> Seq<char> {
    color_reset(pretty) + start + marked_breaks(message.message@) + "\n"@ + error_lines(
        start,
        message.error,
        pretty,
    )
}

/// The whole text of a message in the log.
pub open spec fn rendered(
    prefixes: Seq<PrefixData>,
    message: Message<'_>,
    pretty: bool,
    temp: PrefixTempData<'_>,
) -> Seq<char> {
    rendered_from(complete_prefix(prefixes, message, pretty, temp), message, pretty)
}

impl<'a> PrefixTempData<'a> {
    /// What the settings of a logger ask to be shown, with what was read from
    /// the surroundings.
    pub open spec fn captured<F>(settings: LoggerSettings<F>, now: &'a Snapshot) -> Self {
        PrefixTempData {
            show_thread: settings.show_thread,
            show_module: settings.show_module,
            now,
        }
    }

    /// Joins what the logger is set to show with what was read from the
    /// surroundings.
    pub fn new<F>(logger: &Logger, store: &SettingsStore<F>, now: &'a Snapshot) -> (temp: Self)
        requires
            logger.has_settings(*store),
        ensures
            temp == Self::captured(logger.settings_in(*store), now),
    {
        let settings = &store.settings[logger.settings];
        PrefixTempData { show_thread: settings.show_thread, show_module: settings.show_module, now }
    }
}

/// Appends `line` to `device`, without its line breaks.
fn push_unbroken(device: &mut Vec<u8>, line: &str)
    ensures
        final(device)@ == old(device)@ + text::utf8(dropped_breaks(line@)),
        forall|start: Seq<u8>, written: Seq<char>|
            old(device)@ == #[trigger] (start + text::utf8(written)) ==> final(device)@ == start
                + text::utf8(written + dropped_breaks(line@)),
{
    NewlineReplacer("").write_text(device, line);
}

impl PrefixTempData<'_> {
    /// Appends the time at the start of a line.
    fn write_time(&self, device: &mut Vec<u8>, pretty: bool)
        requires
            self.now.valid(pretty),
        ensures
            final(device)@ == old(device)@ + text::utf8(time_part(pretty, *self)),
    {
        if pretty {
            push_text(device, self.now.date.clock_text().as_str());
        } else {
            push_text(device, "[");
            push_text(device, self.now.time.timestamp_text().as_str());
            push_text(device, "]");
        }
    }

    /// Appends the name of the thread, if it is to be shown.
    fn write_thread(&self, device: &mut Vec<u8>, pretty: bool)
        ensures
            final(device)@ == old(device)@ + text::utf8(thread_part(pretty, *self)),
            forall|start: Seq<u8>, written: Seq<char>|
                old(device)@ == #[trigger] (start + text::utf8(written)) ==> final(device)@ == start
                    + text::utf8(written + thread_part(pretty, *self)),
    {
        let ghost start = device@;
        if self.show_thread {
            let thread_name = match &self.now.thread {
                Some(name) => name.as_str(),
                None => UNNAMED_THREAD,
            };
            if pretty {
                push_text(device, " -> thread `");
                push_unbroken(device, thread_name);
                push_text(device, "`");
            } else {
                push_text(device, "[");
                push_unbroken(device, thread_name);
                push_text(device, "]");
            }
        } else {
            assert(device@ =~= start + text::utf8(thread_part(pretty, *self)));
        }
        proof {
            text::text_extends(start, device@, thread_part(pretty, *self));
        }
    }

    /// Appends the module path and the line number, if they are known and to be
    /// shown.
    fn write_module(
        &self,
        device: &mut Vec<u8>,
        message: &Message<'_>,
        pretty: bool,
    )
        ensures
            final(device)@ == old(device)@ + text::utf8(module_part(*message, pretty, *self)),
            forall|start: Seq<u8>, written: Seq<char>|
                old(device)@ == #[trigger] (start + text::utf8(written)) ==> final(device)@ == start
                    + text::utf8(written + module_part(*message, pretty, *self)),
    {
        let ghost start = device@;
        let ghost mut written: Seq<char> = Seq::empty();
        assert(device@ =~= start + text::utf8(written));
        if self.show_module {
            if let Some(module) = message.module {
                let style = Style {
                    foreground: Some(Color::Black),
                    background: Some(Color::White),
                    is_bold: false,
                };
                if pretty {
                    push_text(device, " at ");
                    push_unbroken(device, style.paint(module).as_str());
                    proof {
                        written = written + " at "@ + dropped_breaks(style.painted(module@));
                    }
                } else {
                    push_text(device, "[at ");
                    push_unbroken(device, module);
                    proof {
                        written = written + "[at "@ + dropped_breaks(module@);
                    }
                }
                if let Some(line) = message.line {
                    let number = decimal_text(line as u64);
                    if pretty {
                        push_text(device, style.paint(":").as_str());
                        push_text(device, style.paint(number.as_str()).as_str());
                        assert(written + style.painted(":"@) + style.painted(number@) =~= written
                            + line_part(message.line, pretty));
                    } else {
                        push_text(device, ":");
                        push_text(device, number.as_str());
                        assert(written + ":"@ + number@ =~= written + line_part(
                            message.line,
                            pretty,
                        ));
                    }
                } else {
                    assert(written =~= written + line_part(message.line, pretty));
                }
                proof {
                    written = written + line_part(message.line, pretty);
                }
                if !pretty {
                    push_text(device, "]");
                    proof {
                        written = written + "]"@;
                    }
                }
            }
        }
        assert(written =~= module_part(*message, pretty, *self));
        proof {
            text::text_extends(start, device@, module_part(*message, pretty, *self));
        }
    }
}

/// Appends the severity at the end of the prefix.
fn write_severity(device: &mut Vec<u8>, message: &Message<'_>, pretty: bool)
    ensures
        final(device)@ == old(device)@ + text::utf8(severity_part(*message, pretty)),
        forall|start: Seq<u8>, written: Seq<char>|
            old(device)@ == #[trigger] (start + text::utf8(written)) ==> final(device)@ == start
                + text::utf8(written + severity_part(*message, pretty)),
{
    let ghost start = device@;
    if pretty {
        push_text(device, " -> ");
        push_text(device, message.severity.styled().as_str());
    } else {
        push_text(device, "[");
        push_text(device, message.severity.name());
        push_text(device, "]");
    }
    proof {
        text::text_extends(start, device@, severity_part(*message, pretty));
    }
}

impl Logger {
    /// The bytes of the whole text of a message.
    pub open spec fn text_of<F>(
        self,
        settings: LoggerSettings<F>,
        message: Message<'_>,
        pretty: bool,
        now: &Snapshot,
    ) -> Seq<u8> {
        text::utf8(
            rendered(self.prefix@, message, pretty, PrefixTempData::captured(settings, now)),
        )
    }

    /// Appends the prefixes of the logger, up to the limit.
    pub fn write_prefix(&self, device: &mut Vec<u8>, pretty: bool)
        ensures
            final(device)@ == old(device)@ + text::utf8(prefix_chain(self.prefix@, pretty)),
    {
        let ghost start = device@;
        let mut depth: usize = 0;
        assert(device@ =~= start + text::utf8(Seq::empty()));
        while depth < self.prefix.len()
            invariant
                depth <= self.prefix@.len(),
                depth <= MAX_RECURSION_DEPTH,
                device@ == start + text::utf8(prefix_parts(self.prefix@.take(depth as int), pretty)),
                start == old(device)@,
            decreases self.prefix@.len() - depth,
        {
            let prefix = &self.prefix[depth];
            let ghost written = prefix_parts(self.prefix@.take(depth as int), pretty);
            if pretty {
                push_text(device, " -> ");
                push_unbroken(device, prefix.styled().as_str());
            } else {
                push_text(device, "[");
                push_unbroken(device, prefix.string.as_str());
                push_text(device, "]");
            }
            proof {
                let parts = self.prefix@.take(depth + 1);
                assert(parts.drop_last() =~= self.prefix@.take(depth as int));
                assert(parts.last() == *prefix);
                if pretty {
                    assert(written + " -> "@ + dropped_breaks(prefix.look().painted(prefix.string@))
                        =~= prefix_parts(parts, pretty));
                } else {
                    assert(written + "["@ + dropped_breaks(prefix.string@) + "]"@ =~= prefix_parts(
                        parts,
                        pretty,
                    ));
                }
            }

            // Failsafe for too many nested loggers
            if depth >= MAX_RECURSION_DEPTH {
                let ghost written = prefix_parts(self.prefix@.take(depth + 1), pretty);
                if pretty {
                    push_text(device, " -> ");
                    push_text(device, PREFIX_CHAIN_TRUNCATED);
                    assert(written + " -> "@ + PREFIX_CHAIN_TRUNCATED@ =~= prefix_chain(
                        self.prefix@,
                        pretty,
                    ));
                } else {
                    push_text(device, "[");
                    push_text(device, PREFIX_CHAIN_TRUNCATED);
                    push_text(device, "]");
                    assert(written + "["@ + PREFIX_CHAIN_TRUNCATED@ + "]"@ =~= prefix_chain(
                        self.prefix@,
                        pretty,
                    ));
                }
                return;
            }
            depth = depth + 1;
        }
        assert(self.prefix@.take(depth as int) =~= self.prefix@);
    }

    /// Appends what every line of the message starts with.
    pub fn write_complete_prefix(
        &self,
        device: &mut Vec<u8>,
        message: &Message<'_>,
        pretty: bool,
        temp: &PrefixTempData<'_>,
    )
        requires
            temp.now.valid(pretty),
        ensures
            final(device)@ == old(device)@ + text::utf8(
                complete_prefix(self.prefix@, *message, pretty, *temp),
            ),
            forall|start: Seq<u8>, written: Seq<char>|
                old(device)@ == #[trigger] (start + text::utf8(written)) ==> final(device)@ == start
                    + text::utf8(
                    written + complete_prefix(self.prefix@, *message, pretty, *temp),
                ),
            lines::recognizable(complete_prefix(self.prefix@, *message, pretty, *temp)),
    {
        let ghost start = device@;
        temp.write_time(device, pretty);
        let ghost before = device@;
        self.write_prefix(device, pretty);
        proof {
            text::text_extends(before, device@, prefix_chain(self.prefix@, pretty));
        }
        temp.write_thread(device, pretty);
        temp.write_module(device, message, pretty);
        write_severity(device, message, pretty);
        push_text(device, ": ");
        proof {
            text::text_extends(
                start,
                device@,
                complete_prefix(self.prefix@, *message, pretty, *temp),
            );
            lines::complete_prefix_is_one_line(self.prefix@, *message, pretty, *temp);
        }
    }

    /// Appends the line about an error or one of its sources.
    fn write_error_line(
        &self,
        device: &mut Vec<u8>,
        message: &Message<'_>,
        label: &str,
        color: Color,
        error: &str,
        pretty: bool,
        temp: &PrefixTempData<'_>,
    )
        requires
            temp.now.valid(pretty),
        ensures
            ({
                let line = error_line(
                    complete_prefix(self.prefix@, *message, pretty, *temp),
                    label@,
                    color,
                    error@,
                    pretty,
                );
                &&& final(device)@ == old(device)@ + text::utf8(line)
                &&& forall|start: Seq<u8>, written: Seq<char>|
                    old(device)@ == #[trigger] (start + text::utf8(written)) ==> final(device)@
                        == start + text::utf8(written + line)
            }),
    {
        let ghost start = device@;
        let ghost prefix = complete_prefix(self.prefix@, *message, pretty, *temp);
        let ghost line = error_line(prefix, label@, color, error@, pretty);
        assert(device@ =~= start + text::utf8(Seq::empty()));
        self.write_complete_prefix(device, message, pretty, temp);
        let marker = NewlineReplacer(NEWLINE_MARKER);
        let shown: String = if pretty {
            color.normal().paint(label)
        } else {
            label.to_owned()
        };
        marker.write_text(device, shown.as_str());
        marker.write_text(device, ": ");
        marker.write_text(device, error);
        push_text(device, "\n");
        proof {
            let labelled = error_label(label@, color, pretty) + ": "@;
            assert(shown@ == error_label(label@, color, pretty));
            newline::replacing_distributes(shown@, ": "@, '\n', NEWLINE_MARKER@);
            newline::replacing_distributes(labelled, error@, '\n', NEWLINE_MARKER@);
            assert(Seq::<char>::empty() + prefix + marked_breaks(shown@) + marked_breaks(": "@)
                + marked_breaks(error@) + "\n"@ =~= line);
            text::text_extends(start, device@, line);
        }
    }

    /// Appends the whole text of the message. Every line break in it is marked,
    /// or ends a line of the log, and there are exactly as many lines of the log
    /// as the message takes: nothing inside the message can pass for one.
    #[verifier::rlimit(30)]
    pub fn do_write<F>(
        &self,
        store: &SettingsStore<F>,
        device: &mut Vec<u8>,
        message: &Message<'_>,
        pretty: bool,
        now: &Snapshot,
    )
        requires
            self.has_settings(*store),
            now.valid(pretty),
        ensures
            final(device)@ == old(device)@ + self.text_of(
                self.settings_in(*store),
                *message,
                pretty,
                now,
            ),
            ({
                let temp = PrefixTempData::captured(self.settings_in(*store), now);
                let start = complete_prefix(self.prefix@, *message, pretty, temp);
                let shown = rendered(self.prefix@, *message, pretty, temp);
                &&& lines::recognizable(start)
                &&& lines::breaks_are_marked(shown, start)
                &&& lines::log_lines(shown.skip(color_reset(pretty).len() as int), start)
                    == lines::lines_taken(*message)
            }),
    {
        let temp = PrefixTempData::new(self, store, now);
        let ghost start = device@;
        let ghost prefix = complete_prefix(self.prefix@, *message, pretty, temp);
        let ghost mut written: Seq<char> = color_reset(pretty);
        if pretty {
            push_text(device, Color::White.normal().paint("").as_str());  // Reset color
        } else {
            assert(device@ =~= start + text::utf8(written));
        }
        self.write_complete_prefix(device, message, pretty, &temp);
        NewlineReplacer(NEWLINE_MARKER).write_text(device, message.message);
        push_text(device, "\n");
        proof {
            written = written + prefix + marked_breaks(message.message@) + "\n"@;
        }

        // Write errors
        if let Some(error) = message.error {
            self.write_error_line(
                device,
                message,
                "Error",
                Color::Red,
                error.message.as_str(),
                pretty,
                &temp,
            );
            proof {
                written = written + error_line(
                    prefix,
                    "Error"@,
                    Color::Red,
                    error.message@,
                    pretty,
                );
            }
            let mut depth: usize = 0;
            assert(written =~= written + source_lines(prefix, error.sources@.take(0), pretty));
            assert(error.sources@.take(error.sources@.len() as int) =~= error.sources@);
            while depth < error.sources.len()
                invariant_except_break
                    depth <= error.sources@.len(),
                    depth <= MAX_RECURSION_DEPTH,
                    error.sources@.take(error.sources@.len() as int) == error.sources@,
                    device@ == start + text::utf8(
                        written + source_lines(prefix, error.sources@.take(depth as int), pretty),
                    ),
                invariant
                    temp.now.valid(pretty),
                    prefix == complete_prefix(self.prefix@, *message, pretty, temp),
                ensures
                    device@ == start + text::utf8(
                        written + source_chain(prefix, error.sources@, pretty),
                    ),
                decreases error.sources@.len() - depth,
            {
                let ghost before = source_lines(prefix, error.sources@.take(depth as int), pretty);
                if depth >= MAX_RECURSION_DEPTH {
                    push_text(device, ERROR_CHAIN_TRUNCATED);
                    push_text(device, "\n");
                    assert(written + before + ERROR_CHAIN_TRUNCATED@ + "\n"@ =~= written
                        + source_chain(prefix, error.sources@, pretty));
                    break ;
                }
                self.write_error_line(
                    device,
                    message,
                    "Caused by",
                    Color::Yellow,
                    error.sources[depth].as_str(),
                    pretty,
                    &temp,
                );
                proof {
                    let line = error_line(
                        prefix,
                        "Caused by"@,
                        Color::Yellow,
                        error.sources@[depth as int]@,
                        pretty,
                    );
                    let sources = error.sources@.take(depth + 1);
                    assert(sources.drop_last() =~= error.sources@.take(depth as int));
                    assert(written + before + line =~= written + source_lines(
                        prefix,
                        sources,
                        pretty,
                    ));
                }
                depth = depth + 1;
            }
            proof {
                written = written + source_chain(prefix, error.sources@, pretty);
            }
        }
        assert(written =~= rendered(self.prefix@, *message, pretty, temp));
        proof {
            lines::lines_cannot_be_forged(prefix, *message, pretty);
        }
    }
}

} // verus!
