//! Where the lines of a message end.
//!
//! What every line starts with is a single line itself, so a line break inside
//! the text of a message is either a marked one, or the end of a line.

use crate::clock;
use crate::clock::{ClockTime, UtcTime};
use crate::message::{Message, PrefixData};
use crate::newline;
use crate::render;
use crate::render::PrefixTempData;
use crate::style::{Color, Style};
use crate::text;
use vstd::prelude::*;

verus! {

/// Whether a text holds no line break.
pub open spec fn unbroken(line: Seq<char>) -> bool {
    forall|i: int| 0 <= i < line.len() ==> line[i] != '\n'
}

/// Whether a text starts with another one.
pub open spec fn starts_with(line: Seq<char>, start: Seq<char>) -> bool {
    line.len() >= start.len() && line.take(start.len() as int) == start
}

/// Whether every line break in a text is marked, or ends the text, or is
/// followed by a new line of the log, or by the notice about a chain of errors
/// that was too long.
pub open spec fn breaks_are_marked(shown: Seq<char>, start: Seq<char>) -> bool {
    forall|i: int|
        0 <= i < shown.len() && #[trigger] shown[i] == '\n' ==> {
            let rest = shown.skip(i + 1);
            ||| rest.len() == 0
            ||| rest[0] == '>'
            ||| starts_with(rest, start)
            ||| rest == render::ERROR_CHAIN_TRUNCATED@ + "\n"@
        }
}

/// Whether what every line of the log starts with is a single line, and cannot
/// be taken for the mark of a line break or for the notice about a chain of
/// errors that was too long.
pub open spec fn recognizable(start: Seq<char>) -> bool {
    unbroken(start) && start.len() > 0 && start[0] != '>' && start[0] != '*'
}

/// Whether a line begins at a position, and starts as a line of the log does.
pub open spec fn log_line_at(shown: Seq<char>, start: Seq<char>, position: int) -> bool {
    &&& 0 <= position < shown.len()
    &&& position == 0 || shown[position - 1] == '\n'
    &&& starts_with(shown.skip(position), start)
}

/// How many lines that begin before a position start as a line of the log does.
pub open spec fn log_lines_before(shown: Seq<char>, start: Seq<char>, position: int) -> nat
    decreases position,
{
    if position <= 0 {
        0
    } else {
        log_lines_before(shown, start, position - 1) + if log_line_at(shown, start, position - 1) {
            1nat
        } else {
            0nat
        }
    }
}

/// How many lines of a text start as a line of the log does.
pub open spec fn log_lines(shown: Seq<char>, start: Seq<char>) -> nat {
    log_lines_before(shown, start, shown.len() as int)
}

/// How many lines of the log a message takes: one, and if it has an error, one
/// for that and one for each source up to the limit.
pub open spec fn lines_taken(message: Message<'_>) -> nat {
    match message.error {
        None => 1,
        Some(error) => if error.sources@.len() <= render::MAX_RECURSION_DEPTH {
            2 + error.sources@.len()
        } else {
            2 + render::MAX_RECURSION_DEPTH as nat
        },
    }
}

proof fn decimal_unbroken(n: nat)
    ensures
        unbroken(text::decimal(n)),
    decreases n,
{
    if n >= 10 {
        decimal_unbroken(n / 10);
    }
}

pub(crate) proof fn code_unbroken(color: Color, base: nat)
    ensures
        unbroken(color.code(base)),
{
    reveal_strlit(";5;");
    reveal_strlit(";2;");
    reveal_strlit(";");
    decimal_unbroken(base);
    decimal_unbroken(base + 1);
    decimal_unbroken(base + 2);
    decimal_unbroken(base + 3);
    decimal_unbroken(base + 4);
    decimal_unbroken(base + 5);
    decimal_unbroken(base + 6);
    decimal_unbroken(base + 7);
    decimal_unbroken(base + 8);
    if let Color::Fixed(n) = color {
        decimal_unbroken(n as nat);
    }
    if let Color::RGB(r, g, b) = color {
        decimal_unbroken(r as nat);
        decimal_unbroken(g as nat);
        decimal_unbroken(b as nat);
    }
}

proof fn painting_unbroken(style: Style, content: Seq<char>)
    requires
        unbroken(content),
    ensures
        unbroken(style.painted(content)),
{
    reveal_strlit("1");
    reveal_strlit(";");
    reveal_strlit("\x1B[");
    reveal_strlit("m");
    reveal_strlit("\x1B[0m");
    if let Some(color) = style.background {
        code_unbroken(color, 40);
    }
    if let Some(color) = style.foreground {
        code_unbroken(color, 30);
    }
}

proof fn dropping_unbroken(line: Seq<char>)
    ensures
        unbroken(render::dropped_breaks(line)),
{
    reveal_strlit("");
    newline::replacing_removes_all(line, '\n', ""@);
    let dropped = render::dropped_breaks(line);
    assert forall|i: int| 0 <= i < dropped.len() implies dropped[i] != '\n' by {
        assert(dropped.contains(dropped[i]));
    }
}

proof fn clock_unbroken(date: UtcTime)
    requires
        date.valid(),
    ensures
        unbroken(date.clock()),
{
    reveal_strlit(":");
    reveal_strlit("::");
    reveal_strlit(".");
}

proof fn timestamp_unbroken(time: ClockTime)
    requires
        time.valid(),
    ensures
        unbroken(time.timestamp()),
{
    reveal_strlit("-");
    reveal_strlit("T");
    reveal_strlit(":");
    reveal_strlit(".");
    reveal_strlit("Z");
    clock::timestamps_have_four_digit_years(time);
}

proof fn time_part_recognizable(pretty: bool, temp: PrefixTempData<'_>)
    requires
        temp.now.valid(pretty),
    ensures
        recognizable(render::time_part(pretty, temp)),
{
    if pretty {
        clock_unbroken(temp.now.date);
    } else {
        reveal_strlit("[");
        reveal_strlit("]");
        timestamp_unbroken(temp.now.time);
    }
}

proof fn prefix_parts_unbroken(prefixes: Seq<PrefixData>, pretty: bool)
    ensures
        unbroken(render::prefix_parts(prefixes, pretty)),
    decreases prefixes.len(),
{
    if prefixes.len() > 0 {
        prefix_parts_unbroken(prefixes.drop_last(), pretty);
        let prefix = prefixes.last();
        reveal_strlit(" -> ");
        reveal_strlit("[");
        reveal_strlit("]");
        dropping_unbroken(prefix.look().painted(prefix.string@));
        dropping_unbroken(prefix.string@);
    }
}

proof fn prefix_chain_unbroken(prefixes: Seq<PrefixData>, pretty: bool)
    ensures
        unbroken(render::prefix_chain(prefixes, pretty)),
{
    prefix_parts_unbroken(prefixes, pretty);
    prefix_parts_unbroken(prefixes.take(render::MAX_RECURSION_DEPTH + 1), pretty);
    reveal_strlit(" -> ");
    reveal_strlit("[");
    reveal_strlit("]");
    reveal_strlit("*prefix chain truncated*");
}

proof fn thread_part_unbroken(pretty: bool, temp: PrefixTempData<'_>)
    ensures
        unbroken(render::thread_part(pretty, temp)),
{
    dropping_unbroken(temp.thread_name());
    reveal_strlit(" -> thread `");
    reveal_strlit("`");
    reveal_strlit("[");
    reveal_strlit("]");
}

proof fn module_part_unbroken(message: Message<'_>, pretty: bool, temp: PrefixTempData<'_>)
    ensures
        unbroken(render::module_part(message, pretty, temp)),
{
    reveal_strlit(" at ");
    reveal_strlit("[at ");
    reveal_strlit("]");
    reveal_strlit(":");
    if let Some(module) = message.module {
        dropping_unbroken(render::location_look().painted(module@));
        dropping_unbroken(module@);
    }
    if let Some(line) = message.line {
        decimal_unbroken(line as nat);
        painting_unbroken(render::location_look(), ":"@);
        painting_unbroken(render::location_look(), text::decimal(line as nat));
    }
}

proof fn severity_part_unbroken(message: Message<'_>, pretty: bool)
    ensures
        unbroken(render::severity_part(message, pretty)),
{
    reveal_strlit("Trace");
    reveal_strlit("Debug");
    reveal_strlit("Info");
    reveal_strlit("Loading");
    reveal_strlit("Warning");
    reveal_strlit("Error");
    reveal_strlit("Fatal");
    reveal_strlit(" -> ");
    reveal_strlit("[");
    reveal_strlit("]");
    painting_unbroken(message.severity.look(), message.severity.display());
}

/// What every line of a message starts with is a single line, and can be told
/// from what a line inside the message starts with.
pub proof fn complete_prefix_is_one_line(
    prefixes: Seq<PrefixData>,
    message: Message<'_>,
    pretty: bool,
    temp: PrefixTempData<'_>,
)
    requires
        temp.now.valid(pretty),
    ensures
        recognizable(render::complete_prefix(prefixes, message, pretty, temp)),
{
    time_part_recognizable(pretty, temp);
    prefix_chain_unbroken(prefixes, pretty);
    thread_part_unbroken(pretty, temp);
    module_part_unbroken(message, pretty, temp);
    severity_part_unbroken(message, pretty);
    reveal_strlit(": ");
}

/// Whether every line break in a text is marked, or ends the text, or is
/// followed by a new line of the log.
spec fn lined(shown: Seq<char>, start: Seq<char>) -> bool {
    forall|i: int|
        0 <= i < shown.len() && #[trigger] shown[i] == '\n' ==> {
            let rest = shown.skip(i + 1);
            ||| rest.len() == 0
            ||| rest[0] == '>'
            ||| starts_with(rest, start)
        }
}

/// A marked line break is followed by its mark.
pub proof fn marking_marks(line: Seq<char>)
    ensures
        forall|i: int|
            0 <= i < render::marked_breaks(line).len() && #[trigger] render::marked_breaks(line)[i]
                == '\n' ==> i + 1 < render::marked_breaks(line).len() && render::marked_breaks(
                line,
            )[i + 1] == '>',
    decreases line.len(),
{
    reveal_strlit("\n>");
    if line.len() > 0 {
        marking_marks(line.drop_last());
        let front = render::marked_breaks(line.drop_last());
        let marked = render::marked_breaks(line);
        assert forall|i: int| 0 <= i < marked.len() && #[trigger] marked[i] == '\n' implies i + 1
            < marked.len() && marked[i + 1] == '>' by {
            if i < front.len() {
                assert(front[i] == '\n');
            }
        }
    }
}

proof fn record_lined(start: Seq<char>, line: Seq<char>)
    requires
        unbroken(start),
    ensures
        lined(start + render::marked_breaks(line) + "\n"@, start),
        starts_with(start + render::marked_breaks(line) + "\n"@, start),
{
    reveal_strlit("\n");
    marking_marks(line);
    let marked = render::marked_breaks(line);
    let record = start + marked + "\n"@;
    assert(record.take(start.len() as int) =~= start);
    assert forall|i: int| 0 <= i < record.len() && #[trigger] record[i] == '\n' implies ({
        let rest = record.skip(i + 1);
        ||| rest.len() == 0
        ||| rest[0] == '>'
        ||| starts_with(rest, start)
    }) by {
        if start.len() <= i < start.len() + marked.len() {
            assert(marked[i - start.len()] == '\n');
            assert(record[i + 1] == marked[i + 1 - start.len()]);
        }
    }
}

proof fn joining_lined(a: Seq<char>, b: Seq<char>, start: Seq<char>)
    requires
        lined(a, start),
        lined(b, start),
        b.len() == 0 || starts_with(b, start),
    ensures
        lined(a + b, start),
{
    let whole = a + b;
    assert forall|i: int| 0 <= i < whole.len() && #[trigger] whole[i] == '\n' implies ({
        let rest = whole.skip(i + 1);
        ||| rest.len() == 0
        ||| rest[0] == '>'
        ||| starts_with(rest, start)
    }) by {
        let rest = whole.skip(i + 1);
        if i < a.len() {
            assert(a[i] == '\n');
            let rest_a = a.skip(i + 1);
            assert(rest =~= rest_a + b);
            if rest_a.len() == 0 {
                assert(rest =~= b);
            } else if rest_a[0] != '>' {
                assert(rest.take(start.len() as int) =~= rest_a.take(start.len() as int));
            }
        } else {
            assert(b[i - a.len()] == '\n');
            assert(rest =~= b.skip(i - a.len() + 1));
        }
    }
}

proof fn source_lines_lined(start: Seq<char>, sources: Seq<String>, pretty: bool)
    requires
        unbroken(start),
    ensures
        lined(render::source_lines(start, sources, pretty), start),
        sources.len() == 0 ==> render::source_lines(start, sources, pretty).len() == 0,
        sources.len() > 0 ==> starts_with(render::source_lines(start, sources, pretty), start),
    decreases sources.len(),
{
    if sources.len() > 0 {
        let front = render::source_lines(start, sources.drop_last(), pretty);
        let line = render::error_line(
            start,
            "Caused by"@,
            Color::Yellow,
            sources.last()@,
            pretty,
        );
        source_lines_lined(start, sources.drop_last(), pretty);
        record_lined(
            start,
            render::error_label("Caused by"@, Color::Yellow, pretty) + ": "@ + sources.last()@,
        );
        joining_lined(front, line, start);
        if sources.len() > 1 {
            assert((front + line).take(start.len() as int) =~= front.take(start.len() as int));
        } else {
            assert(front + line =~= line);
        }
    }
}

proof fn no_log_lines(shown: Seq<char>, start: Seq<char>, from: int, position: int)
    requires
        0 <= from <= position,
        forall|i: int| from <= i < position ==> !#[trigger] log_line_at(shown, start, i),
    ensures
        log_lines_before(shown, start, position) == log_lines_before(shown, start, from),
    decreases position - from,
{
    if from < position {
        no_log_lines(shown, start, from, position - 1);
        assert(!log_line_at(shown, start, position - 1));
    }
}

proof fn record_counted(start: Seq<char>, line: Seq<char>)
    requires
        recognizable(start),
    ensures
        log_lines(start + render::marked_breaks(line) + "\n"@, start) == 1,
{
    reveal_strlit("\n");
    marking_marks(line);
    let marked = render::marked_breaks(line);
    let record = start + marked + "\n"@;
    assert(record.skip(0).take(start.len() as int) =~= start);
    assert(log_line_at(record, start, 0));
    reveal_with_fuel(log_lines_before, 2);
    assert forall|i: int| 1 <= i < record.len() implies !#[trigger] log_line_at(
        record,
        start,
        i,
    ) by {
        if record[i - 1] == '\n' {
            assert(marked[i - 1 - start.len()] == '\n');
            assert(record[i] == marked[i - start.len()]);
            if starts_with(record.skip(i), start) {
                assert(record.skip(i).take(start.len() as int)[0] == '>');
            }
        }
    }
    no_log_lines(record, start, 1, record.len() as int);
}

proof fn notice_not_counted(start: Seq<char>)
    requires
        recognizable(start),
    ensures
        log_lines(render::ERROR_CHAIN_TRUNCATED@ + "\n"@, start) == 0,
{
    reveal_strlit("\n");
    reveal_strlit("*error chain truncated*");
    let notice = render::ERROR_CHAIN_TRUNCATED@ + "\n"@;
    assert forall|i: int| 0 <= i < notice.len() implies !#[trigger] log_line_at(
        notice,
        start,
        i,
    ) by {
        if i == 0 && starts_with(notice.skip(0), start) {
            assert(notice.skip(0).take(start.len() as int)[0] == '*');
        }
    }
    no_log_lines(notice, start, 0, notice.len() as int);
}

proof fn joining_counts_before(a: Seq<char>, b: Seq<char>, start: Seq<char>, position: int)
    requires
        unbroken(start),
        a.len() == 0 || a.last() == '\n',
        0 <= position <= a.len() + b.len(),
    ensures
        log_lines_before(a + b, start, position) == if position <= a.len() {
            log_lines_before(a, start, position)
        } else {
            log_lines(a, start) + log_lines_before(b, start, position - a.len())
        },
    decreases position,
{
    if position > 0 {
        let whole = a + b;
        let i = position - 1;
        joining_counts_before(a, b, start, i);
        if i < a.len() {
            let rest = a.skip(i);
            assert(whole.skip(i) =~= rest + b);
            if rest.len() < start.len() {
                // The line break at the end of the one text is in the way
                if starts_with(rest + b, start) {
                    assert((rest + b).take(start.len() as int)[rest.len() - 1] == '\n');
                }
            } else {
                assert((rest + b).take(start.len() as int) =~= rest.take(start.len() as int));
            }
            assert(log_line_at(whole, start, i) == log_line_at(a, start, i));
        } else {
            assert(whole.skip(i) =~= b.skip(i - a.len()));
            assert(log_line_at(whole, start, i) == log_line_at(b, start, i - a.len()));
        }
    }
}

proof fn joining_counts(a: Seq<char>, b: Seq<char>, start: Seq<char>)
    requires
        unbroken(start),
        a.len() == 0 || a.last() == '\n',
    ensures
        log_lines(a + b, start) == log_lines(a, start) + log_lines(b, start),
{
    joining_counts_before(a, b, start, (a + b).len() as int);
}

proof fn source_lines_counted(start: Seq<char>, sources: Seq<String>, pretty: bool)
    requires
        recognizable(start),
    ensures
        log_lines(render::source_lines(start, sources, pretty), start) == sources.len(),
    decreases sources.len(),
{
    if sources.len() > 0 {
        source_lines_counted(start, sources.drop_last(), pretty);
        ends_with_break(start, sources.drop_last(), pretty);
        let error = sources.last()@;
        let label = render::error_label("Caused by"@, Color::Yellow, pretty);
        record_counted(start, label + ": "@ + error);
        joining_counts(
            render::source_lines(start, sources.drop_last(), pretty),
            render::error_line(start, "Caused by"@, Color::Yellow, error, pretty),
            start,
        );
    }
}

/// A message takes exactly as many lines of the log as it has parts: of all
/// lines in its text, those inside the message and its errors included, no other
/// starts as a line of the log does.
#[verifier::rlimit(30)]
pub proof fn every_log_line_is_counted(start: Seq<char>, message: Message<'_>, pretty: bool)
    requires
        recognizable(start),
    ensures
        log_lines(
            render::rendered_from(start, message, pretty).skip(
                render::color_reset(pretty).len() as int,
            ),
            start,
        ) == lines_taken(message),
{
    reveal_strlit("\n");
    let whole = render::rendered_from(start, message, pretty);
    let shown = whole.skip(render::color_reset(pretty).len() as int);
    let first = start + render::marked_breaks(message.message@) + "\n"@;
    record_counted(start, message.message@);
    match message.error {
        None => {
            assert(shown =~= first);
        },
        Some(error) => {
            let line = render::error_line(start, "Error"@, Color::Red, error.message@, pretty);
            record_counted(
                start,
                render::error_label("Error"@, Color::Red, pretty) + ": "@ + error.message@,
            );
            joining_counts(first, line, start);
            let cut = error.sources@.len() > render::MAX_RECURSION_DEPTH;
            let sources = if cut {
                error.sources@.take(render::MAX_RECURSION_DEPTH as int)
            } else {
                error.sources@
            };
            let lines = render::source_lines(start, sources, pretty);
            source_lines_counted(start, sources, pretty);
            joining_counts(first + line, lines, start);
            if cut {
                let notice = render::ERROR_CHAIN_TRUNCATED@ + "\n"@;
                notice_not_counted(start);
                ends_with_break(start, sources, pretty);
                joining_counts(first + line + lines, notice, start);
                assert(shown =~= first + line + lines + notice);
            } else {
                assert(shown =~= first + line + lines);
            }
        },
    }
}

/// Nothing inside a message or its errors can pass for a line of the log. Every
/// line break in the text of a message is marked, or ends the text, or is
/// followed by a line that starts as the log has it, or by the notice about a
/// chain of errors that was too long. And of the lines that start as the log has
/// it there are, after the reset of the color, exactly as many as the message
/// takes. The text ends with a line break.
#[verifier::rlimit(30)]
pub proof fn lines_cannot_be_forged(start: Seq<char>, message: Message<'_>, pretty: bool)
    requires
        recognizable(start),
    ensures
        breaks_are_marked(render::rendered_from(start, message, pretty), start),
        log_lines(
            render::rendered_from(start, message, pretty).skip(
                render::color_reset(pretty).len() as int,
            ),
            start,
        ) == lines_taken(message),
        render::rendered_from(start, message, pretty).last() == '\n',
{
    every_log_line_is_counted(start, message, pretty);
    reveal_strlit("\n");
    reveal_strlit("");
    let reset = render::color_reset(pretty);
    painting_unbroken(
        Style { foreground: Some(Color::White), background: None, is_bold: false },
        ""@,
    );
    let first = start + render::marked_breaks(message.message@) + "\n"@;
    record_lined(start, message.message@);
    joining_lined(reset, first, start);
    let whole = render::rendered_from(start, message, pretty);
    match message.error {
        None => {
            assert(whole =~= reset + first);
        },
        Some(error) => {
            let line = render::error_line(start, "Error"@, Color::Red, error.message@, pretty);
            record_lined(
                start,
                render::error_label("Error"@, Color::Red, pretty) + ": "@ + error.message@,
            );
            joining_lined(reset + first, line, start);
            let cut = error.sources@.len() > render::MAX_RECURSION_DEPTH;
            let sources = if cut {
                error.sources@.take(render::MAX_RECURSION_DEPTH as int)
            } else {
                error.sources@
            };
            let lines = render::source_lines(start, sources, pretty);
            source_lines_lined(start, sources, pretty);
            let body = reset + first + line + lines;
            joining_lined(reset + first + line, lines, start);
            if cut {
                let notice = render::ERROR_CHAIN_TRUNCATED@ + "\n"@;
                reveal_strlit("*error chain truncated*");
                assert(whole =~= body + notice);
                assert forall|i: int|
                    0 <= i < whole.len() && #[trigger] whole[i] == '\n' implies ({
                    let rest = whole.skip(i + 1);
                    ||| rest.len() == 0
                    ||| rest[0] == '>'
                    ||| starts_with(rest, start)
                    ||| rest == notice
                }) by {
                    let rest = whole.skip(i + 1);
                    if i < body.len() {
                        assert(body[i] == '\n');
                        let rest_body = body.skip(i + 1);
                        assert(rest =~= rest_body + notice);
                        if rest_body.len() == 0 {
                            assert(rest =~= notice);
                        } else if rest_body[0] != '>' {
                            assert(rest.take(start.len() as int) =~= rest_body.take(
                                start.len() as int,
                            ));
                        }
                    }
                }
            } else {
                assert(whole =~= body);
                ends_with_break(start, sources, pretty);
            }
        },
    }
}

proof fn ends_with_break(start: Seq<char>, sources: Seq<String>, pretty: bool)
    ensures
        sources.len() > 0 ==> render::source_lines(start, sources, pretty).len() > 0
            && render::source_lines(start, sources, pretty).last() == '\n',
{
    reveal_strlit("\n");
}

} // verus!
