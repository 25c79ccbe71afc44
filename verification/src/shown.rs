//! What a reader finds in the text of a message, and how the texts of different
//! messages and loggers relate.

use crate::laws;
use crate::lines;
use crate::logger::Logger;
use crate::message::{ErrorReport, Message, PrefixData};
use crate::newline;
use crate::reading;
use crate::render;
use crate::render::{PrefixTempData, Snapshot};
use crate::severity::Severity;
use crate::store::LoggerSettings;
use crate::style;
use crate::style::{Color, Style};
use crate::text;
use vstd::prelude::*;
use vstd::utf8::*;

verus! {

/// What stands before everything that a line says about its message: the start
/// of a line that says nothing but a severity, without that severity.
pub open spec fn opening(prefixes: Seq<PrefixData>, pretty: bool, now: &Snapshot) -> Seq<char> {
    let line = render::complete_prefix(
        prefixes,
        Message { severity: Severity::Trace, message: "", error: None, module: None, line: None },
        pretty,
        PrefixTempData { show_thread: false, show_module: false, now },
    );
    line.take(
        line.len() - if pretty {
            22int
        } else {
            9int
        },
    )
}

// The style of what is painted

proof fn numbers_in_digits()
    ensures
        text::decimal(30) == "30"@,
        text::decimal(31) == "31"@,
        text::decimal(32) == "32"@,
        text::decimal(33) == "33"@,
        text::decimal(34) == "34"@,
        text::decimal(35) == "35"@,
        text::decimal(36) == "36"@,
        text::decimal(37) == "37"@,
        text::decimal(38) == "38"@,
        text::decimal(43) == "43"@,
        text::decimal(47) == "47"@,
{
    reveal_strlit("30");
    reveal_strlit("31");
    reveal_strlit("32");
    reveal_strlit("33");
    reveal_strlit("34");
    reveal_strlit("35");
    reveal_strlit("36");
    reveal_strlit("37");
    reveal_strlit("38");
    reveal_strlit("43");
    reveal_strlit("47");
    reveal_with_fuel(text::decimal, 2);
    assert(text::decimal(30) =~= "30"@);
    assert(text::decimal(31) =~= "31"@);
    assert(text::decimal(32) =~= "32"@);
    assert(text::decimal(33) =~= "33"@);
    assert(text::decimal(34) =~= "34"@);
    assert(text::decimal(35) =~= "35"@);
    assert(text::decimal(36) =~= "36"@);
    assert(text::decimal(37) =~= "37"@);
    assert(text::decimal(38) =~= "38"@);
    assert(text::decimal(43) =~= "43"@);
    assert(text::decimal(47) =~= "47"@);
}

/// A text in a color stands between the escape sequence of that color and the
/// one that resets it: the eight basic colors by their numbers, those of the
/// palette and those by their parts in the extended notation.
pub proof fn colored_text_is_between_escapes(color: Color, content: Seq<char>)
    ensures
        (Style { foreground: Some(color), background: None, is_bold: false }).painted(content)
            == "\x1B["@ + (match color {
            Color::Black => "30"@,
            Color::Red => "31"@,
            Color::Green => "32"@,
            Color::Yellow => "33"@,
            Color::Blue => "34"@,
            Color::Purple => "35"@,
            Color::Cyan => "36"@,
            Color::White => "37"@,
            Color::Fixed(n) => "38;5;"@ + text::decimal(n as nat),
            Color::RGB(r, g, b) => "38;2;"@ + text::decimal(r as nat) + ";"@ + text::decimal(
                g as nat,
            ) + ";"@ + text::decimal(b as nat),
        }) + "m"@ + content + "\x1B[0m"@,
{
    numbers_in_digits();
    reveal_strlit("38");
    reveal_strlit(";5;");
    reveal_strlit("38;5;");
    reveal_strlit(";2;");
    reveal_strlit("38;2;");
    let style = Style { foreground: Some(color), background: None, is_bold: false };
    assert("38"@ + ";5;"@ =~= "38;5;"@);
    assert("38"@ + ";2;"@ =~= "38;2;"@);
    assert(style.codes() == color.code(30)) by {
        let none = Seq::<char>::empty();
        assert(style::joined(style::joined(none, none), color.code(30))
            == color.code(30));
    }
}

/// Every severity has a name, a color in bold, and a place in the order.
pub proof fn severities_are_shown_by_name(severity: Severity)
    ensures
        severity.display() == match severity {
            Severity::Trace => "Trace"@,
            Severity::Debug => "Debug"@,
            Severity::Info => "Info"@,
            Severity::Loading => "Loading"@,
            Severity::Warning => "Warning"@,
            Severity::Error => "Error"@,
            Severity::Fatal => "Fatal"@,
        },
        severity.look().painted(severity.display()) == match severity {
            Severity::Trace => "\x1B[1;34mTrace\x1B[0m"@,
            Severity::Debug => "\x1B[1;32mDebug\x1B[0m"@,
            Severity::Info => "\x1B[1;36mInfo\x1B[0m"@,
            Severity::Loading => "\x1B[1;35mLoading\x1B[0m"@,
            Severity::Warning => "\x1B[1;33mWarning\x1B[0m"@,
            Severity::Error => "\x1B[1;31mError\x1B[0m"@,
            Severity::Fatal => "\x1B[1;43;31mFatal\x1B[0m"@,
        },
        severity.look().is_bold,
        severity.look().foreground == Some(
            match severity {
                Severity::Trace => Color::Blue,
                Severity::Debug => Color::Green,
                Severity::Info => Color::Cyan,
                Severity::Loading => Color::Purple,
                Severity::Warning => Color::Yellow,
                Severity::Error => Color::Red,
                Severity::Fatal => Color::Red,
            },
        ),
        severity.look().background == if severity is Fatal {
            Some(Color::Yellow)
        } else {
            None::<Color>
        },
{
    numbers_in_digits();
    reveal_strlit("Trace");
    reveal_strlit("Debug");
    reveal_strlit("Info");
    reveal_strlit("Loading");
    reveal_strlit("Warning");
    reveal_strlit("Error");
    reveal_strlit("Fatal");
    reveal_strlit("1");
    reveal_strlit(";");
    reveal_strlit("m");
    reveal_strlit("\x1B[");
    reveal_strlit("\x1B[0m");
    reveal_strlit("31");
    reveal_strlit("32");
    reveal_strlit("33");
    reveal_strlit("34");
    reveal_strlit("35");
    reveal_strlit("36");
    reveal_strlit("43");
    reveal_strlit("\x1B[1;34mTrace\x1B[0m");
    reveal_strlit("\x1B[1;32mDebug\x1B[0m");
    reveal_strlit("\x1B[1;36mInfo\x1B[0m");
    reveal_strlit("\x1B[1;35mLoading\x1B[0m");
    reveal_strlit("\x1B[1;33mWarning\x1B[0m");
    reveal_strlit("\x1B[1;31mError\x1B[0m");
    reveal_strlit("\x1B[1;43;31mFatal\x1B[0m");
    let shown = severity.look().painted(severity.display());
    match severity {
        Severity::Trace => assert(shown =~= "\x1B[1;34mTrace\x1B[0m"@),
        Severity::Debug => assert(shown =~= "\x1B[1;32mDebug\x1B[0m"@),
        Severity::Info => assert(shown =~= "\x1B[1;36mInfo\x1B[0m"@),
        Severity::Loading => assert(shown =~= "\x1B[1;35mLoading\x1B[0m"@),
        Severity::Warning => assert(shown =~= "\x1B[1;33mWarning\x1B[0m"@),
        Severity::Error => assert(shown =~= "\x1B[1;31mError\x1B[0m"@),
        Severity::Fatal => assert(shown =~= "\x1B[1;43;31mFatal\x1B[0m"@),
    }
}

proof fn location_painted(content: Seq<char>)
    ensures
        render::location_look().painted(content) == "\x1B[47;30m"@ + content + "\x1B[0m"@,
{
    numbers_in_digits();
    reveal_strlit("\x1B[");
    reveal_strlit("47");
    reveal_strlit("30");
    reveal_strlit(";");
    reveal_strlit("m");
    reveal_strlit("\x1B[47;30m");
    assert(render::location_look().painted(content) =~= "\x1B[47;30m"@ + content + "\x1B[0m"@);
}

proof fn breaks_dropped_between(before: Seq<char>, content: Seq<char>, after: Seq<char>)
    requires
        !before.contains('\n'),
        !after.contains('\n'),
    ensures
        render::dropped_breaks(before + content + after) == before + reading::without_breaks(
            content,
        ) + after,
{
    newline::replacing_distributes(before + content, after, '\n', ""@);
    newline::replacing_distributes(before, content, '\n', ""@);
    newline::replacing_keeps_the_rest(before, '\n', ""@);
    newline::replacing_keeps_the_rest(after, '\n', ""@);
    reading::dropping_drops_breaks(content);
}

// The start of a line

proof fn joined_last(a: Seq<char>, b: Seq<char>, c: Seq<char>)
    ensures
        a + b + c == a + (b + c),
{
    assert(a + b + c =~= a + (b + c));
}

proof fn joined_nothing(a: Seq<char>)
    ensures
        a + Seq::<char>::empty() == a,
{
    assert(a + Seq::<char>::empty() =~= a);
}

proof fn severity_tail(severity: Severity, pretty: bool)
    ensures
        ({
            let message = Message { severity, message: "", error: None, module: None, line: None };
            render::severity_part(message, pretty) + ": "@ == if pretty {
                match severity {
                    Severity::Trace => " -> \x1B[1;34mTrace\x1B[0m: "@,
                    Severity::Debug => " -> \x1B[1;32mDebug\x1B[0m: "@,
                    Severity::Info => " -> \x1B[1;36mInfo\x1B[0m: "@,
                    Severity::Loading => " -> \x1B[1;35mLoading\x1B[0m: "@,
                    Severity::Warning => " -> \x1B[1;33mWarning\x1B[0m: "@,
                    Severity::Error => " -> \x1B[1;31mError\x1B[0m: "@,
                    Severity::Fatal => " -> \x1B[1;43;31mFatal\x1B[0m: "@,
                }
            } else {
                match severity {
                    Severity::Trace => "[Trace]: "@,
                    Severity::Debug => "[Debug]: "@,
                    Severity::Info => "[Info]: "@,
                    Severity::Loading => "[Loading]: "@,
                    Severity::Warning => "[Warning]: "@,
                    Severity::Error => "[Error]: "@,
                    Severity::Fatal => "[Fatal]: "@,
                }
            }
        }),
{
    severities_are_shown_by_name(severity);
    reveal_strlit(" -> ");
    reveal_strlit("[");
    reveal_strlit("]");
    reveal_strlit(": ");
    let message = Message { severity, message: "", error: None, module: None, line: None };
    let tail = render::severity_part(message, pretty) + ": "@;
    match severity {
        Severity::Trace => {
            reveal_strlit("Trace");
            reveal_strlit("[Trace]: ");
            reveal_strlit("\x1B[1;34mTrace\x1B[0m");
            reveal_strlit(" -> \x1B[1;34mTrace\x1B[0m: ");
            if pretty {
                assert(tail =~= " -> \x1B[1;34mTrace\x1B[0m: "@);
            } else {
                assert(tail =~= "[Trace]: "@);
            }
        },
        Severity::Debug => {
            reveal_strlit("Debug");
            reveal_strlit("[Debug]: ");
            reveal_strlit("\x1B[1;32mDebug\x1B[0m");
            reveal_strlit(" -> \x1B[1;32mDebug\x1B[0m: ");
            if pretty {
                assert(tail =~= " -> \x1B[1;32mDebug\x1B[0m: "@);
            } else {
                assert(tail =~= "[Debug]: "@);
            }
        },
        Severity::Info => {
            reveal_strlit("Info");
            reveal_strlit("[Info]: ");
            reveal_strlit("\x1B[1;36mInfo\x1B[0m");
            reveal_strlit(" -> \x1B[1;36mInfo\x1B[0m: ");
            if pretty {
                assert(tail =~= " -> \x1B[1;36mInfo\x1B[0m: "@);
            } else {
                assert(tail =~= "[Info]: "@);
            }
        },
        Severity::Loading => {
            reveal_strlit("Loading");
            reveal_strlit("[Loading]: ");
            reveal_strlit("\x1B[1;35mLoading\x1B[0m");
            reveal_strlit(" -> \x1B[1;35mLoading\x1B[0m: ");
            if pretty {
                assert(tail =~= " -> \x1B[1;35mLoading\x1B[0m: "@);
            } else {
                assert(tail =~= "[Loading]: "@);
            }
        },
        Severity::Warning => {
            reveal_strlit("Warning");
            reveal_strlit("[Warning]: ");
            reveal_strlit("\x1B[1;33mWarning\x1B[0m");
            reveal_strlit(" -> \x1B[1;33mWarning\x1B[0m: ");
            if pretty {
                assert(tail =~= " -> \x1B[1;33mWarning\x1B[0m: "@);
            } else {
                assert(tail =~= "[Warning]: "@);
            }
        },
        Severity::Error => {
            reveal_strlit("Error");
            reveal_strlit("[Error]: ");
            reveal_strlit("\x1B[1;31mError\x1B[0m");
            reveal_strlit(" -> \x1B[1;31mError\x1B[0m: ");
            if pretty {
                assert(tail =~= " -> \x1B[1;31mError\x1B[0m: "@);
            } else {
                assert(tail =~= "[Error]: "@);
            }
        },
        Severity::Fatal => {
            reveal_strlit("Fatal");
            reveal_strlit("[Fatal]: ");
            reveal_strlit("\x1B[1;43;31mFatal\x1B[0m");
            reveal_strlit(" -> \x1B[1;43;31mFatal\x1B[0m: ");
            if pretty {
                assert(tail =~= " -> \x1B[1;43;31mFatal\x1B[0m: "@);
            } else {
                assert(tail =~= "[Fatal]: "@);
            }
        },
    }
}

proof fn opening_is_time_and_prefixes(prefixes: Seq<PrefixData>, pretty: bool, now: &Snapshot)
    ensures
        ({
            let temp = PrefixTempData { show_thread: false, show_module: false, now };
            opening(prefixes, pretty, now) == render::time_part(pretty, temp)
                + render::prefix_chain(prefixes, pretty)
        }),
{
    severity_tail(Severity::Trace, pretty);
    reveal_strlit("[Trace]: ");
    reveal_strlit(" -> \x1B[1;34mTrace\x1B[0m: ");
    let temp = PrefixTempData { show_thread: false, show_module: false, now };
    let message = Message {
        severity: Severity::Trace,
        message: "",
        error: None,
        module: None,
        line: None,
    };
    let head = render::time_part(pretty, temp) + render::prefix_chain(prefixes, pretty);
    let tail = render::severity_part(message, pretty) + ": "@;
    let line = render::complete_prefix(prefixes, message, pretty, temp);
    assert(line =~= head + tail);
    assert(opening(prefixes, pretty, now) =~= head);
}

/// Every line starts with the time, on the console that of the day and in the
/// file the timestamp, and then the prefixes of the logger.
pub proof fn lines_open_with_time_and_prefixes(
    prefixes: Seq<PrefixData>,
    pretty: bool,
    now: &Snapshot,
)
    ensures
        opening(Seq::<PrefixData>::empty(), pretty, now) == if pretty {
            now.date.clock()
        } else {
            "["@ + now.time.timestamp() + "]"@
        },
        opening(prefixes, pretty, now) == opening(Seq::<PrefixData>::empty(), pretty, now)
            + render::prefix_chain(prefixes, pretty),
{
    opening_is_time_and_prefixes(Seq::<PrefixData>::empty(), pretty, now);
    opening_is_time_and_prefixes(prefixes, pretty, now);
    let temp = PrefixTempData { show_thread: false, show_module: false, now };
    let time = render::time_part(pretty, temp);
    assert(render::prefix_chain(Seq::<PrefixData>::empty(), pretty) == Seq::<char>::empty());
    assert(time + Seq::<char>::empty() =~= time);
}

/// What a line says about its message: behind the time and the prefixes come the
/// name of the thread, if it is shown, the module with the line number, if they
/// are known and shown, and the name of the severity, each in its brackets or
/// between its escape sequences. Nothing else is said.
pub proof fn lines_say_thread_module_and_severity(
    prefixes: Seq<PrefixData>,
    message: Message<'_>,
    pretty: bool,
    temp: PrefixTempData<'_>,
)
    ensures
        ({
            let thread = reading::without_breaks(
                match temp.now.thread {
                    Some(name) => name@,
                    None => "*unnamed_thread*"@,
                },
            );
            render::complete_prefix(prefixes, message, pretty, temp) == opening(
                prefixes,
                pretty,
                temp.now,
            ) + (if !temp.show_thread {
                Seq::<char>::empty()
            } else if pretty {
                " -> thread `"@ + thread + "`"@
            } else {
                "["@ + thread + "]"@
            }) + (match (temp.show_module, message.module, message.line) {
                (true, Some(module), Some(line)) => if pretty {
                    " at \x1B[47;30m"@ + reading::without_breaks(module@)
                        + "\x1B[0m\x1B[47;30m:\x1B[0m\x1B[47;30m"@ + text::decimal(line as nat)
                        + "\x1B[0m"@
                } else {
                    "[at "@ + reading::without_breaks(module@) + ":"@ + text::decimal(line as nat)
                        + "]"@
                },
                (true, Some(module), None) => if pretty {
                    " at \x1B[47;30m"@ + reading::without_breaks(module@) + "\x1B[0m"@
                } else {
                    "[at "@ + reading::without_breaks(module@) + "]"@
                },
                _ => Seq::<char>::empty(),
            }) + (if pretty {
                match message.severity {
                    Severity::Trace => " -> \x1B[1;34mTrace\x1B[0m: "@,
                    Severity::Debug => " -> \x1B[1;32mDebug\x1B[0m: "@,
                    Severity::Info => " -> \x1B[1;36mInfo\x1B[0m: "@,
                    Severity::Loading => " -> \x1B[1;35mLoading\x1B[0m: "@,
                    Severity::Warning => " -> \x1B[1;33mWarning\x1B[0m: "@,
                    Severity::Error => " -> \x1B[1;31mError\x1B[0m: "@,
                    Severity::Fatal => " -> \x1B[1;43;31mFatal\x1B[0m: "@,
                }
            } else {
                match message.severity {
                    Severity::Trace => "[Trace]: "@,
                    Severity::Debug => "[Debug]: "@,
                    Severity::Info => "[Info]: "@,
                    Severity::Loading => "[Loading]: "@,
                    Severity::Warning => "[Warning]: "@,
                    Severity::Error => "[Error]: "@,
                    Severity::Fatal => "[Fatal]: "@,
                }
            })
        }),
{
    let hidden = PrefixTempData { show_thread: false, show_module: false, now: temp.now };
    opening_is_time_and_prefixes(prefixes, pretty, temp.now);
    assert(render::time_part(pretty, temp) == render::time_part(pretty, hidden));
    severity_tail(message.severity, pretty);
    reading::dropping_drops_breaks(temp.thread_name());
    module_is_said(message, pretty, temp);
    let head = opening(prefixes, pretty, temp.now);
    let thread = render::thread_part(pretty, temp);
    let module = render::module_part(message, pretty, temp);
    let severity = render::severity_part(message, pretty);
    joined_last(head + thread + module, severity, ": "@);
}

proof fn module_is_said(message: Message<'_>, pretty: bool, temp: PrefixTempData<'_>)
    ensures
        render::module_part(message, pretty, temp) == match (
            temp.show_module,
            message.module,
            message.line,
        ) {
            (true, Some(module), Some(line)) => if pretty {
                " at \x1B[47;30m"@ + reading::without_breaks(module@)
                    + "\x1B[0m\x1B[47;30m:\x1B[0m\x1B[47;30m"@ + text::decimal(line as nat)
                    + "\x1B[0m"@
            } else {
                "[at "@ + reading::without_breaks(module@) + ":"@ + text::decimal(line as nat)
                    + "]"@
            },
            (true, Some(module), None) => if pretty {
                " at \x1B[47;30m"@ + reading::without_breaks(module@) + "\x1B[0m"@
            } else {
                "[at "@ + reading::without_breaks(module@) + "]"@
            },
            _ => Seq::<char>::empty(),
        },
{
    if let Some(module) = message.module {
        if temp.show_module {
            let name = reading::without_breaks(module@);
            reading::dropping_drops_breaks(module@);
            location_painted(module@);
            location_painted(":"@);
            reveal_strlit(" at ");
            reveal_strlit(":");
            reveal_strlit("\x1B[47;30m");
            reveal_strlit("\x1B[0m");
            reveal_strlit(" at \x1B[47;30m");
            reveal_strlit("\x1B[0m\x1B[47;30m:\x1B[0m\x1B[47;30m");
            breaks_dropped_between("\x1B[47;30m"@, module@, "\x1B[0m"@);
            let shown = render::module_part(message, pretty, temp);
            match message.line {
                Some(line) => {
                    let number = text::decimal(line as nat);
                    location_painted(number);
                    if pretty {
                        assert(shown =~= " at \x1B[47;30m"@ + name
                            + "\x1B[0m\x1B[47;30m:\x1B[0m\x1B[47;30m"@ + number + "\x1B[0m"@);
                    } else {
                        assert(shown =~= "[at "@ + name + ":"@ + number + "]"@);
                    }
                },
                None => {
                    if pretty {
                        assert(shown =~= " at \x1B[47;30m"@ + name + "\x1B[0m"@);
                    } else {
                        assert(shown =~= "[at "@ + name + "]"@);
                    }
                },
            }
        }
    }
}

/// What a sub-logger adds to the lines of its parent: its prefix without line
/// breaks, in brackets in the file, and on the console between the escape
/// sequences of its color, whatever the color is. The one that exceeds the limit
/// of nested loggers still adds its prefix, and a notice. Those beyond add
/// nothing.
pub proof fn sub_loggers_show_their_prefix(
    child: Logger,
    parent: Logger,
    pretty: bool,
    now: &Snapshot,
)
    requires
        laws::is_sub_logger(child, parent),
    ensures
        ({
            let own = child.prefix@.last();
            let name = reading::without_breaks(own.string@);
            let added = if parent.prefix@.len() > 256 {
                Seq::<char>::empty()
            } else if pretty {
                " -> \x1B["@ + (match own.color {
                    Color::Black => "30"@,
                    Color::Red => "31"@,
                    Color::Green => "32"@,
                    Color::Yellow => "33"@,
                    Color::Blue => "34"@,
                    Color::Purple => "35"@,
                    Color::Cyan => "36"@,
                    Color::White => "37"@,
                    Color::Fixed(n) => "38;5;"@ + text::decimal(n as nat),
                    Color::RGB(r, g, b) => "38;2;"@ + text::decimal(r as nat) + ";"@
                        + text::decimal(g as nat) + ";"@ + text::decimal(b as nat),
                }) + "m"@ + name + "\x1B[0m"@ + (if parent.prefix@.len() == 256 {
                    " -> *prefix chain truncated*"@
                } else {
                    Seq::<char>::empty()
                })
            } else {
                "["@ + name + "]"@ + (if parent.prefix@.len() == 256 {
                    "[*prefix chain truncated*]"@
                } else {
                    Seq::<char>::empty()
                })
            };
            &&& render::prefix_chain(child.prefix@, pretty) == render::prefix_chain(
                parent.prefix@,
                pretty,
            ) + added
            &&& opening(child.prefix@, pretty, now) == opening(parent.prefix@, pretty, now) + added
        }),
{
    let own = child.prefix@.last();
    let name = reading::without_breaks(own.string@);
    let chain = render::prefix_chain(parent.prefix@, pretty);
    let longer = render::prefix_chain(child.prefix@, pretty);
    opening_is_time_and_prefixes(child.prefix@, pretty, now);
    opening_is_time_and_prefixes(parent.prefix@, pretty, now);
    let time = render::time_part(
        pretty,
        PrefixTempData { show_thread: false, show_module: false, now },
    );
    prefix_is_shown(own, pretty);
    let part = render::prefix_part(own, pretty);
    if parent.prefix@.len() > 256 {
        assert(child.prefix@.take(257) =~= parent.prefix@.take(257));
        joined_nothing(chain);
        joined_nothing(time + chain);
    } else if parent.prefix@.len() == 256 {
        assert(child.prefix@.take(257) =~= child.prefix@);
        reveal_strlit(" -> ");
        reveal_strlit("[");
        reveal_strlit("]");
        reveal_strlit("*prefix chain truncated*");
        reveal_strlit(" -> *prefix chain truncated*");
        reveal_strlit("[*prefix chain truncated*]");
        let notice = if pretty {
            " -> *prefix chain truncated*"@
        } else {
            "[*prefix chain truncated*]"@
        };
        assert(render::prefix_notice(pretty) =~= notice);
        joined_last(chain, part, notice);
        joined_last(time, chain, part + notice);
    } else {
        joined_nothing(part);
        joined_last(time, chain, part);
    }
}

/// A prefix is shown in its color, and in no other way.
pub proof fn prefixes_are_shown_in_color(prefix: PrefixData)
    ensures
        prefix.look() == (Style {
            foreground: Some(prefix.color),
            background: None,
            is_bold: false,
        }),
{
}

proof fn prefix_is_shown(own: PrefixData, pretty: bool)
    ensures
        render::prefix_part(own, pretty) == if pretty {
            " -> \x1B["@ + (match own.color {
                Color::Black => "30"@,
                Color::Red => "31"@,
                Color::Green => "32"@,
                Color::Yellow => "33"@,
                Color::Blue => "34"@,
                Color::Purple => "35"@,
                Color::Cyan => "36"@,
                Color::White => "37"@,
                Color::Fixed(n) => "38;5;"@ + text::decimal(n as nat),
                Color::RGB(r, g, b) => "38;2;"@ + text::decimal(r as nat) + ";"@ + text::decimal(
                    g as nat,
                ) + ";"@ + text::decimal(b as nat),
            }) + "m"@ + reading::without_breaks(own.string@) + "\x1B[0m"@
        } else {
            "["@ + reading::without_breaks(own.string@) + "]"@
        },
{
    reading::dropping_drops_breaks(own.string@);
    if pretty {
        colored_text_is_between_escapes(own.color, own.string@);
        colored_text_is_between_escapes(own.color, Seq::<char>::empty());
        let code = own.color.code(30);
        let before = "\x1B["@ + own.look().codes() + "m"@;
        reveal_strlit("\x1B[");
        reveal_strlit("m");
        reveal_strlit("\x1B[0m");
        reveal_strlit(" -> ");
        reveal_strlit(" -> \x1B[");
        lines::code_unbroken(own.color, 30);
        assert(own.look().codes() == code);
        assert(!before.contains('\n'));
        breaks_dropped_between(before, own.string@, "\x1B[0m"@);
        numbers_in_digits();
        color_number(own.color);
        let name = reading::without_breaks(own.string@);
        assert(" -> "@ + "\x1B["@ =~= " -> \x1B["@);
        assert(" -> "@ + ("\x1B["@ + code + "m"@ + name + "\x1B[0m"@) =~= " -> \x1B["@ + code
            + "m"@ + name + "\x1B[0m"@);
    }
}

proof fn color_number(color: Color)
    ensures
        color.code(30) == match color {
            Color::Black => "30"@,
            Color::Red => "31"@,
            Color::Green => "32"@,
            Color::Yellow => "33"@,
            Color::Blue => "34"@,
            Color::Purple => "35"@,
            Color::Cyan => "36"@,
            Color::White => "37"@,
            Color::Fixed(n) => "38;5;"@ + text::decimal(n as nat),
            Color::RGB(r, g, b) => "38;2;"@ + text::decimal(r as nat) + ";"@ + text::decimal(
                g as nat,
            ) + ";"@ + text::decimal(b as nat),
        },
{
    numbers_in_digits();
    reveal_strlit("38");
    reveal_strlit(";5;");
    reveal_strlit("38;5;");
    reveal_strlit(";2;");
    reveal_strlit("38;2;");
    assert("38"@ + ";5;"@ =~= "38;5;"@);
    assert("38"@ + ";2;"@ =~= "38;2;"@);
}

// The lines of a message

/// The bytes of a text are its UTF-8, and the text is that of the message with
/// the prefixes of the logger, showing what the settings ask for.
pub proof fn bytes_are_those_of_the_text<F>(
    logger: Logger,
    settings: LoggerSettings<F>,
    message: Message<'_>,
    pretty: bool,
    now: &Snapshot,
)
    ensures
        logger.text_of(settings, message, pretty, now) == encode_utf8(
            render::rendered(
                logger.prefix@,
                message,
                pretty,
                PrefixTempData {
                    show_thread: settings.show_thread,
                    show_module: settings.show_module,
                    now,
                },
            ),
        ),
{
}

/// A message without an error takes one line: what every line starts with, the
/// text of the message with its line breaks marked, and a line break. On the
/// console the color is reset first.
pub proof fn messages_are_written_in_full(
    prefixes: Seq<PrefixData>,
    message: Message<'_>,
    pretty: bool,
    temp: PrefixTempData<'_>,
)
    requires
        message.error is None,
    ensures
        ({
            let body = render::marked_breaks(message.message@);
            &&& render::rendered(prefixes, message, pretty, temp) == (if pretty {
                "\x1B[37m\x1B[0m"@
            } else {
                Seq::<char>::empty()
            }) + render::complete_prefix(prefixes, message, pretty, temp) + body + "\n"@
            &&& reading::unmarked(body) == message.message@
            &&& forall|i: int|
                0 <= i < body.len() && #[trigger] body[i] == '\n' ==> i + 1 < body.len() && body[i
                    + 1] == '>'
        }),
{
    reading::marks_can_be_taken_away(message.message@);
    reset_is_written(pretty);
    let start = render::complete_prefix(prefixes, message, pretty, temp);
    joined_nothing(
        render::color_reset(pretty) + start + render::marked_breaks(message.message@) + "\n"@,
    );
}

proof fn reset_is_written(pretty: bool)
    ensures
        render::color_reset(pretty) == if pretty {
            "\x1B[37m\x1B[0m"@
        } else {
            Seq::<char>::empty()
        },
{
    reveal_strlit("");
    reveal_strlit("\x1B[");
    reveal_strlit("37");
    reveal_strlit("m");
    reveal_strlit("\x1B[0m");
    reveal_strlit("\x1B[37m\x1B[0m");
    if pretty {
        colored_text_is_between_escapes(Color::White, ""@);
        assert(render::color_reset(pretty) =~= "\x1B[37m\x1B[0m"@);
    }
}

proof fn label_is_written(label: Seq<char>, color: Color, error: Seq<char>, pretty: bool)
    requires
        !label.contains('\n'),
        color == Color::Red || color == Color::Yellow,
    ensures
        render::marked_breaks(render::error_label(label, color, pretty) + ": "@ + error) == (
        if pretty {
            (if color == Color::Red {
                "\x1B[31m"@
            } else {
                "\x1B[33m"@
            }) + label + "\x1B[0m"@
        } else {
            label
        }) + ": "@ + render::marked_breaks(error),
{
    reveal_strlit("\x1B[");
    reveal_strlit("31");
    reveal_strlit("33");
    reveal_strlit("m");
    reveal_strlit("\x1B[0m");
    reveal_strlit("\x1B[31m");
    reveal_strlit("\x1B[33m");
    reveal_strlit(": ");
    colored_text_is_between_escapes(color, label);
    let shown = render::error_label(label, color, pretty);
    if pretty {
        let before = if color == Color::Red {
            "\x1B[31m"@
        } else {
            "\x1B[33m"@
        };
        assert(shown =~= before + label + "\x1B[0m"@);
        assert forall|i: int| 0 <= i < shown.len() implies shown[i] != '\n' by {
            if before.len() <= i < before.len() + label.len() {
                assert(label.contains(label[i - before.len()]));
            }
        }
    }
    let start = shown + ": "@;
    assert(!start.contains('\n')) by {
        assert forall|i: int| 0 <= i < start.len() implies start[i] != '\n' by {
            if i < shown.len() && !pretty {
                assert(label.contains(label[i]));
            }
        }
    }
    newline::replacing_distributes(start, error, '\n', render::NEWLINE_MARKER@);
    newline::replacing_keeps_the_rest(start, '\n', render::NEWLINE_MARKER@);
}

/// The error of a message takes one more line, which is added to the text that
/// the message has without it: what every line starts with, `Error: `, on the
/// console in red, and the text of the error with its line breaks marked.
pub proof fn errors_are_written_in_full(
    prefixes: Seq<PrefixData>,
    message: Message<'_>,
    error: ErrorReport,
    pretty: bool,
    temp: PrefixTempData<'_>,
)
    requires
        error.sources@.len() == 0,
    ensures
        ({
            let body = render::marked_breaks(error.message@);
            &&& render::rendered(prefixes, Message { error: Some(&error), ..message }, pretty, temp)
                == render::rendered(prefixes, Message { error: None, ..message }, pretty, temp)
                + render::complete_prefix(prefixes, message, pretty, temp) + (if pretty {
                "\x1B[31mError\x1B[0m: "@
            } else {
                "Error: "@
            }) + body + "\n"@
            &&& reading::unmarked(body) == error.message@
            &&& forall|i: int|
                0 <= i < body.len() && #[trigger] body[i] == '\n' ==> i + 1 < body.len() && body[i
                    + 1] == '>'
        }),
{
    reading::marks_can_be_taken_away(error.message@);
    reveal_strlit("Error");
    reveal_strlit(": ");
    reveal_strlit("Error: ");
    reveal_strlit("\x1B[31m");
    reveal_strlit("\x1B[0m");
    reveal_strlit("\x1B[31mError\x1B[0m: ");
    label_is_written("Error"@, Color::Red, error.message@, pretty);
    let start = render::complete_prefix(prefixes, message, pretty, temp);
    let plain = Message { error: None, ..message };
    let failed = Message { error: Some(&error), ..message };
    assert(render::complete_prefix(prefixes, plain, pretty, temp) == start);
    assert(render::complete_prefix(prefixes, failed, pretty, temp) == start);
    let without = render::rendered(prefixes, plain, pretty, temp);
    let body = render::marked_breaks(error.message@);
    let label = if pretty {
        "\x1B[31mError\x1B[0m: "@
    } else {
        "Error: "@
    };
    assert("Error"@ + ": "@ =~= "Error: "@);
    assert("\x1B[31m"@ + "Error"@ + "\x1B[0m"@ + ": "@ =~= "\x1B[31mError\x1B[0m: "@);
    let line = render::error_line(start, "Error"@, Color::Red, error.message@, pretty);
    joined_nothing(line);
    error_line_joins(without, start, label, body, line);
}

proof fn error_line_joins(
    before: Seq<char>,
    start: Seq<char>,
    label: Seq<char>,
    body: Seq<char>,
    line: Seq<char>,
)
    requires
        line == start + (label + body) + "\n"@,
    ensures
        before + Seq::<char>::empty() + line == before + start + label + body + "\n"@,
        before + line == before + start + label + body + "\n"@,
{
    assert(before + Seq::<char>::empty() + line =~= before + start + label + body + "\n"@);
    assert(before + line =~= before + start + label + body + "\n"@);
}

proof fn source_line_is_written(start: Seq<char>, source: Seq<char>, pretty: bool)
    ensures
        render::error_line(start, "Caused by"@, Color::Yellow, source, pretty) == start + ((
        if pretty {
            "\x1B[33mCaused by\x1B[0m: "@
        } else {
            "Caused by: "@
        }) + render::marked_breaks(source)) + "\n"@,
{
    reveal_strlit("Caused by");
    reveal_strlit(": ");
    reveal_strlit("Caused by: ");
    reveal_strlit("\x1B[33m");
    reveal_strlit("\x1B[0m");
    reveal_strlit("\x1B[33mCaused by\x1B[0m: ");
    label_is_written("Caused by"@, Color::Yellow, source, pretty);
    assert("Caused by"@ + ": "@ =~= "Caused by: "@);
    assert("\x1B[33m"@ + "Caused by"@ + "\x1B[0m"@ + ": "@ =~= "\x1B[33mCaused by\x1B[0m: "@);
}

proof fn source_lines_join(start: Seq<char>, a: Seq<String>, b: Seq<String>, pretty: bool)
    ensures
        render::source_lines(start, a + b, pretty) == render::source_lines(start, a, pretty)
            + render::source_lines(start, b, pretty),
    decreases b.len(),
{
    if b.len() == 0 {
        assert(a + b =~= a);
        joined_nothing(render::source_lines(start, a, pretty));
    } else {
        source_lines_join(start, a, b.drop_last(), pretty);
        assert((a + b).drop_last() =~= a + b.drop_last());
        joined_last(
            render::source_lines(start, a, pretty),
            render::source_lines(start, b.drop_last(), pretty),
            render::error_line(start, "Caused by"@, Color::Yellow, b.last()@, pretty),
        );
    }
}

/// The text of a message without what it says of the sources of its error.
spec fn up_to_error(
    prefixes: Seq<PrefixData>,
    message: Message<'_>,
    error: ErrorReport,
    pretty: bool,
    temp: PrefixTempData<'_>,
) -> Seq<char> {
    let start = render::complete_prefix(prefixes, message, pretty, temp);
    render::color_reset(pretty) + start + render::marked_breaks(message.message@) + "\n"@
        + render::error_line(start, "Error"@, Color::Red, error.message@, pretty)
}

proof fn sources_come_last(
    prefixes: Seq<PrefixData>,
    message: Message<'_>,
    error: ErrorReport,
    pretty: bool,
    temp: PrefixTempData<'_>,
)
    ensures
        ({
            let start = render::complete_prefix(prefixes, message, pretty, temp);
            render::rendered(prefixes, Message { error: Some(&error), ..message }, pretty, temp)
                == up_to_error(prefixes, message, error, pretty, temp) + render::source_chain(
                start,
                error.sources@,
                pretty,
            )
        }),
{
    let start = render::complete_prefix(prefixes, message, pretty, temp);
    let failed = Message { error: Some(&error), ..message };
    assert(render::complete_prefix(prefixes, failed, pretty, temp) == start);
    joined_last(
        render::color_reset(pretty) + start + render::marked_breaks(message.message@) + "\n"@,
        render::error_line(start, "Error"@, Color::Red, error.message@, pretty),
        render::source_chain(start, error.sources@, pretty),
    );
}

/// Each source of an error takes one more line, which is added to the text with
/// the sources before it: what every line starts with, `Caused by: `, on the
/// console in yellow, and the text of that source with its line breaks marked.
/// In place of the first source beyond the limit comes a notice, and those
/// behind it are not shown.
pub proof fn sources_are_written_in_order(
    prefixes: Seq<PrefixData>,
    message: Message<'_>,
    error: ErrorReport,
    longer: ErrorReport,
    source: String,
    pretty: bool,
    temp: PrefixTempData<'_>,
)
    requires
        longer.message == error.message,
        longer.sources@ == error.sources@.push(source),
    ensures
        ({
            let body = render::marked_breaks(source@);
            let shorter = render::rendered(
                prefixes,
                Message { error: Some(&error), ..message },
                pretty,
                temp,
            );
            &&& render::rendered(
                prefixes,
                Message { error: Some(&longer), ..message },
                pretty,
                temp,
            ) == if error.sources@.len() < 256 {
                shorter + render::complete_prefix(prefixes, message, pretty, temp) + (if pretty {
                    "\x1B[33mCaused by\x1B[0m: "@
                } else {
                    "Caused by: "@
                }) + body + "\n"@
            } else if error.sources@.len() == 256 {
                shorter + "*error chain truncated*\n"@
            } else {
                shorter
            }
            &&& reading::unmarked(body) == source@
            &&& forall|i: int|
                0 <= i < body.len() && #[trigger] body[i] == '\n' ==> i + 1 < body.len() && body[i
                    + 1] == '>'
        }),
{
    reading::marks_can_be_taken_away(source@);
    let start = render::complete_prefix(prefixes, message, pretty, temp);
    sources_come_last(prefixes, message, error, pretty, temp);
    sources_come_last(prefixes, message, longer, pretty, temp);
    let before = up_to_error(prefixes, message, error, pretty, temp);
    let chain = render::source_chain(start, error.sources@, pretty);
    assert(longer.sources@.drop_last() =~= error.sources@);
    if error.sources@.len() < 256 {
        let line = render::error_line(start, "Caused by"@, Color::Yellow, source@, pretty);
        source_line_is_written(start, source@, pretty);
        let label = if pretty {
            "\x1B[33mCaused by\x1B[0m: "@
        } else {
            "Caused by: "@
        };
        joined_last(before, chain, line);
        error_line_joins(before + chain, start, label, render::marked_breaks(source@), line);
    } else if error.sources@.len() == 256 {
        reveal_strlit("*error chain truncated*");
        reveal_strlit("\n");
        reveal_strlit("*error chain truncated*\n");
        assert(longer.sources@.take(256) =~= error.sources@);
        assert("*error chain truncated*"@ + "\n"@ =~= "*error chain truncated*\n"@);
        joined_last(chain, "*error chain truncated*"@, "\n"@);
        joined_last(before, chain, "*error chain truncated*\n"@);
    } else {
        assert(longer.sources@.take(256) =~= error.sources@.take(256));
    }
}

/// Every source of an error within the limit has a line of its own: behind the
/// lines that the message, the error and the sources before it take, there is
/// one that ends with the text of that source. Another source in its place
/// changes that line and nothing else. Returns what follows the line.
pub proof fn every_source_has_its_line(
    prefixes: Seq<PrefixData>,
    message: Message<'_>,
    error: ErrorReport,
    before: ErrorReport,
    other: ErrorReport,
    i: int,
    pretty: bool,
    temp: PrefixTempData<'_>,
) -> (after: Seq<char>)
    requires
        0 <= i < error.sources@.len(),
        i < 256,
        before.message == error.message,
        before.sources@ == error.sources@.take(i),
        other.message == error.message,
        other.sources@ == error.sources@.update(i, other.sources@[i]),
    ensures
        ({
            let start = render::complete_prefix(prefixes, message, pretty, temp);
            let label = if pretty {
                "\x1B[33mCaused by\x1B[0m: "@
            } else {
                "Caused by: "@
            };
            let head = render::rendered(
                prefixes,
                Message { error: Some(&before), ..message },
                pretty,
                temp,
            );
            &&& render::rendered(prefixes, Message { error: Some(&error), ..message }, pretty, temp)
                == head + start + label + render::marked_breaks(error.sources@[i]@) + "\n"@ + after
            &&& render::rendered(prefixes, Message { error: Some(&other), ..message }, pretty, temp)
                == head + start + label + render::marked_breaks(other.sources@[i]@) + "\n"@ + after
            &&& temp.now.valid(pretty) ==> lines::log_lines(
                head.skip(
                    if pretty {
                        9int
                    } else {
                        0int
                    },
                ),
                start,
            ) == i + 2
        }),
{
    let start = render::complete_prefix(prefixes, message, pretty, temp);
    reset_is_written(pretty);
    reveal_strlit("\x1B[37m\x1B[0m");
    if temp.now.valid(pretty) {
        let shortened = Message { error: Some(&before), ..message };
        lines::complete_prefix_is_one_line(prefixes, shortened, pretty, temp);
        lines::every_log_line_is_counted(start, shortened, pretty);
    }
    let label = if pretty {
        "\x1B[33mCaused by\x1B[0m: "@
    } else {
        "Caused by: "@
    };
    let text = up_to_error(prefixes, message, error, pretty, temp);
    let shown = if error.sources@.len() <= 256 {
        error.sources@
    } else {
        error.sources@.take(256)
    };
    let notice = if error.sources@.len() <= 256 {
        Seq::<char>::empty()
    } else {
        render::ERROR_CHAIN_TRUNCATED@ + "\n"@
    };
    let rest = render::source_lines(start, shown.skip(i + 1), pretty);
    let after = rest + notice;
    let first = render::source_lines(start, before.sources@, pretty);
    sources_come_last(prefixes, message, before, pretty, temp);
    sources_come_last(prefixes, message, error, pretty, temp);
    sources_come_last(prefixes, message, other, pretty, temp);
    source_split(start, error.sources@, i, pretty);
    source_split(start, other.sources@, i, pretty);
    assert(other.sources@.take(i) =~= before.sources@);
    assert(other.sources@.skip(i + 1) =~= error.sources@.skip(i + 1));
    if error.sources@.len() > 256 {
        source_split(start, error.sources@.take(256), i, pretty);
        source_split(start, other.sources@.take(256), i, pretty);
        assert(error.sources@.take(256).take(i) =~= before.sources@);
        assert(other.sources@.take(256).take(i) =~= before.sources@);
        assert(other.sources@.take(256).skip(i + 1) =~= error.sources@.take(256).skip(i + 1));
    }
    let line = render::error_line(start, "Caused by"@, Color::Yellow, error.sources@[i]@, pretty);
    let changed = render::error_line(
        start,
        "Caused by"@,
        Color::Yellow,
        other.sources@[i]@,
        pretty,
    );
    source_line_is_written(start, error.sources@[i]@, pretty);
    source_line_is_written(start, other.sources@[i]@, pretty);
    error_line_joins(
        text + first,
        start,
        label,
        render::marked_breaks(error.sources@[i]@),
        line,
    );
    error_line_joins(
        text + first,
        start,
        label,
        render::marked_breaks(other.sources@[i]@),
        changed,
    );
    chain_joins(text, first, line, rest, notice);
    chain_joins(text, first, changed, rest, notice);
    if error.sources@.len() > 256 {
        notice_joins(first + line + rest);
        notice_joins(first + changed + rest);
    } else {
        joined_nothing(first + line + rest);
        joined_nothing(first + changed + rest);
    }
    after
}

proof fn notice_joins(chain: Seq<char>)
    ensures
        chain + render::ERROR_CHAIN_TRUNCATED@ + "\n"@ == chain + (render::ERROR_CHAIN_TRUNCATED@
            + "\n"@),
{
    joined_last(chain, render::ERROR_CHAIN_TRUNCATED@, "\n"@);
}

proof fn chain_joins(
    text: Seq<char>,
    first: Seq<char>,
    line: Seq<char>,
    rest: Seq<char>,
    notice: Seq<char>,
)
    ensures
        text + (first + line + rest + notice) == text + first + line + (rest + notice),
{
    assert(text + (first + line + rest + notice) =~= text + first + line + (rest + notice));
}

proof fn source_split(start: Seq<char>, sources: Seq<String>, i: int, pretty: bool)
    requires
        0 <= i < sources.len(),
    ensures
        render::source_lines(start, sources, pretty) == render::source_lines(
            start,
            sources.take(i),
            pretty,
        ) + render::error_line(start, "Caused by"@, Color::Yellow, sources[i]@, pretty)
            + render::source_lines(start, sources.skip(i + 1), pretty),
{
    source_lines_join(start, sources.take(i + 1), sources.skip(i + 1), pretty);
    assert(sources.take(i + 1) + sources.skip(i + 1) =~= sources);
    assert(sources.take(i + 1).drop_last() =~= sources.take(i));
}

/// Messages that differ in severity have different texts, whatever else they
/// say.
pub proof fn severities_are_told_apart(
    prefixes: Seq<PrefixData>,
    message: Message<'_>,
    other: Severity,
    pretty: bool,
    temp: PrefixTempData<'_>,
)
    requires
        other != message.severity,
    ensures
        render::rendered(prefixes, message, pretty, temp) != render::rendered(
            prefixes,
            Message { severity: other, ..message },
            pretty,
            temp,
        ),
        render::complete_prefix(prefixes, message, pretty, temp) != render::complete_prefix(
            prefixes,
            Message { severity: other, ..message },
            pretty,
            temp,
        ),
{
    let changed = Message { severity: other, ..message };
    let head = render::time_part(pretty, temp) + render::prefix_chain(prefixes, pretty)
        + render::thread_part(pretty, temp) + render::module_part(message, pretty, temp);
    severity_mark(message.severity, pretty);
    severity_mark(other, pretty);
    let a = render::severity_part(message, pretty) + ": "@;
    let b = render::severity_part(changed, pretty) + ": "@;
    joined_last(head, render::severity_part(message, pretty), ": "@);
    joined_last(head, render::severity_part(changed, pretty), ": "@);
    let reset = render::color_reset(pretty);
    let body = render::marked_breaks(message.message@);
    let rest_a = render::error_lines(head + a, message.error, pretty);
    let rest_b = render::error_lines(head + b, message.error, pretty);
    // Only the most severe one has a background, whose number comes first
    let position = if pretty {
        if message.severity is Fatal || other is Fatal {
            8int
        } else {
            9int
        }
    } else {
        1int
    };
    told_apart(reset, head, a, b, body, rest_a, rest_b, position);
}

proof fn told_apart(
    reset: Seq<char>,
    head: Seq<char>,
    a: Seq<char>,
    b: Seq<char>,
    body: Seq<char>,
    rest_a: Seq<char>,
    rest_b: Seq<char>,
    position: int,
)
    requires
        0 <= position < a.len(),
        position < b.len(),
        a[position] != b[position],
    ensures
        head + a != head + b,
        reset + (head + a) + body + "\n"@ + rest_a != reset + (head + b) + body + "\n"@ + rest_b,
{
    assert((head + a)[head.len() + position] == a[position]);
    assert((head + b)[head.len() + position] == b[position]);
    let whole_a = reset + (head + a) + body + "\n"@ + rest_a;
    let whole_b = reset + (head + b) + body + "\n"@ + rest_b;
    assert(whole_a[reset.len() + head.len() + position] == a[position]);
    assert(whole_b[reset.len() + head.len() + position] == b[position]);
}

/// The two characters by which a severity can be told from all others.
proof fn severity_mark(severity: Severity, pretty: bool)
    ensures
        ({
            let message = Message { severity, message: "", error: None, module: None, line: None };
            let tail = render::severity_part(message, pretty) + ": "@;
            &&& pretty ==> tail.len() > 9 && tail[8] == (if severity is Fatal {
                '4'
            } else {
                '3'
            }) && tail[9] == match severity {
                Severity::Trace => '4',
                Severity::Debug => '2',
                Severity::Info => '6',
                Severity::Loading => '5',
                Severity::Warning => '3',
                Severity::Error => '1',
                Severity::Fatal => '3',
            }
            &&& !pretty ==> tail.len() > 1 && tail[0] == '[' && tail[1] == match severity {
                Severity::Trace => 'T',
                Severity::Debug => 'D',
                Severity::Info => 'I',
                Severity::Loading => 'L',
                Severity::Warning => 'W',
                Severity::Error => 'E',
                Severity::Fatal => 'F',
            }
        }),
{
    severity_tail(severity, pretty);
    reveal_strlit("[Trace]: ");
    reveal_strlit(" -> \x1B[1;34mTrace\x1B[0m: ");
    reveal_strlit("[Debug]: ");
    reveal_strlit(" -> \x1B[1;32mDebug\x1B[0m: ");
    reveal_strlit("[Info]: ");
    reveal_strlit(" -> \x1B[1;36mInfo\x1B[0m: ");
    reveal_strlit("[Loading]: ");
    reveal_strlit(" -> \x1B[1;35mLoading\x1B[0m: ");
    reveal_strlit("[Warning]: ");
    reveal_strlit(" -> \x1B[1;33mWarning\x1B[0m: ");
    reveal_strlit("[Error]: ");
    reveal_strlit(" -> \x1B[1;31mError\x1B[0m: ");
    reveal_strlit("[Fatal]: ");
    reveal_strlit(" -> \x1B[1;43;31mFatal\x1B[0m: ");
}

} // verus!
