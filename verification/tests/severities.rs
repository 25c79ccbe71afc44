use sublogger::text::{decimal_text, three_digits_text};
use sublogger::{
    level_to_severity, Color, DefaultLogFilter, Filter, Level, LogFilter, Message, PendingCall,
    PrefixData, Severity, Style, Target,
};

const ALL: [Severity; 7] = [
    Severity::Trace,
    Severity::Debug,
    Severity::Info,
    Severity::Loading,
    Severity::Warning,
    Severity::Error,
    Severity::Fatal,
];

#[test]
fn severities_are_ordered() {
    for i in 0..ALL.len() {
        for j in 0..ALL.len() {
            assert_eq!(ALL[i] < ALL[j], i < j);
            assert_eq!(ALL[i] >= ALL[j], i >= j);
            assert_eq!(ALL[i] == ALL[j], i == j);
            assert_eq!(ALL[i].partial_cmp(&ALL[j]), i.partial_cmp(&j));
        }
    }
}

#[test]
fn severities_have_names_and_styles() {
    let expected = [
        ("Trace", "\x1b[1;34mTrace\x1b[0m"),
        ("Debug", "\x1b[1;32mDebug\x1b[0m"),
        ("Info", "\x1b[1;36mInfo\x1b[0m"),
        ("Loading", "\x1b[1;35mLoading\x1b[0m"),
        ("Warning", "\x1b[1;33mWarning\x1b[0m"),
        ("Error", "\x1b[1;31mError\x1b[0m"),
        ("Fatal", "\x1b[1;43;31mFatal\x1b[0m"),
    ];
    for (severity, (name, styled)) in ALL.iter().zip(expected) {
        assert_eq!(severity.name(), name);
        assert_eq!(severity.styled(), styled);
    }
    assert_eq!(
        Severity::Fatal.style(),
        Style { foreground: Some(Color::Red), background: Some(Color::Yellow), is_bold: true }
    );
}

#[test]
fn prefixes_are_painted_in_every_color() {
    for (color, code) in [
        (Color::Black, "30"),
        (Color::Red, "31"),
        (Color::Green, "32"),
        (Color::Yellow, "33"),
        (Color::Blue, "34"),
        (Color::Purple, "35"),
        (Color::Cyan, "36"),
        (Color::White, "37"),
        (Color::Fixed(0), "38;5;0"),
        (Color::Fixed(255), "38;5;255"),
        (Color::RGB(1, 20, 255), "38;2;1;20;255"),
    ] {
        let prefix = PrefixData { string: "p".to_owned(), color };
        assert_eq!(
            prefix.style(),
            Style { foreground: Some(color), background: None, is_bold: false }
        );
        assert_eq!(prefix.styled(), format!("\x1b[{code}mp\x1b[0m"));
        assert_eq!(prefix.clone().string, "p");
    }
}

#[test]
fn levels_have_severities() {
    for (level, severity) in [
        (Level::Error, Severity::Error),
        (Level::Warn, Severity::Warning),
        (Level::Info, Severity::Info),
        (Level::Debug, Severity::Debug),
        (Level::Trace, Severity::Trace),
    ] {
        assert_eq!(level_to_severity(level), severity);
    }
}

#[test]
fn default_filter_has_thresholds() {
    for debug_assertions in [true, false] {
        let filter = DefaultLogFilter { debug_assertions };
        let threshold = if debug_assertions { Severity::Debug } else { Severity::Info };
        for severity in ALL {
            let message =
                Message { severity, message: "", error: None, module: None, line: None };
            assert_eq!(filter.test_message(Target::Stdout, &message), severity >= threshold);
            assert!(filter.test_message(Target::File, &message));
        }
    }
}

#[test]
fn functions_are_filters() {
    let module = "noisy".to_owned();
    let filter = Filter(move |target: Target, message: &Message<'_>| {
        target == Target::File || message.module != Some(module.as_str())
    });
    for filter in [&filter, &*filter.box_clone()] {
        for (target, name, expected) in [
            (Target::Stdout, "noisy", false),
            (Target::Stdout, "quiet", true),
            (Target::File, "noisy", true),
            (Target::File, "quiet", true),
        ] {
            let message = Message {
                severity: Severity::Info,
                message: "",
                error: None,
                module: Some(name),
                line: None,
            };
            assert_eq!(filter.test_message(target, &message), expected);
        }
    }
}

#[test]
fn numbers_are_written_in_decimal() {
    for n in [0u64, 7, 9, 10, 99, 100, 12345, u64::MAX] {
        assert_eq!(decimal_text(n), n.to_string());
    }
    assert_eq!(three_digits_text(0), "000");
    assert_eq!(three_digits_text(42), "042");
    assert_eq!(three_digits_text(999), "999");
}

#[test]
fn pending_call_is_applied_once() {
    let mut call = PendingCall::new(|name: &String| name.len());
    assert!(call.is_pending());
    call.apply(&"four".to_owned());
    assert!(!call.is_pending());
    assert_eq!(call.finish(), Some(4));

    let call: PendingCall<fn(&String) -> usize, usize> = PendingCall::new(|name| name.len());
    assert_eq!(call.finish(), None);
}
