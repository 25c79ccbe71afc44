//! Reading back what was written: numbers, times, and text with its line breaks
//! replaced.

use crate::clock;
use crate::clock::{ClockTime, UtcTime};
use crate::lines;
use crate::newline;
use crate::render;
use crate::render::Snapshot;
use crate::text;
use vstd::prelude::*;
use vstd::utf8::*;

verus! {

/// The number that a row of decimal digits stands for.
pub open spec fn value(digits: Seq<char>) -> int
    decreases digits.len(),
{
    if digits.len() == 0 {
        0
    } else {
        10 * value(digits.drop_last()) + (digits.last() as int - '0' as int)
    }
}

/// Whether a text consists of decimal digits alone.
pub open spec fn all_digits(digits: Seq<char>) -> bool {
    forall|i: int| 0 <= i < digits.len() ==> '0' <= #[trigger] digits[i] <= '9'
}

/// A text without its line breaks.
pub open spec fn without_breaks(line: Seq<char>) -> Seq<char> {
    line.filter(|c: char| c != '\n')
}

/// A text without the characters that follow a line break.
pub open spec fn unmarked(line: Seq<char>) -> Seq<char>
    decreases line.len(),
{
    if line.len() == 0 {
        Seq::empty()
    } else if line.len() >= 2 && line[line.len() - 2] == '\n' {
        unmarked(line.drop_last())
    } else {
        unmarked(line.drop_last()).push(line.last())
    }
}

/// A number in decimal notation consists of digits, has no leading zero, and can
/// be read back.
pub proof fn decimals_read_back(n: nat)
    ensures
        all_digits(text::decimal(n)),
        value(text::decimal(n)) == n,
        text::decimal(n).len() > 0,
        text::decimal(n)[0] == '0' ==> text::decimal(n).len() == 1,
    decreases n,
{
    reveal_with_fuel(value, 2);
    if n >= 10 {
        decimals_read_back(n / 10);
        assert(text::decimal(n).drop_last() =~= text::decimal(n / 10));
        assert(text::decimal(n)[0] == text::decimal(n / 10)[0]);
        if text::decimal(n / 10)[0] == '0' {
            reveal_with_fuel(value, 2);
            assert(n / 10 == 0);
        }
    }
}

/// A number in so many digits can be read back.
pub proof fn fixed_digits_read_back(n: nat)
    ensures
        n < 100 ==> all_digits(text::two_digits(n)) && value(text::two_digits(n)) == n
            && text::two_digits(n).len() == 2,
        n < 1000 ==> all_digits(text::three_digits(n)) && value(text::three_digits(n)) == n
            && text::three_digits(n).len() == 3,
        n < 10000 ==> all_digits(text::four_digits(n)) && value(text::four_digits(n)) == n
            && text::four_digits(n).len() == 4,
{
    reveal_with_fuel(value, 5);
    let two = text::two_digits(n);
    let three = text::three_digits(n);
    let four = text::four_digits(n);
    assert(two.drop_last() =~= seq![text::digit(n / 10)]);
    assert(three.drop_last() =~= seq![text::digit(n / 100), text::digit(n / 10 % 10)]);
    assert(three.drop_last().drop_last() =~= seq![text::digit(n / 100)]);
    assert(four.drop_last() =~= seq![
        text::digit(n / 1000),
        text::digit(n / 100 % 10),
        text::digit(n / 10 % 10),
    ]);
    assert(four.drop_last().drop_last() =~= seq![
        text::digit(n / 1000),
        text::digit(n / 100 % 10),
    ]);
    assert(four.drop_last().drop_last().drop_last() =~= seq![text::digit(n / 1000)]);
}

/// The time of day on the console is `HH:MM::SS.mmm`, and can be read back: it
/// gives the second of the day and the millisecond of the second.
pub proof fn clock_reads_back(time: UtcTime)
    requires
        time.valid(),
    ensures
        ({
            let shown = time.clock();
            let hour = value(shown.subrange(0, 2));
            let minute = value(shown.subrange(3, 5));
            let second = value(shown.subrange(7, 9));
            &&& shown.len() == 13
            &&& all_digits(shown.subrange(0, 2))
            &&& shown[2] == ':'
            &&& all_digits(shown.subrange(3, 5))
            &&& shown[5] == ':' && shown[6] == ':'
            &&& all_digits(shown.subrange(7, 9))
            &&& shown[9] == '.'
            &&& all_digits(shown.subrange(10, 13))
            &&& 0 <= hour < 24 && 0 <= minute < 60 && 0 <= second < 60
            &&& 3600 * hour + 60 * minute + second == time.secs as int % 86400
            &&& value(shown.subrange(10, 13)) == time.nanos as int / 1_000_000
        }),
{
    reveal_strlit(":");
    reveal_strlit("::");
    reveal_strlit(".");
    let shown = time.clock();
    let secs = time.secs as int;
    let of_day = secs % 86400;
    fixed_digits_read_back((of_day / 3600) as nat);
    fixed_digits_read_back((of_day / 60 % 60) as nat);
    fixed_digits_read_back((of_day % 60) as nat);
    fixed_digits_read_back((time.nanos / 1_000_000) as nat);
    assert(shown.subrange(0, 2) =~= clock::hour(secs));
    assert(shown.subrange(3, 5) =~= clock::minute(secs));
    assert(shown.subrange(7, 9) =~= clock::second(secs));
    assert(shown.subrange(10, 13) =~= clock::millisecond(time.nanos));
}

/// A timestamp in the log file is `YYYY-MM-DDTHH:MM:SS.mmmZ`, and can be read
/// back: it gives the date, the second of the day and the millisecond of the
/// second.
#[verifier::rlimit(30)]
pub proof fn timestamp_reads_back(time: ClockTime)
    requires
        time.valid(),
    ensures
        ({
            let shown = time.timestamp();
            let date = clock::date(time.secs as int);
            let hour = value(shown.subrange(11, 13));
            let minute = value(shown.subrange(14, 16));
            let second = value(shown.subrange(17, 19));
            &&& shown.len() == 24
            &&& all_digits(shown.subrange(0, 4)) && value(shown.subrange(0, 4)) == date.year
            &&& shown[4] == '-'
            &&& all_digits(shown.subrange(5, 7)) && value(shown.subrange(5, 7)) == date.month
            &&& shown[7] == '-'
            &&& all_digits(shown.subrange(8, 10)) && value(shown.subrange(8, 10)) == date.day
            &&& shown[10] == 'T'
            &&& all_digits(shown.subrange(11, 13))
            &&& shown[13] == ':'
            &&& all_digits(shown.subrange(14, 16))
            &&& shown[16] == ':'
            &&& all_digits(shown.subrange(17, 19))
            &&& shown[19] == '.'
            &&& all_digits(shown.subrange(20, 23))
            &&& shown[23] == 'Z'
            &&& 0 <= hour < 24 && 0 <= minute < 60 && 0 <= second < 60
            &&& 3600 * hour + 60 * minute + second == time.secs as int % 86400
            &&& value(shown.subrange(20, 23)) == time.nanos as int / 1_000_000
            &&& date.valid()
            &&& date.days() == time.secs as int / 86400
        }),
{
    reveal_strlit("-");
    reveal_strlit("T");
    reveal_strlit(":");
    reveal_strlit(".");
    reveal_strlit("Z");
    clock::timestamps_have_four_digit_years(time);
    crate::calendar::every_day_has_a_date(time.secs as int / 86400);
    let shown = time.timestamp();
    let secs = time.secs as int;
    let of_day = secs % 86400;
    let date = clock::date(secs);
    fixed_digits_read_back(date.year as nat);
    fixed_digits_read_back(date.month as nat);
    fixed_digits_read_back(date.day as nat);
    fixed_digits_read_back((of_day / 3600) as nat);
    fixed_digits_read_back((of_day / 60 % 60) as nat);
    fixed_digits_read_back((of_day % 60) as nat);
    fixed_digits_read_back((time.nanos / 1_000_000) as nat);
    assert(shown.subrange(0, 4) =~= text::four_digits(date.year as nat));
    assert(shown.subrange(5, 7) =~= text::two_digits(date.month as nat));
    assert(shown.subrange(8, 10) =~= text::two_digits(date.day as nat));
    assert(shown.subrange(11, 13) =~= clock::hour(secs));
    assert(shown.subrange(14, 16) =~= clock::minute(secs));
    assert(shown.subrange(17, 19) =~= clock::second(secs));
    assert(shown.subrange(20, 23) =~= clock::millisecond(time.nanos));
}

/// The time in the name of a log file is `DD_MM_YYYY_HH_MM`, and can be read
/// back, for the years of four digits.
pub proof fn stamp_reads_back(time: UtcTime)
    requires
        time.valid(),
        0 <= clock::date(time.secs as int).year < 10000,
    ensures
        ({
            let shown = time.stamp();
            let date = clock::date(time.secs as int);
            let hour = value(shown.subrange(11, 13));
            let minute = value(shown.subrange(14, 16));
            &&& shown.len() == 16
            &&& all_digits(shown.subrange(0, 2)) && value(shown.subrange(0, 2)) == date.day
            &&& shown[2] == '_'
            &&& all_digits(shown.subrange(3, 5)) && value(shown.subrange(3, 5)) == date.month
            &&& shown[5] == '_'
            &&& all_digits(shown.subrange(6, 10)) && value(shown.subrange(6, 10)) == date.year
            &&& shown[10] == '_'
            &&& all_digits(shown.subrange(11, 13))
            &&& shown[13] == '_'
            &&& all_digits(shown.subrange(14, 16))
            &&& 0 <= hour < 24 && 0 <= minute < 60
            &&& 60 * hour + minute == time.secs as int % 86400 / 60
            &&& date.valid()
            &&& date.days() == time.secs as int / 86400
        }),
{
    reveal_strlit("_");
    crate::calendar::every_day_has_a_date(time.secs as int / 86400);
    let shown = time.stamp();
    let secs = time.secs as int;
    let of_day = secs % 86400;
    let date = clock::date(secs);
    fixed_digits_read_back(date.year as nat);
    fixed_digits_read_back(date.month as nat);
    fixed_digits_read_back(date.day as nat);
    fixed_digits_read_back((of_day / 3600) as nat);
    fixed_digits_read_back((of_day / 60 % 60) as nat);
    assert(shown.subrange(0, 2) =~= text::two_digits(date.day as nat));
    assert(shown.subrange(3, 5) =~= text::two_digits(date.month as nat));
    assert(shown.subrange(6, 10) =~= text::four_digits(date.year as nat));
    assert(shown.subrange(11, 13) =~= clock::hour(secs));
    assert(shown.subrange(14, 16) =~= clock::minute(secs));
}

/// The year in the name of a log file can be read back for all other years too:
/// it has its sign and at least four digits.
pub proof fn signed_years_read_back(year: int)
    requires
        !(0 <= year < 10000),
    ensures
        ({
            let shown = clock::year_number(year);
            &&& shown.len() >= 5
            &&& shown[0] == if year < 0 {
                '-'
            } else {
                '+'
            }
            &&& all_digits(shown.skip(1))
            &&& value(shown.skip(1)) == if year < 0 {
                -year
            } else {
                year
            }
        }),
{
    reveal_strlit("-");
    reveal_strlit("+");
    let n = if year < 0 {
        (-year) as nat
    } else {
        year as nat
    };
    fixed_digits_read_back(n);
    decimals_read_back(n);
    decimals_are_long(n);
    assert(clock::year_number(year).skip(1) =~= clock::at_least_four_digits(n));
}

proof fn decimals_are_long(n: nat)
    ensures
        n >= 10000 ==> text::decimal(n).len() >= 4,
{
    reveal_with_fuel(text::decimal, 5);
}

/// Replacing is done item by item: nothing gives nothing, the separator gives
/// the marker, and any other item gives itself.
pub proof fn replacing_goes_by_items<T>(item: T, separator: T, marker: Seq<T>)
    ensures
        newline::replaced(Seq::<T>::empty(), separator, marker) == Seq::<T>::empty(),
        newline::replaced(seq![separator], separator, marker) == marker,
        item != separator ==> newline::replaced(seq![item], separator, marker) == seq![item],
        newline::NEWLINE == 10,
{
    reveal_with_fuel(newline::replaced, 2);
    assert(seq![separator].drop_last() =~= Seq::<T>::empty());
    assert(seq![item].drop_last() =~= Seq::<T>::empty());
    assert(Seq::<T>::empty() + marker =~= marker);
    assert(Seq::<T>::empty() + seq![item] =~= seq![item]);
}

/// The line breaks of a text are replaced as those of its bytes are, and its
/// bytes are its UTF-8.
pub proof fn breaks_are_replaced(line: Seq<char>, marker: Seq<char>)
    ensures
        newline::broken_by(line, marker) == newline::replaced(line, '\n', marker),
        encode_utf8(newline::broken_by(line, marker)) == newline::replaced(
            encode_utf8(line),
            10u8,
            encode_utf8(marker),
        ),
        text::utf8(line) == encode_utf8(line),
{
    newline::replacing_bytes_replaces_text(line, marker);
}

/// A time on the console must have a date in the calendar, and one in the log
/// file must lie in the years from 1970 to 9999. Nothing else is asked of them.
pub proof fn times_can_be_written(date: UtcTime, time: ClockTime, now: Snapshot)
    ensures
        now.valid(true) <==> now.date.valid(),
        now.valid(false) <==> now.time.valid(),
        date.valid() <==> -8334601228800 <= date.secs <= 8210266876799 && date.nanos
            < 1_000_000_000,
        time.valid() <==> 0 <= time.secs < 253_402_300_800 && time.nanos < 1_000_000_000,
{
}

/// Dropping the line breaks of a text drops exactly these.
pub proof fn dropping_drops_breaks(line: Seq<char>)
    ensures
        render::dropped_breaks(line) == without_breaks(line),
    decreases line.len(),
{
    reveal(Seq::filter);
    reveal_strlit("");
    if line.len() > 0 {
        dropping_drops_breaks(line.drop_last());
        assert(render::dropped_breaks(line) =~= without_breaks(line));
    } else {
        assert(render::dropped_breaks(line) =~= without_breaks(line));
    }
}

/// Marking the line breaks of a text puts a mark behind each, and nothing else:
/// without the marks, the text is what it was.
pub proof fn marks_can_be_taken_away(line: Seq<char>)
    ensures
        unmarked(render::marked_breaks(line)) == line,
        forall|i: int|
            0 <= i < render::marked_breaks(line).len() && #[trigger] render::marked_breaks(line)[i]
                == '\n' ==> i + 1 < render::marked_breaks(line).len() && render::marked_breaks(
                line,
            )[i + 1] == '>',
    decreases line.len(),
{
    reveal_strlit("\n>");
    lines::marking_marks(line);
    if line.len() > 0 {
        let front = render::marked_breaks(line.drop_last());
        let marked = render::marked_breaks(line);
        marks_can_be_taken_away(line.drop_last());
        assert(front.len() > 0 ==> front.last() != '\n');
        if line.last() == '\n' {
            assert(marked.drop_last() =~= front.push('\n'));
            assert(marked.drop_last().drop_last() =~= front);
            assert(unmarked(marked.drop_last()) == unmarked(front).push('\n'));
            assert(marked[marked.len() - 2] == '\n');
            assert(unmarked(marked) == unmarked(marked.drop_last()));
        } else {
            assert(marked =~= front.push(line.last()));
            assert(marked.drop_last() =~= front);
        }
        assert(line =~= line.drop_last().push(line.last()));
    }
}

} // verus!
