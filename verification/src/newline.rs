//! Replacing line breaks while text is appended to a buffer.

use crate::text;
use vstd::prelude::*;
use vstd::utf8::*;

verus! {

/// The byte that ends a line.
pub const NEWLINE: u8 = 10;

/// `items` with every occurrence of `separator` replaced by `marker`.
pub open spec fn replaced<T>(items: Seq<T>, separator: T, marker: Seq<T>) -> Seq<T>
    decreases items.len(),
{
    if items.len() == 0 {
        Seq::empty()
    } else {
        replaced(items.drop_last(), separator, marker) + if items.last() == separator {
            marker
        } else {
            seq![items.last()]
        }
    }
}

/// A text with every line break replaced by `marker`.
pub open spec fn broken_by(line: Seq<char>, marker: Seq<char>) -> Seq<char> {
    replaced(line, '\n', marker)
}

/// Replacing in two pieces one after the other is the same as replacing in the
/// two joined.
pub proof fn replacing_distributes<T>(a: Seq<T>, b: Seq<T>, separator: T, marker: Seq<T>)
    ensures
        replaced(a + b, separator, marker) == replaced(a, separator, marker) + replaced(
            b,
            separator,
            marker,
        ),
    decreases b.len(),
{
    if b.len() == 0 {
        assert(a + b =~= a);
    } else {
        replacing_distributes(a, b.drop_last(), separator, marker);
        assert((a + b).drop_last() =~= a + b.drop_last());
    }
}

/// Where there is nothing to replace, everything stays as it is.
pub proof fn replacing_keeps_the_rest<T>(items: Seq<T>, separator: T, marker: Seq<T>)
    requires
        !items.contains(separator),
    ensures
        replaced(items, separator, marker) == items,
    decreases items.len(),
{
    if items.len() > 0 {
        assert forall|i: int| 0 <= i < items.len() implies items[i] != separator by {
            assert(items.contains(items[i]));
        }
        replacing_keeps_the_rest(items.drop_last(), separator, marker);
        assert(items.drop_last().push(items.last()) =~= items);
    }
}

/// Nothing that was to be replaced is left, unless the marker brought it in.
pub proof fn replacing_removes_all<T>(items: Seq<T>, separator: T, marker: Seq<T>)
    requires
        !marker.contains(separator),
    ensures
        !replaced(items, separator, marker).contains(separator),
    decreases items.len(),
{
    if items.len() > 0 {
        replacing_removes_all(items.drop_last(), separator, marker);
        let front = replaced(items.drop_last(), separator, marker);
        let back = if items.last() == separator {
            marker
        } else {
            seq![items.last()]
        };
        assert forall|i: int| 0 <= i < (front + back).len() implies (front + back)[i]
            != separator by {
            if i < front.len() {
                assert(front.contains(front[i]));
            } else if items.last() == separator {
                assert(marker.contains(marker[i - front.len()]));
            }
        }
    }
}

/// The encoding of a single character holds a line break only if the character
/// is one, and then nothing else.
proof fn encoded_break(c: char)
    ensures
        c == '\n' ==> encode_scalar(c as u32) == seq![NEWLINE],
        c != '\n' ==> !encode_scalar(c as u32).contains(NEWLINE),
{
    let s = c as u32;
    char_is_scalar(c);
    assert(s <= 0x7F ==> leading_byte_width_1(s) as u32 == s) by (bit_vector);
    assert(leading_byte_width_2(s) != 10u8 && leading_byte_width_3(s) != 10u8
        && leading_byte_width_4(s) != 10u8 && last_continuation_byte(s) != 10u8
        && second_last_continuation_byte(s) != 10u8 && third_last_continuation_byte(s) != 10u8)
        by (bit_vector);
}

/// Replacing line breaks in the bytes of a text gives the bytes of the text
/// with its line breaks replaced.
pub proof fn replacing_bytes_replaces_text(line: Seq<char>, marker: Seq<char>)
    ensures
        replaced(text::utf8(line), NEWLINE, text::utf8(marker)) == text::utf8(
            broken_by(line, marker),
        ),
    decreases line.len(),
{
    if line.len() > 0 {
        let front = line.drop_last();
        let last = seq![line.last()];
        let encoded = encode_scalar(line.last() as u32);
        replacing_bytes_replaces_text(front, marker);
        assert(front + last =~= line);
        text::utf8_joins(front, last);
        assert(text::utf8(last) =~= encoded) by {
            reveal_with_fuel(encode_utf8, 2);
        }
        replacing_distributes(text::utf8(front), encoded, NEWLINE, text::utf8(marker));
        encoded_break(line.last());
        if line.last() == '\n' {
            reveal_with_fuel(replaced, 2);
            assert(replaced(encoded, NEWLINE, text::utf8(marker)) =~= text::utf8(marker));
            text::utf8_joins(broken_by(front, marker), marker);
        } else {
            replacing_keeps_the_rest(encoded, NEWLINE, text::utf8(marker));
            text::utf8_joins(broken_by(front, marker), last);
        }
    }
}

/// Appends text to a byte buffer with every line break replaced by a marker.
pub struct NewlineReplacer<'a>(pub &'a str);

impl NewlineReplacer<'_> {
    /// Appends `buf` to `device` with every line break replaced, and returns
    /// the number of bytes that were taken from `buf`: all of them.
    pub fn write(&self, device: &mut Vec<u8>, buf: &[u8]) -> (taken: usize)
        ensures
            final(device)@ == old(device)@ + replaced(buf@, NEWLINE, text::utf8(self.0@)),
            taken == buf@.len(),
    {
        let ghost marker = text::utf8(self.0@);
        let ghost start = device@;
        let len: usize = buf.len();
        let mut done: usize = 0;
        while done < len
            invariant
                done <= len,
                len == buf@.len(),
                marker == text::utf8(self.0@),
                device@ == start + replaced(buf@.take(done as int), NEWLINE, marker),
            decreases len - done,
        {
            // The bytes up to the next line break go out uninterrupted
            let mut max: usize = done;
            while max < len && buf[max] != NEWLINE
                invariant
                    done <= max <= len,
                    len == buf@.len(),
                    forall|i: int| done <= i < max ==> buf@[i] != NEWLINE,
                decreases len - max,
            {
                max = max + 1;
            }
            text::push_bytes(device, vstd::slice::slice_subrange(buf, done, max));
            proof {
                let piece = buf@.subrange(done as int, max as int);
                replacing_keeps_the_rest(piece, NEWLINE, marker);
                replacing_distributes(buf@.take(done as int), piece, NEWLINE, marker);
                assert(buf@.take(done as int) + piece =~= buf@.take(max as int));
            }
            if max < len {
                text::push_bytes(device, self.0.as_bytes());
                proof {
                    assert(buf@.take(max + 1).drop_last() =~= buf@.take(max as int));
                }
                max = max + 1;
            }
            done = max;
        }
        assert(buf@.take(done as int) =~= buf@);
        len
    }

    /// Appends the UTF-8 bytes of `line` to `device` with every line break
    /// replaced. A buffer that held a text then holds that text with `line`
    /// added.
    pub fn write_text(&self, device: &mut Vec<u8>, line: &str)
        ensures
            final(device)@ == old(device)@ + text::utf8(broken_by(line@, self.0@)),
            forall|start: Seq<u8>, written: Seq<char>|
                old(device)@ == #[trigger] (start + text::utf8(written)) ==> final(device)@
                    == start + text::utf8(written + broken_by(line@, self.0@)),
    {
        self.write(device, line.as_bytes());
        proof {
            replacing_bytes_replaces_text(line@, self.0@);
            text::text_extends(old(device)@, device@, broken_by(line@, self.0@));
        }
    }
}

} // verus!
