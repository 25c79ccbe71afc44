//! Appending text to a byte buffer, and numbers in decimal notation.

use vstd::prelude::*;
use vstd::string::*;
use vstd::utf8::*;

verus! {

/// The bytes of a text in UTF-8.
pub open spec fn utf8(text: Seq<char>) -> Seq<u8> {
    encode_utf8(text)
}

/// The decimal digit for a number below ten.
pub open spec fn digit(n: nat) -> char {
    (n + 48) as char
}

/// A number in decimal notation, without leading zeros.
pub open spec fn decimal(n: nat) -> Seq<char>
    decreases n,
{
    if n < 10 {
        seq![digit(n)]
    } else {
        decimal(n / 10).push(digit(n % 10))
    }
}

/// A number below a hundred in exactly two decimal digits.
pub open spec fn two_digits(n: nat) -> Seq<char> {
    seq![digit(n / 10), digit(n % 10)]
}

/// A number below a thousand in exactly three decimal digits.
pub open spec fn three_digits(n: nat) -> Seq<char> {
    seq![digit(n / 100), digit(n / 10 % 10), digit(n % 10)]
}

/// A number below ten thousand in exactly four decimal digits.
pub open spec fn four_digits(n: nat) -> Seq<char> {
    seq![digit(n / 1000), digit(n / 100 % 10), digit(n / 10 % 10), digit(n % 10)]
}

/// The bytes of two texts joined are the bytes of the one followed by those of
/// the other.
pub proof fn utf8_joins(a: Seq<char>, b: Seq<char>)
    ensures
        utf8(a + b) == utf8(a) + utf8(b),
    decreases a.len(),
{
    if a.len() == 0 {
        assert(a + b =~= b);
        assert(utf8(a) + utf8(b) =~= utf8(b));
    } else {
        utf8_joins(a.drop_first(), b);
        assert((a + b).drop_first() =~= a.drop_first() + b);
        assert(utf8(a + b) =~= utf8(a) + utf8(b));
    }
}

/// When bytes that end with a text get another text appended, they end with the
/// two texts joined.
pub proof fn text_extends(before: Seq<u8>, after: Seq<u8>, more: Seq<char>)
    requires
        after == before + utf8(more),
    ensures
        forall|start: Seq<u8>, written: Seq<char>|
            before == #[trigger] (start + utf8(written)) ==> after == start + utf8(written + more),
{
    assert forall|start: Seq<u8>, written: Seq<char>|
        before == #[trigger] (start + utf8(written)) implies after == start + utf8(
        written + more,
    ) by {
        utf8_joins(written, more);
        assert(start + utf8(written) + utf8(more) =~= start + (utf8(written) + utf8(more)));
    }
}

/// Appends raw bytes to `device`.
pub fn push_bytes(device: &mut Vec<u8>, bytes: &[u8])
    ensures
        final(device)@ == old(device)@ + bytes@,
{
    device.extend_from_slice(bytes);
    assert(device@ =~= old(device)@ + bytes@);
}

/// Appends the UTF-8 bytes of `more` to `device`. A buffer that held a text then
/// holds that text with `more` added.
pub fn push_text(device: &mut Vec<u8>, more: &str)
    ensures
        final(device)@ == old(device)@ + utf8(more@),
        forall|start: Seq<u8>, written: Seq<char>|
            old(device)@ == #[trigger] (start + utf8(written)) ==> final(device)@ == start + utf8(
                written + more@,
            ),
{
    push_bytes(device, more.as_bytes());
    proof {
        text_extends(old(device)@, device@, more@);
    }
}

/// The decimal digit for a number below ten.
fn digit_text(n: u64) -> (text: &'static str)
    requires
        n < 10,
    ensures
        text@ == seq![digit(n as nat)],
{
    proof {
        reveal_strlit("0");
        reveal_strlit("1");
        reveal_strlit("2");
        reveal_strlit("3");
        reveal_strlit("4");
        reveal_strlit("5");
        reveal_strlit("6");
        reveal_strlit("7");
        reveal_strlit("8");
        reveal_strlit("9");
    }
    match n {
        0 => "0",
        1 => "1",
        2 => "2",
        3 => "3",
        4 => "4",
        5 => "5",
        6 => "6",
        7 => "7",
        8 => "8",
        _ => "9",
    }
}

/// A number in decimal notation, without leading zeros.
pub fn decimal_text(n: u64) -> (text: String)
    ensures
        text@ == decimal(n as nat),
    decreases n,
{
    if n < 10 {
        digit_text(n).to_owned()
    } else {
        let mut text = decimal_text(n / 10);
        text.append(digit_text(n % 10));
        text
    }
}

/// A number below a thousand in exactly three decimal digits.
pub fn three_digits_text(n: u64) -> (text: String)
    requires
        n < 1000,
    ensures
        text@ == three_digits(n as nat),
{
    let mut text = digit_text(n / 100).to_owned();
    text.append(digit_text(n / 10 % 10));
    text.append(digit_text(n % 10));
    text
}

} // verus!
