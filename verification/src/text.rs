//! Small grammars over text: file extensions, decimal numbers.

use vstd::prelude::*;
use vstd::string::StringExecFns;

verus! {

/// Whether `at` is the position of the last dot in `name`.
pub open spec fn is_last_dot(name: Seq<char>, at: int) -> bool {
    &&& 0 <= at < name.len()
    &&& name[at] == '.'
    &&& forall|after: int| at < after < name.len() ==> name[after] != '.'
}

/// The extension of the file name `name`: what follows its last dot.
///
/// A name without a dot has none, nor has one whose only dot is its first
/// character, nor has the name `..`.
pub open spec fn spec_extension(name: Seq<char>) -> Option<Seq<char>> {
    if name == seq!['.', '.'] {
        None
    } else if exists|at: int| 0 < at && is_last_dot(name, at) {
        let at = choose|at: int| 0 < at && is_last_dot(name, at);
        Some(name.subrange(at + 1, name.len() as int))
    } else {
        None
    }
}

/// The extension of the file name `name`.
pub fn extension(name: &str) -> (ext: Option<&str>)
    ensures
        ext.deep_view() == spec_extension(name@),
{
    let total = name.unicode_len();
    let mut count: usize = 0;
    let mut last: Option<usize> = None;
    for c in it: name.chars()
        invariant
            total == name@.len(),
            count == it.index(),
            it.seq() == name@,
            match last {
                Some(at) => at < count && name@[at as int] == '.' && forall|after: int|
                    at < after < count ==> name@[after] != '.',
                None => forall|k: int| 0 <= k < count ==> name@[k] != '.',
            },
    {
        if c == '.' {
            last = Some(count);
        }
        count += 1;
    }
    match last {
        Some(at) => {
            if at == 0 || (total == 2 && name.get_char(0) == '.') {
                proof {
                    if at != 0 {
                        assert(name@ =~= seq!['.', '.']);
                    } else {
                        assert(is_last_dot(name@, 0));
                        assert forall|k: int| !(0 < k && is_last_dot(name@, k)) by {}
                    }
                }
                None
            } else {
                proof {
                    assert(is_last_dot(name@, at as int));
                    let chosen = choose|k: int| 0 < k && is_last_dot(name@, k);
                    assert(chosen == at);
                    assert(name@ != seq!['.', '.']) by {
                        if name@ == seq!['.', '.'] {
                            assert(name@[0] == '.');
                        }
                    }
                }
                Some(name.substring_char(at + 1, total))
            }
        },
        None => {
            proof {
                assert forall|k: int| !is_last_dot(name@, k) by {}
                assert(name@ != seq!['.', '.']) by {
                    if name@ == seq!['.', '.'] {
                        assert(name@[0] == '.');
                    }
                }
            }
            None
        },
    }
}

/// `c`, with a capital ASCII letter replaced by its small one.
pub open spec fn spec_ascii_lower(c: char) -> char {
    if 'A' <= c && c <= 'Z' {
        ((c as u32) + 32) as char
    } else {
        c
    }
}

/// `text`, with each capital ASCII letter replaced by its small one.
pub open spec fn ascii_lowered(text: Seq<char>) -> Seq<char> {
    Seq::new(text.len(), |i: int| spec_ascii_lower(text[i]))
}

/// The extensions of the content that is shown, in small letters.
pub open spec fn known_extensions() -> Seq<Seq<char>> {
    seq!["png"@, "jpg"@, "jpeg"@, "mp4"@, "webm"@]
}

/// The known extension that `ext` is when capital and small ASCII letters
/// count as the same; none where it is not a known one.
pub open spec fn spec_known_extension(ext: Seq<char>) -> Option<Seq<char>> {
    if known_extensions().contains(ascii_lowered(ext)) {
        Some(ascii_lowered(ext))
    } else {
        None
    }
}

/// Whether `text`, its capital ASCII letters made small, reads `small`.
fn reads_as(text: &str, small: &str) -> (same: bool)
    ensures
        same == (ascii_lowered(text@) == small@),
{
    let total = text.unicode_len();
    let wanted = small.unicode_len();
    if total != wanted {
        return false;
    }
    let mut at: usize = 0;
    for c in it: text.chars()
        invariant
            total == text@.len(),
            wanted == small@.len(),
            total == wanted,
            at == it.index(),
            it.seq() == text@,
            forall|k: int| 0 <= k < at ==> spec_ascii_lower(text@[k]) == small@[k],
    {
        let other = small.get_char(at);
        let folded: u32 = if 'A' <= c && c <= 'Z' {
            c as u32 + 32
        } else {
            c as u32
        };
        if folded != other as u32 {
            assert(ascii_lowered(text@)[at as int] != small@[at as int]);
            return false;
        }
        at += 1;
    }
    assert(ascii_lowered(text@) =~= small@);
    true
}

/// The known extension that `ext` is, in small letters.
pub fn known_extension(ext: &str) -> (known: Option<&'static str>)
    ensures
        known.deep_view() == spec_known_extension(ext@),
{
    let ghost low = ascii_lowered(ext@);
    let ghost all = known_extensions();
    assert(all[0] == "png"@ && all[1] == "jpg"@ && all[2] == "jpeg"@ && all[3] == "mp4"@ && all[4]
        == "webm"@);
    if reads_as(ext, "png") {
        assert(all[0] == low);
        Some("png")
    } else if reads_as(ext, "jpg") {
        assert(all[1] == low);
        Some("jpg")
    } else if reads_as(ext, "jpeg") {
        assert(all[2] == low);
        Some("jpeg")
    } else if reads_as(ext, "mp4") {
        assert(all[3] == low);
        Some("mp4")
    } else if reads_as(ext, "webm") {
        assert(all[4] == low);
        Some("webm")
    } else {
        None
    }
}

/// The character of the decimal digit `d`.
pub open spec fn digit_char(d: int) -> char {
    (48 + d) as char
}

/// `n` written in decimal, without leading zeros.
pub open spec fn decimal(n: nat) -> Seq<char>
    decreases n,
{
    if n < 10 {
        seq![digit_char(n as int)]
    } else {
        decimal(n / 10).push(digit_char((n % 10) as int))
    }
}

/// The text of the decimal digit `d`.
fn digit_text(d: u16) -> (text: &'static str)
    requires
        d < 10,
    ensures
        text@ == seq![digit_char(d as int)],
{
    proof {
        reveal_strlit("0");
        reveal_strlit("1");
        reveal_strlit("2");
        reveal_strlit("3");
        reveal_strlit("4");
        reveal_strlit("5");
        reveal_strlit("6");
        reveal_strlit("7");
        reveal_strlit("8");
        reveal_strlit("9");
    }
    let text = if d == 0 {
        "0"
    } else if d == 1 {
        "1"
    } else if d == 2 {
        "2"
    } else if d == 3 {
        "3"
    } else if d == 4 {
        "4"
    } else if d == 5 {
        "5"
    } else if d == 6 {
        "6"
    } else if d == 7 {
        "7"
    } else if d == 8 {
        "8"
    } else {
        "9"
    };
    assert(text@ =~= seq![digit_char(d as int)]);
    text
}

/// Writes `n` in decimal behind what `out` holds.
pub fn push_decimal(out: &mut String, n: u16)
    ensures
        final(out)@ == old(out)@ + decimal(n as nat),
    decreases n,
{
    if n >= 10 {
        push_decimal(out, n / 10);
    }
    out.append(digit_text(n % 10));
    assert(out@ =~= old(out)@ + decimal(n as nat));
}

/// Whether `b` is the ASCII code of a decimal digit.
pub open spec fn is_digit(b: u8) -> bool {
    48 <= b <= 57
}

/// What the decimal digit with the ASCII code `b` counts; 0 for any other byte.
pub open spec fn digit_value(b: u8) -> nat {
    if is_digit(b) {
        (b - 48) as nat
    } else {
        0
    }
}

/// The number that the decimal digits `digits` write.
pub open spec fn digits_value(digits: Seq<u8>) -> nat
    decreases digits.len(),
{
    if digits.len() == 0 {
        0
    } else {
        digits_value(digits.drop_last()) * 10 + digit_value(digits.last())
    }
}

/// `text` without the plus sign that may lead it.
pub open spec fn unsigned_digits(text: Seq<u8>) -> Seq<u8> {
    if text.len() > 0 && text[0] == 43 {
        text.drop_first()
    } else {
        text
    }
}

/// The number that `text` writes: a plus sign or none, then one decimal
/// digit or more, and nothing else. Text of any other shape writes no
/// number, nor do digits whose number is beyond `u64`.
pub open spec fn spec_parse_u64(text: Seq<u8>) -> Option<u64> {
    let digits = unsigned_digits(text);
    if digits.len() > 0 && (forall|i: int| 0 <= i < digits.len() ==> is_digit(#[trigger] digits[i]))
        && digits_value(digits) <= u64::MAX {
        Some(digits_value(digits) as u64)
    } else {
        None
    }
}

/// A number never gets smaller by more digits behind it.
proof fn lemma_digits_value_grows(digits: Seq<u8>, k: int)
    requires
        0 <= k <= digits.len(),
    ensures
        digits_value(digits.take(k)) <= digits_value(digits),
    decreases digits.len() - k,
{
    if k == digits.len() {
        assert(digits.take(k) =~= digits);
    } else {
        lemma_digits_value_grows(digits, k + 1);
        assert(digits.take(k + 1).drop_last() =~= digits.take(k));
    }
}

/// Reads the number that `text` writes.
pub fn parse_u64(text: &[u8]) -> (number: Option<u64>)
    ensures
        number == spec_parse_u64(text@),
{
    let start: usize = if text.len() > 0 && text[0] == 43 {
        1
    } else {
        0
    };
    let ghost digits = unsigned_digits(text@);
    assert(digits =~= text@.subrange(start as int, text@.len() as int));
    if start == text.len() {
        return None;
    }
    let mut value: u64 = 0;
    let mut at: usize = start;
    while at < text.len()
        invariant
            start <= at <= text@.len(),
            digits == unsigned_digits(text@),
            digits == text@.subrange(start as int, text@.len() as int),
            value == digits_value(digits.take(at - start)),
            forall|i: int| 0 <= i < at - start ==> is_digit(#[trigger] digits[i]),
        decreases text@.len() - at,
    {
        let b = text[at];
        if b < 48 || b > 57 {
            assert(!is_digit(digits[at - start]));
            return None;
        }
        let d = (b - 48) as u64;
        proof {
            assert(digits.take(at - start + 1).drop_last() =~= digits.take(at - start));
            assert(digits.take(at - start + 1).last() == b);
            lemma_digits_value_grows(digits, at - start + 1);
        }
        if value > (u64::MAX - d) / 10 {
            return None;
        }
        value = value * 10 + d;
        at += 1;
    }
    assert(digits.take(at - start) =~= digits);
    Some(value)
}

} // verus!
