//! The text framing of the credential payload: decimal numbers closed by a
//! mark, and strings that are preceded by their length. Every field says
//! where it ends, so fields can be laid end to end and read back one by one.

use vstd::prelude::*;
use crate::text::{from_chars, optional_text, to_chars};

verus! {

/// Closes a number field.
pub const NUMBER_END: char = ';';

/// Stands between the length of a string field and its characters.
pub const LENGTH_END: char = ':';

/// Opens an optional field that is present.
pub const PRESENT: char = '+';

/// Stands for an optional field that is absent.
pub const ABSENT: char = '-';

/// One of the ten ASCII digits.
pub open spec fn is_digit(c: char) -> bool {
    '0' <= c && c <= '9'
}

/// The number that a digit stands for.
pub open spec fn digit_value(c: char) -> nat {
    (c as u32 - '0' as u32) as nat
}

/// The digit that stands for a number below ten.
pub open spec fn digit_char(d: nat) -> char {
    ((d + 48) as u8) as char
}

/// The decimal numeral of `n`, without leading zeros.
pub open spec fn digits(n: nat) -> Seq<char>
    decreases n,
{
    if n < 10 {
        seq![digit_char(n)]
    } else {
        digits(n / 10).push(digit_char(n % 10))
    }
}

/// `piece` stands in `s` at `pos`.
pub open spec fn has_at(s: Seq<char>, pos: int, piece: Seq<char>) -> bool {
    &&& 0 <= pos
    &&& pos + piece.len() <= s.len()
    &&& forall|i: int| 0 <= i < piece.len() ==> s[pos + i] == #[trigger] piece[i]
}

/// Where the run of digits that starts at `pos` ends.
pub open spec fn digit_run_end(s: Seq<char>, pos: int) -> int
    decreases s.len() - pos,
{
    if 0 <= pos < s.len() && is_digit(s[pos]) {
        digit_run_end(s, pos + 1)
    } else {
        pos
    }
}

/// The number that the digits `s[from..to]` spell.
pub open spec fn run_value(s: Seq<char>, from: int, to: int) -> nat
    decreases to - from,
{
    if to <= from {
        0
    } else {
        run_value(s, from, to - 1) * 10 + digit_value(s[to - 1])
    }
}

/// The decimal numeral at `pos` and the position behind it: at least one
/// digit, as many as follow each other, spelling a number of 64 bits.
pub open spec fn decimal_at(s: Seq<char>, pos: int) -> Option<(u64, int)> {
    let end = digit_run_end(s, pos);
    if 0 <= pos < end && run_value(s, pos, end) <= u64::MAX {
        Some((run_value(s, pos, end) as u64, end))
    } else {
        None
    }
}

/// A number field: the numeral of `n` and the closing mark.
pub open spec fn number_field(n: u64) -> Seq<char> {
    digits(n as nat).push(NUMBER_END)
}

/// The number field at `pos` and the position behind it.
pub open spec fn number_field_at(s: Seq<char>, pos: int) -> Option<(u64, int)> {
    match decimal_at(s, pos) {
        Some((n, end)) => if end < s.len() && s[end] == NUMBER_END {
            Some((n, end + 1))
        } else {
            None
        },
        None => None,
    }
}

/// A string field: the number of characters, the mark, and the characters.
pub open spec fn text_field(text: Seq<char>) -> Seq<char> {
    digits(text.len()).push(LENGTH_END) + text
}

/// The string field at `pos` and the position behind it.
pub open spec fn text_field_at(s: Seq<char>, pos: int) -> Option<(Seq<char>, int)> {
    match decimal_at(s, pos) {
        Some((n, end)) => if end < s.len() && s[end] == LENGTH_END && end + 1 + n <= s.len() {
            Some((s.subrange(end + 1, end + 1 + n), end + 1 + n))
        } else {
            None
        },
        None => None,
    }
}

/// An optional number field: the mark of absence, or the mark of presence
/// and a number field.
pub open spec fn optional_number_field(n: Option<u64>) -> Seq<char> {
    match n {
        None => seq![ABSENT],
        Some(n) => seq![PRESENT] + number_field(n),
    }
}

/// The optional number field at `pos` and the position behind it.
pub open spec fn optional_number_field_at(s: Seq<char>, pos: int) -> Option<(Option<u64>, int)> {
    if 0 <= pos < s.len() && s[pos] == ABSENT {
        Some((None, pos + 1))
    } else if 0 <= pos < s.len() && s[pos] == PRESENT {
        match number_field_at(s, pos + 1) {
            Some((n, end)) => Some((Some(n), end)),
            None => None,
        }
    } else {
        None
    }
}

/// An optional string field: the mark of absence, or the mark of presence
/// and a string field.
pub open spec fn optional_text_field(text: Option<Seq<char>>) -> Seq<char> {
    match text {
        None => seq![ABSENT],
        Some(text) => seq![PRESENT] + text_field(text),
    }
}

/// The optional string field at `pos` and the position behind it.
pub open spec fn optional_text_field_at(s: Seq<char>, pos: int) -> Option<
    (Option<Seq<char>>, int),
> {
    if 0 <= pos < s.len() && s[pos] == ABSENT {
        Some((None, pos + 1))
    } else if 0 <= pos < s.len() && s[pos] == PRESENT {
        match text_field_at(s, pos + 1) {
            Some((text, end)) => Some((Some(text), end)),
            None => None,
        }
    } else {
        None
    }
}

/// A piece that stands at `pos` is made of two pieces that stand one behind
/// the other.
pub proof fn has_at_concat(s: Seq<char>, pos: int, first: Seq<char>, second: Seq<char>)
    ensures
        has_at(s, pos, first + second) <==> has_at(s, pos, first) && has_at(
            s,
            pos + first.len(),
            second,
        ),
{
    if has_at(s, pos, first + second) {
        assert forall|i: int| 0 <= i < first.len() implies s[pos + i] == #[trigger] first[i] by {
            assert((first + second)[i] == first[i]);
        }
        assert forall|i: int| 0 <= i < second.len() implies s[pos + first.len() + i]
            == #[trigger] second[i] by {
            assert((first + second)[first.len() + i] == second[i]);
        }
    }
    if has_at(s, pos, first) && has_at(s, pos + first.len(), second) {
        assert forall|i: int| 0 <= i < (first + second).len() implies s[pos + i] == #[trigger] (
        first + second)[i] by {
            if i < first.len() {
                assert(first[i] == (first + second)[i]);
            } else {
                assert(second[i - first.len()] == (first + second)[i]);
                assert(s[pos + first.len() + (i - first.len())] == second[i - first.len()]);
            }
        }
    }
}

/// Every piece stands at the start of whatever begins with it.
pub proof fn has_at_start(piece: Seq<char>, rest: Seq<char>)
    ensures
        has_at(piece + rest, 0, piece),
{
    assert forall|i: int| 0 <= i < piece.len() implies (piece + rest)[0 + i] == #[trigger] piece[i] by {
    }
}

proof fn digits_are_digits(n: nat)
    ensures
        digits(n).len() >= 1,
        forall|i: int| 0 <= i < digits(n).len() ==> is_digit(#[trigger] digits(n)[i]),
    decreases n,
{
    if n >= 10 {
        digits_are_digits(n / 10);
    }
}

proof fn run_value_grows(s: Seq<char>, from: int, mid: int, to: int)
    requires
        from <= mid <= to,
    ensures
        run_value(s, from, mid) <= run_value(s, from, to),
    decreases to - mid,
{
    if mid < to {
        run_value_grows(s, from, mid, to - 1);
    }
}

proof fn run_end_of_digits(s: Seq<char>, from: int, to: int)
    requires
        0 <= from <= to <= s.len(),
        forall|i: int| from <= i < to ==> is_digit(#[trigger] s[i]),
    ensures
        digit_run_end(s, from) == digit_run_end(s, to),
    decreases to - from,
{
    if from < to {
        run_end_of_digits(s, from + 1, to);
    }
}

proof fn run_value_of_digits(s: Seq<char>, pos: int, n: nat)
    requires
        has_at(s, pos, digits(n)),
    ensures
        run_value(s, pos, pos + digits(n).len()) == n,
    decreases n,
{
    let d = digits(n);
    if n < 10 {
        assert(s[pos + 0] == d[0]);
        assert(run_value(s, pos, pos) == 0);
        assert(run_value(s, pos, pos + 1) == run_value(s, pos, pos) * 10 + digit_value(s[pos]));
    } else {
        let front = digits(n / 10);
        assert(has_at(s, pos, front)) by {
            assert forall|i: int| 0 <= i < front.len() implies s[pos + i] == #[trigger] front[i] by {
                assert(d[i] == front[i]);
            }
        }
        run_value_of_digits(s, pos, n / 10);
        assert(s[pos + front.len()] == d[front.len() as int]);
        assert(d[front.len() as int] == digit_char(n % 10));
    }
}

/// A numeral that is followed by something other than a digit is read back
/// as the number it was written from.
pub proof fn decimal_round_trip(s: Seq<char>, pos: int, n: u64)
    requires
        has_at(s, pos, digits(n as nat)),
        pos + digits(n as nat).len() < s.len(),
        !is_digit(s[pos + digits(n as nat).len()]),
    ensures
        decimal_at(s, pos) == Some((n, pos + digits(n as nat).len())),
{
    let d = digits(n as nat);
    digits_are_digits(n as nat);
    assert forall|i: int| pos <= i < pos + d.len() implies is_digit(#[trigger] s[i]) by {
        assert(s[pos + (i - pos)] == d[i - pos]);
    }
    run_end_of_digits(s, pos, pos + d.len());
    run_value_of_digits(s, pos, n as nat);
}

/// A number field is read back as the number it was written from, whatever
/// follows it.
pub proof fn number_field_round_trip(s: Seq<char>, pos: int, n: u64)
    requires
        has_at(s, pos, number_field(n)),
    ensures
        number_field_at(s, pos) == Some((n, pos + number_field(n).len())),
{
    let d = digits(n as nat);
    assert(number_field(n) =~= d + seq![NUMBER_END]);
    has_at_concat(s, pos, d, seq![NUMBER_END]);
    assert(s[pos + d.len() + 0] == seq![NUMBER_END][0]);
    decimal_round_trip(s, pos, n);
}

/// A string field is read back as the string it was written from, whatever
/// the string holds and whatever follows it.
pub proof fn text_field_round_trip(s: Seq<char>, pos: int, text: Seq<char>)
    requires
        has_at(s, pos, text_field(text)),
        text.len() <= u64::MAX,
    ensures
        text_field_at(s, pos) == Some((text, pos + text_field(text).len())),
{
    let d = digits(text.len());
    assert(text_field(text) =~= (d + seq![LENGTH_END]) + text);
    has_at_concat(s, pos, d + seq![LENGTH_END], text);
    has_at_concat(s, pos, d, seq![LENGTH_END]);
    assert(s[pos + d.len() + 0] == seq![LENGTH_END][0]);
    decimal_round_trip(s, pos, text.len() as u64);
    let start = pos + d.len() + 1;
    assert(s.subrange(start, start + text.len()) =~= text) by {
        assert forall|i: int| 0 <= i < text.len() implies s[start + i] == text[i] by {
            assert(s[pos + (d + seq![LENGTH_END]).len() + i] == text[i]);
        }
    }
}

/// An optional number field is read back as it was written.
pub proof fn optional_number_field_round_trip(s: Seq<char>, pos: int, n: Option<u64>)
    requires
        has_at(s, pos, optional_number_field(n)),
    ensures
        optional_number_field_at(s, pos) == Some((n, pos + optional_number_field(n).len())),
{
    match n {
        None => {
            assert(s[pos + 0] == seq![ABSENT][0]);
        },
        Some(n) => {
            has_at_concat(s, pos, seq![PRESENT], number_field(n));
            assert(s[pos + 0] == seq![PRESENT][0]);
            number_field_round_trip(s, pos + 1, n);
        },
    }
}

/// An optional string field is read back as it was written.
pub proof fn optional_text_field_round_trip(s: Seq<char>, pos: int, text: Option<Seq<char>>)
    requires
        has_at(s, pos, optional_text_field(text)),
        text matches Some(t) ==> t.len() <= u64::MAX,
    ensures
        optional_text_field_at(s, pos) == Some((text, pos + optional_text_field(text).len())),
{
    match text {
        None => {
            assert(s[pos + 0] == seq![ABSENT][0]);
        },
        Some(t) => {
            has_at_concat(s, pos, seq![PRESENT], text_field(t));
            assert(s[pos + 0] == seq![PRESENT][0]);
            text_field_round_trip(s, pos + 1, t);
        },
    }
}

proof fn run_end_is_behind(s: Seq<char>, pos: int)
    requires
        0 <= pos <= s.len(),
    ensures
        pos <= digit_run_end(s, pos) <= s.len(),
    decreases s.len() - pos,
{
    if pos < s.len() && is_digit(s[pos]) {
        run_end_is_behind(s, pos + 1);
    }
}

/// Appends the decimal numeral of `n`.
pub fn write_decimal(out: &mut Vec<char>, n: u64)
    ensures
        final(out)@ == old(out)@ + digits(n as nat),
    decreases n,
{
    if n >= 10 {
        write_decimal(out, n / 10);
    }
    let digit: u8 = (n % 10) as u8 + 48;
    out.push(digit as char);
    assert(out@ =~= old(out)@ + digits(n as nat));
}

/// Appends a number field.
pub fn write_number_field(out: &mut Vec<char>, n: u64)
    ensures
        final(out)@ == old(out)@ + number_field(n),
{
    write_decimal(out, n);
    out.push(NUMBER_END);
    assert(out@ =~= old(out)@ + number_field(n));
}

/// Appends a string field.
pub fn write_text_field(out: &mut Vec<char>, text: &str)
    ensures
        final(out)@ == old(out)@ + text_field(text@),
{
    let mut chars = to_chars(text);
    write_decimal(out, chars.len() as u64);
    out.push(LENGTH_END);
    out.append(&mut chars);
    assert(out@ =~= old(out)@ + text_field(text@));
}

/// Appends an optional number field.
pub fn write_optional_number_field(out: &mut Vec<char>, n: Option<u64>)
    ensures
        final(out)@ == old(out)@ + optional_number_field(n),
{
    match n {
        None => {
            out.push(ABSENT);
            assert(out@ =~= old(out)@ + optional_number_field(n));
        },
        Some(value) => {
            out.push(PRESENT);
            write_number_field(out, value);
            assert(out@ =~= old(out)@ + optional_number_field(n));
        },
    }
}

/// Appends an optional string field.
pub fn write_optional_text_field(out: &mut Vec<char>, text: &Option<String>)
    ensures
        final(out)@ == old(out)@ + optional_text_field(optional_text(*text)),
{
    match text {
        None => {
            out.push(ABSENT);
            assert(out@ =~= old(out)@ + optional_text_field(optional_text(*text)));
        },
        Some(t) => {
            out.push(PRESENT);
            write_text_field(out, t.as_str());
            assert(out@ =~= old(out)@ + optional_text_field(optional_text(*text)));
        },
    }
}

/// Reads the decimal numeral at `pos`.
pub fn read_decimal(s: &Vec<char>, pos: usize) -> (read: Option<(u64, usize)>)
    ensures
        match read {
            Some((n, end)) => decimal_at(s@, pos as int) == Some((n, end as int)),
            None => decimal_at(s@, pos as int) is None,
        },
{
    let len: usize = s.len();
    let mut i: usize = pos;
    let mut value: u64 = 0;
    if pos > len {
        return None;
    }
    while i < len && '0' <= s[i] && s[i] <= '9'
        invariant
            pos <= i <= len,
            len == s@.len(),
            value == run_value(s@, pos as int, i as int),
            forall|j: int| pos <= j < i ==> is_digit(#[trigger] s@[j]),
        decreases len - i,
    {
        let digit: u64 = (s[i] as u32 - '0' as u32) as u64;
        if value > (u64::MAX - digit) / 10 {
            proof {
                let end = digit_run_end(s@, pos as int);
                run_end_of_digits(s@, pos as int, i as int + 1);
                run_end_is_behind(s@, i as int + 1);
                run_value_grows(s@, pos as int, i as int + 1, end);
            }
            return None;
        }
        value = value * 10 + digit;
        i = i + 1;
    }
    proof {
        run_end_of_digits(s@, pos as int, i as int);
    }
    if i == pos {
        None
    } else {
        Some((value, i))
    }
}

/// Reads the number field at `pos`.
pub fn read_number_field(s: &Vec<char>, pos: usize) -> (read: Option<(u64, usize)>)
    ensures
        match read {
            Some((n, end)) => number_field_at(s@, pos as int) == Some((n, end as int)),
            None => number_field_at(s@, pos as int) is None,
        },
{
    match read_decimal(s, pos) {
        None => None,
        Some((n, end)) => {
            proof {
                run_end_is_behind(s@, pos as int);
            }
            if end < s.len() && s[end] == NUMBER_END {
                Some((n, end + 1))
            } else {
                None
            }
        },
    }
}

/// Reads the string field at `pos`.
pub fn read_text_field(s: &Vec<char>, pos: usize) -> (read: Option<(String, usize)>)
    ensures
        match read {
            Some((text, end)) => text_field_at(s@, pos as int) == Some((text@, end as int)),
            None => text_field_at(s@, pos as int) is None,
        },
{
    match read_decimal(s, pos) {
        None => None,
        Some((n, end)) => {
            proof {
                run_end_is_behind(s@, pos as int);
            }
            if end < s.len() && s[end] == LENGTH_END {
                let start: usize = end + 1;
                let room: usize = s.len() - start;
                if n <= room as u64 {
                    let stop: usize = start + n as usize;
                    Some((from_chars(s, start, stop), stop))
                } else {
                    None
                }
            } else {
                None
            }
        },
    }
}

/// Reads the optional number field at `pos`.
pub fn read_optional_number_field(s: &Vec<char>, pos: usize) -> (read: Option<
    (Option<u64>, usize),
>)
    ensures
        match read {
            Some((n, end)) => optional_number_field_at(s@, pos as int) == Some((n, end as int)),
            None => optional_number_field_at(s@, pos as int) is None,
        },
{
    if pos >= s.len() {
        None
    } else if s[pos] == ABSENT {
        Some((None, pos + 1))
    } else if s[pos] == PRESENT {
        match read_number_field(s, pos + 1) {
            Some((n, end)) => Some((Some(n), end)),
            None => None,
        }
    } else {
        None
    }
}

/// Reads the optional string field at `pos`.
pub fn read_optional_text_field(s: &Vec<char>, pos: usize) -> (read: Option<
    (Option<String>, usize),
>)
    ensures
        match read {
            Some((text, end)) => optional_text_field_at(s@, pos as int) == Some(
                (optional_text(text), end as int),
            ),
            None => optional_text_field_at(s@, pos as int) is None,
        },
{
    if pos >= s.len() {
        None
    } else if s[pos] == ABSENT {
        Some((None, pos + 1))
    } else if s[pos] == PRESENT {
        match read_text_field(s, pos + 1) {
            Some((text, end)) => Some((Some(text), end)),
            None => None,
        }
    } else {
        None
    }
}

} // verus!
