//! The byte ranges of HTTP as far as resuming needs them: where the body of
//! a partial response begins.

use vstd::prelude::*;

verus! {

/// Whether `b` is an ASCII digit.
pub open spec fn is_digit(b: u8) -> bool {
    48 <= b <= 57
}

/// The number that the ASCII digits `digits` write in decimal.
pub open spec fn decimal(digits: Seq<u8>) -> nat
    decreases digits.len(),
{
    if digits.len() == 0 {
        0
    } else {
        (decimal(digits.drop_last()) * 10 + (digits.last() - 48)) as nat
    }
}

/// The first place at or after `from` where `text` holds no digit.
pub open spec fn digits_end(text: Seq<u8>, from: int) -> int
    decreases text.len() - from,
{
    if from < 0 || from >= text.len() || !is_digit(text[from]) {
        from
    } else {
        digits_end(text, from + 1)
    }
}

/// The unit with which a byte range begins: `bytes` and a space.
pub open spec fn unit() -> Seq<u8> {
    seq![98u8, 121u8, 116u8, 101u8, 115u8, 32u8]
}

/// The first byte position that the value `text` of a `Content-Range`
/// header announces. The value must begin with the unit, one or more
/// digits and a hyphen, and the number must fit in 64 bits; what follows
/// the hyphen is not looked at.
pub open spec fn range_start_spec(text: Seq<u8>) -> Option<u64> {
    let end = digits_end(text, 6);
    if text.len() >= 6 && text.subrange(0, 6) == unit() && 6 < end < text.len() && text[end] == 45
        && decimal(text.subrange(6, end)) <= u64::MAX {
        Some(decimal(text.subrange(6, end)) as u64)
    } else {
        None
    }
}

proof fn lemma_digits_end_from(text: Seq<u8>, start: int, at: int)
    requires
        0 <= start <= at <= text.len(),
        forall|k: int| start <= k < at ==> is_digit(#[trigger] text[k]),
    ensures
        digits_end(text, start) == digits_end(text, at),
    decreases at - start,
{
    if start < at {
        lemma_digits_end_from(text, start + 1, at);
    }
}

proof fn lemma_decimal_grows(text: Seq<u8>, start: int, at: int, end: int)
    requires
        0 <= start <= at <= end <= text.len(),
        forall|k: int| start <= k < end ==> is_digit(#[trigger] text[k]),
    ensures
        decimal(text.subrange(start, at)) <= decimal(text.subrange(start, end)),
    decreases end - at,
{
    if at < end {
        lemma_decimal_grows(text, start, at, end - 1);
        assert(text.subrange(start, end).drop_last() =~= text.subrange(start, end - 1));
        assert(is_digit(text[end - 1]));
    }
}

/// Returns the first byte position that the value `text` of a
/// `Content-Range` header announces, if it is well formed.
pub fn range_start(text: &[u8]) -> (start: Option<u64>)
    ensures
        start == range_start_spec(text@),
{
    if text.len() < 6 || text[0] != 98 || text[1] != 121 || text[2] != 116 || text[3] != 101
        || text[4] != 115 || text[5] != 32 {
        assert(text@.len() >= 6 ==> text@.subrange(0, 6) != unit()) by {
            if text@.len() >= 6 {
                let head = text@.subrange(0, 6);
                assert(head[0] == text@[0] && head[1] == text@[1] && head[2] == text@[2]);
                assert(head[3] == text@[3] && head[4] == text@[4] && head[5] == text@[5]);
            }
        }
        return None;
    }
    assert(text@.subrange(0, 6) =~= unit());
    let mut value: u64 = 0;
    let mut i: usize = 6;
    while i < text.len() && 48 <= text[i] && text[i] <= 57
        invariant
            6 <= i <= text@.len(),
            forall|k: int| 6 <= k < i ==> is_digit(#[trigger] text@[k]),
            value == decimal(text@.subrange(6, i as int)),
        decreases text@.len() - i,
    {
        let digit: u64 = (text[i] - 48) as u64;
        let ghost grown = text@.subrange(6, i + 1);
        assert(grown.drop_last() =~= text@.subrange(6, i as int));
        assert(decimal(grown) == value * 10 + digit);
        let next = match value.checked_mul(10) {
            Some(tens) => tens.checked_add(digit),
            None => None,
        };
        match next {
            Some(n) => {
                value = n;
            },
            None => {
                proof {
                    let end = digits_end(text@, 6);
                    lemma_digits_end_from(text@, 6, i + 1);
                    assert(end >= i + 1) by {
                        lemma_digits_end_at_least(text@, i + 1);
                    }
                    assert forall|k: int| 6 <= k < end implies is_digit(#[trigger] text@[k]) by {
                        lemma_digits_before_end(text@, 6, k);
                    }
                    lemma_end_in_text(text@, 6);
                    lemma_decimal_grows(text@, 6, i + 1, end);
                }
                return None;
            },
        }
        i = i + 1;
    }
    proof {
        lemma_digits_end_from(text@, 6, i as int);
        assert(digits_end(text@, i as int) == i);
    }
    if i == 6 || i >= text.len() || text[i] != 45 {
        return None;
    }
    Some(value)
}

proof fn lemma_digits_end_at_least(text: Seq<u8>, from: int)
    ensures
        digits_end(text, from) >= from,
    decreases text.len() - from,
{
    if !(from < 0 || from >= text.len() || !is_digit(text[from])) {
        lemma_digits_end_at_least(text, from + 1);
    }
}

proof fn lemma_end_in_text(text: Seq<u8>, from: int)
    requires
        0 <= from <= text.len(),
    ensures
        digits_end(text, from) <= text.len(),
    decreases text.len() - from,
{
    if !(from >= text.len() || !is_digit(text[from])) {
        lemma_end_in_text(text, from + 1);
    }
}

proof fn lemma_digits_before_end(text: Seq<u8>, from: int, k: int)
    requires
        0 <= from <= k < digits_end(text, from),
    ensures
        is_digit(text[k]),
    decreases text.len() - from,
{
    if !(from >= text.len() || !is_digit(text[from])) {
        if k > from {
            lemma_digits_before_end(text, from + 1, k);
        }
    }
}

} // verus!
