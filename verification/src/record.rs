//! The high score on record: one unsigned number, kept as decimal text and
//! nothing else.

use vstd::prelude::*;

verus! {

/// Whether the byte is a decimal digit.
pub open spec fn is_digit(b: u8) -> bool {
    0x30 <= b <= 0x39
}

/// Whether every byte is a decimal digit.
pub open spec fn all_digits(s: Seq<u8>) -> bool {
    forall|i: int| 0 <= i < s.len() ==> is_digit(#[trigger] s[i])
}

/// The number that a run of decimal digits writes.
pub open spec fn digits_value(s: Seq<u8>) -> nat
    decreases s.len(),
{
    if s.len() == 0 {
        0
    } else {
        (digits_value(s.drop_last()) * 10 + (s.last() - 0x30)) as nat
    }
}

/// The digits of a number's text: what follows an optional plus sign.
pub open spec fn unsigned_part(s: Seq<u8>) -> Seq<u8> {
    if s.len() > 0 && s[0] == 0x2B {
        s.skip(1)
    } else {
        s
    }
}

/// The number that the text writes, where it writes one that a score can
/// hold: an optional plus sign, then at least one digit and nothing else.
pub open spec fn parsed(s: Seq<u8>) -> Option<u32> {
    let digits = unsigned_part(s);
    if digits.len() > 0 && all_digits(digits) && digits_value(digits) <= u32::MAX {
        Some(digits_value(digits) as u32)
    } else {
        None
    }
}

/// The high score that the text records: zero where it writes no number.
pub open spec fn recorded(s: Seq<u8>) -> u32 {
    match parsed(s) {
        Some(v) => v,
        None => 0,
    }
}

/// The decimal text of a number, without sign or leading zeros.
pub open spec fn decimal(n: nat) -> Seq<u8>
    decreases n,
{
    if n < 10 {
        seq![(0x30 + n) as u8]
    } else {
        decimal(n / 10).push((0x30 + n % 10) as u8)
    }
}

/// A prefix of a run of digits writes no larger a number than the run.
pub proof fn prefix_value_is_no_larger(s: Seq<u8>, n: int)
    requires
        0 <= n <= s.len(),
        all_digits(s),
    ensures
        digits_value(s.take(n)) <= digits_value(s),
    decreases s.len(),
{
    if n == s.len() {
        assert(s.take(n) == s);
    } else {
        let front = s.drop_last();
        assert(front.take(n) == s.take(n));
        assert(all_digits(front)) by {
            assert forall|i: int| 0 <= i < front.len() implies is_digit(#[trigger] front[i]) by {
                assert(front[i] == s[i]);
            }
        }
        prefix_value_is_no_larger(front, n);
        assert(is_digit(s.last()));
    }
}

/// Reads the number that the text writes, where it writes one.
pub fn parse_high_score(text: &[u8]) -> (r: Option<u32>)
    ensures
        r == parsed(text@),
{
    let start: usize = if text.len() > 0 && text[0] == 0x2B {
        1
    } else {
        0
    };
    let ghost digits = unsigned_part(text@);
    if start == text.len() {
        return None;
    }
    let mut value: u64 = 0;
    let mut i: usize = start;
    while i < text.len()
        invariant
            start <= i <= text.len(),
            start <= 1,
            digits == text@.skip(start as int),
            digits == unsigned_part(text@),
            all_digits(digits.take(i - start)),
            value == digits_value(digits.take(i - start)),
            value <= u32::MAX,
        decreases text.len() - i,
    {
        let b: u8 = text[i];
        if b < 0x30 || b > 0x39 {
            assert(!is_digit(digits[i - start]));
            return None;
        }
        let ghost before = digits.take(i - start);
        let ghost after = digits.take(i + 1 - start);
        proof {
            assert(after.drop_last() == before);
            assert(after.last() == b);
            assert forall|j: int| 0 <= j < after.len() implies is_digit(#[trigger] after[j]) by {
                if j < before.len() {
                    assert(after[j] == before[j]);
                }
            }
        }
        value = value * 10 + (b - 0x30) as u64;
        if value > u32::MAX as u64 {
            proof {
                if all_digits(digits) {
                    prefix_value_is_no_larger(digits, i + 1 - start);
                }
            }
            return None;
        }
        i = i + 1;
    }
    proof {
        assert(digits.take(i - start) == digits);
    }
    Some(value as u32)
}

/// Reads the high score on record: zero where the text writes no number.
pub fn load_high_score(text: &[u8]) -> (r: u32)
    ensures
        r == recorded(text@),
{
    match parse_high_score(text) {
        Some(v) => v,
        None => 0,
    }
}

/// Writes the high score as decimal text.
pub fn store_high_score(score: u32) -> (r: Vec<u8>)
    ensures
        r@ == decimal(score as nat),
    decreases score,
{
    if score < 10 {
        let mut text: Vec<u8> = Vec::new();
        text.push(0x30 + score as u8);
        assert(text@ == seq![(0x30 + score) as u8]);
        text
    } else {
        let mut text = store_high_score(score / 10);
        text.push(0x30 + (score % 10) as u8);
        text
    }
}

/// The text of a number is made of digits, at least one, and writes that
/// number.
pub proof fn decimal_writes_its_number(n: nat)
    ensures
        decimal(n).len() > 0,
        all_digits(decimal(n)),
        digits_value(decimal(n)) == n,
    decreases n,
{
    if n < 10 {
        let s = decimal(n);
        assert(s.drop_last().len() == 0);
        assert(digits_value(s.drop_last()) == 0);
    } else {
        decimal_writes_its_number(n / 10);
        let front = decimal(n / 10);
        let s = decimal(n);
        assert(s.drop_last() == front);
        assert forall|i: int| 0 <= i < s.len() implies is_digit(#[trigger] s[i]) by {
            if i < front.len() {
                assert(s[i] == front[i]);
            }
        }
    }
}

/// A high score that was stored is read back as it was.
pub proof fn stored_score_is_read_back(score: u32)
    ensures
        parsed(decimal(score as nat)) == Some(score),
        recorded(decimal(score as nat)) == score,
{
    decimal_writes_its_number(score as nat);
    let s = decimal(score as nat);
    assert(is_digit(s[0]));
}

} // verus!
