//! Numbers and switches in text, as environment variables hold them.
use crate::text::{ascii_lowered, chars_of, text_eq, to_ascii_lower};
use vstd::prelude::*;

verus! {

/// Whether every character is a decimal digit.
pub open spec fn all_digits(text: Seq<char>) -> bool {
    forall|i: int| 0 <= i < text.len() ==> '0' <= #[trigger] text[i] <= '9'
}

/// The number that digits stand for.
pub open spec fn digits_value(digits: Seq<char>) -> nat
    decreases digits.len(),
{
    if digits.len() == 0 {
        0
    } else {
        digits_value(digits.drop_last()) * 10 + (digits.last() as nat - '0' as nat) as nat
    }
}

/// The unsigned number in a text: digits, with a plus sign in front or without,
/// and no more than `max`.
pub open spec fn unsigned_in(text: Seq<char>, max: int) -> Option<int> {
    let digits = if text.len() > 0 && text[0] == '+' {
        text.skip(1)
    } else {
        text
    };
    if digits.len() > 0 && all_digits(digits) && digits_value(digits) <= max {
        Some(digits_value(digits) as int)
    } else {
        None
    }
}

/// The signed number in a text: as an unsigned one, or digits behind a minus
/// sign, and no less than `min`.
pub open spec fn signed_in(text: Seq<char>, min: int, max: int) -> Option<int> {
    if text.len() > 0 && text[0] == '-' {
        let digits = text.skip(1);
        if digits.len() > 0 && all_digits(digits) && -(digits_value(digits) as int) >= min {
            Some(-(digits_value(digits) as int))
        } else {
            None
        }
    } else {
        unsigned_in(text, max)
    }
}

proof fn lemma_digits_value_grows(digits: Seq<char>, n: int)
    requires
        0 <= n <= digits.len(),
        all_digits(digits),
    ensures
        digits_value(digits.take(n)) <= digits_value(digits),
    decreases digits.len(),
{
    if n < digits.len() {
        let shorter = digits.drop_last();
        assert forall|i: int| 0 <= i < shorter.len() implies '0' <= #[trigger] shorter[i]
            <= '9' by {
            assert(shorter[i] == digits[i]);
        }
        lemma_digits_value_grows(shorter, n);
        assert(shorter.take(n) =~= digits.take(n));
    } else {
        assert(digits.take(n) =~= digits);
    }
}

/// The value of the digits from position `start` on, if there are any, all are
/// digits and the value is at most `max`.
fn digits_from(chars: &Vec<char>, start: usize, max: u64) -> (value: Option<u64>)
    requires
        start <= chars@.len(),
    ensures
        ({
            let digits = chars@.skip(start as int);
            match value {
                Some(v) => digits.len() > 0 && all_digits(digits) && digits_value(digits) == v && v
                    <= max,
                None => digits.len() == 0 || !all_digits(digits) || digits_value(digits) > max,
            }
        }),
{
    let ghost digits = chars@.skip(start as int);
    if start == chars.len() {
        return None;
    }
    let mut value: u64 = 0;
    let mut i: usize = start;
    while i < chars.len()
        invariant
            start <= i <= chars@.len(),
            digits == chars@.skip(start as int),
            value <= max,
            all_digits(digits.take(i - start)),
            value == digits_value(digits.take(i - start)),
        decreases chars@.len() - i,
    {
        let c: char = chars[i];
        assert(digits[i - start] == c);
        if !('0' <= c && c <= '9') {
            assert(!all_digits(digits));
            return None;
        }
        let d: u64 = c as u64 - 48;
        let ghost longer = digits.take(i - start + 1);
        proof {
            assert(longer.drop_last() =~= digits.take(i - start));
            assert(longer.last() == c);
            assert(digits_value(longer) == value * 10 + d);
            if all_digits(digits) {
                lemma_digits_value_grows(digits, i - start + 1);
            }
        }
        let wide: u128 = value as u128 * 10 + d as u128;
        if wide > max as u128 {
            return None;
        }
        value = wide as u64;
        i = i + 1;
        assert forall|k: int| 0 <= k < longer.len() implies '0' <= #[trigger] longer[k] <= '9' by {
            if k < longer.len() - 1 {
                assert(longer[k] == digits.take(longer.len() - 1)[k]);
            }
        }
    }
    assert(digits.take(i - start) =~= digits);
    Some(value)
}

/// The unsigned number in a text, at most `max`.
pub fn parse_unsigned(text: &str, max: u64) -> (value: Option<u64>)
    ensures
        (match value {
            Some(v) => Some(v as int),
            None => None,
        }) == unsigned_in(text@, max as int),
{
    let chars = chars_of(text);
    assert(chars@.skip(0) =~= chars@);
    if chars.len() > 0 && chars[0] == '+' {
        digits_from(&chars, 1, max)
    } else {
        digits_from(&chars, 0, max)
    }
}

/// The signed number in a text.
pub fn parse_signed(text: &str) -> (value: Option<i64>)
    ensures
        (match value {
            Some(v) => Some(v as int),
            None => None,
        }) == signed_in(text@, i64::MIN as int, i64::MAX as int),
{
    let chars = chars_of(text);
    assert(chars@.skip(0) =~= chars@);
    if chars.len() > 0 && chars[0] == '-' {
        match digits_from(&chars, 1, 0x8000_0000_0000_0000) {
            Some(v) => Some((-(v as i128)) as i64),
            None => None,
        }
    } else {
        match parse_unsigned(text, 0x7fff_ffff_ffff_ffff) {
            Some(v) => Some(v as i64),
            None => None,
        }
    }
}

/// The switch in a text, whatever its letter case.
pub open spec fn switch_in(text: Seq<char>) -> Option<bool> {
    let value = ascii_lowered(text);
    if value == "1"@ || value == "true"@ || value == "yes"@ || value == "on"@ {
        Some(true)
    } else if value == "0"@ || value == "false"@ || value == "no"@ || value == "off"@ {
        Some(false)
    } else {
        None
    }
}

pub fn parse_switch(text: &str) -> (value: Option<bool>)
    ensures
        value == switch_in(text@),
{
    let lowered = to_ascii_lower(text);
    let value = lowered.as_str();
    if text_eq(value, "1") || text_eq(value, "true") || text_eq(value, "yes") || text_eq(
        value,
        "on",
    ) {
        Some(true)
    } else if text_eq(value, "0") || text_eq(value, "false") || text_eq(value, "no") || text_eq(
        value,
        "off",
    ) {
        Some(false)
    } else {
        None
    }
}

/// The decimal text of a number is read back as the number.
pub proof fn decimal_reads_back(n: nat)
    ensures
        all_digits(crate::text::decimal(n)),
        crate::text::decimal(n).len() > 0,
        digits_value(crate::text::decimal(n)) == n,
        forall|max: int| n <= max ==> #[trigger] unsigned_in(crate::text::decimal(n), max) == Some(
            n as int,
        ),
    decreases n,
{
    let text = crate::text::decimal(n);
    if n < 10 {
        assert(text.drop_last() =~= Seq::<char>::empty());
        assert(digits_value(text.drop_last()) == 0);
        assert(digits_value(text) == n);
    } else {
        decimal_reads_back(n / 10);
        let head = crate::text::decimal(n / 10);
        assert(text.drop_last() =~= head);
        assert forall|i: int| 0 <= i < text.len() implies '0' <= #[trigger] text[i] <= '9' by {
            if i < head.len() {
                assert(text[i] == head[i]);
            }
        }
    }
    assert(text[0] != '+') by {
        assert('0' <= text[0]);
    }
}

/// A number with a minus sign in front reads back as the negative number, and one with a
/// plus sign as the number itself. Anything but digits behind the sign is no number.
pub proof fn signed_numbers_read_back(n: nat)
    requires
        n <= i64::MAX,
    ensures
        signed_in(crate::text::decimal(n), i64::MIN as int, i64::MAX as int) == Some(n as int),
        signed_in(seq!['-'] + crate::text::decimal(n), i64::MIN as int, i64::MAX as int) == Some(
            -(n as int),
        ),
        unsigned_in(seq!['+'] + crate::text::decimal(n), i64::MAX as int) == Some(n as int),
        unsigned_in(seq!['-'] + crate::text::decimal(n), i64::MAX as int) is None,
        unsigned_in(Seq::<char>::empty(), i64::MAX as int) is None,
        n > 0 ==> unsigned_in(crate::text::decimal(n), n - 1) is None,
{
    decimal_reads_back(n);
    let digits = crate::text::decimal(n);
    assert('0' <= digits[0] <= '9');
    assert((seq!['-'] + digits).skip(1) =~= digits);
    assert((seq!['+'] + digits).skip(1) =~= digits);
    assert(!all_digits(seq!['-'] + digits)) by {
        assert((seq!['-'] + digits)[0] == '-');
    }
}

/// The words for on and off, in any letter case.
pub proof fn switches_are_words(text: Seq<char>)
    ensures
        ascii_lowered(text) == "1"@ || ascii_lowered(text) == "true"@ || ascii_lowered(text)
            == "yes"@ || ascii_lowered(text) == "on"@ ==> switch_in(text) == Some(true),
        ascii_lowered(text) == "0"@ || ascii_lowered(text) == "false"@ || ascii_lowered(text)
            == "no"@ || ascii_lowered(text) == "off"@ ==> switch_in(text) == Some(false),
{
    reveal_strlit("1");
    reveal_strlit("true");
    reveal_strlit("yes");
    reveal_strlit("on");
    reveal_strlit("0");
    reveal_strlit("false");
    reveal_strlit("no");
    reveal_strlit("off");
    assert("1"@.len() == 1 && "true"@.len() == 4 && "yes"@.len() == 3 && "on"@.len() == 2);
    assert("0"@.len() == 1 && "false"@.len() == 5 && "no"@.len() == 2 && "off"@.len() == 3);
    assert("1"@[0] == '1' && "0"@[0] == '0');
    assert("on"@[0] == 'o' && "no"@[0] == 'n');
    assert("yes"@[0] == 'y' && "off"@[0] == 'o');
}

} // verus!
