//! Whole numbers as decimal text.
//!
//! The identifiers and instants of this crate are written in decimal, and
//! read back from it. Text is a sequence of characters; a number is read from
//! a range of a vector of them, so that a caller can split a text once and
//! read its parts in place.

use vstd::prelude::*;

verus! {

/// One of the ten ASCII digits.
pub open spec fn is_digit(c: char) -> bool {
    '0' <= c && c <= '9'
}

/// The number that a digit stands for.
pub open spec fn digit_value(c: char) -> nat {
    (c as u32 - 48) as nat
}

/// The digit that stands for a number below ten.
pub open spec fn digit_char(d: nat) -> char {
    if d == 0 {
        '0'
    } else if d == 1 {
        '1'
    } else if d == 2 {
        '2'
    } else if d == 3 {
        '3'
    } else if d == 4 {
        '4'
    } else if d == 5 {
        '5'
    } else if d == 6 {
        '6'
    } else if d == 7 {
        '7'
    } else if d == 8 {
        '8'
    } else {
        '9'
    }
}

/// Every character is a digit.
pub open spec fn all_digits(s: Seq<char>) -> bool {
    forall|i: int| 0 <= i < s.len() ==> is_digit(#[trigger] s[i])
}

/// The number that a run of digits stands for, the first digit weighing most.
pub open spec fn decimal_value(s: Seq<char>) -> nat
    decreases s.len(),
{
    if s.len() == 0 {
        0
    } else {
        decimal_value(s.drop_last()) * 10 + digit_value(s.last())
    }
}

/// The shortest run of digits that stands for a number.
pub open spec fn decimal_text(n: nat) -> Seq<char>
    decreases n,
{
    if n < 10 {
        seq![digit_char(n)]
    } else {
        decimal_text(n / 10).push(digit_char(n % 10))
    }
}

/// What an unsigned text stands for: a number, if the text is one digit or
/// more, nothing else, and the number fits in 64 bits.
pub open spec fn unsigned_of(s: Seq<char>) -> Option<u64> {
    if s.len() > 0 && all_digits(s) && decimal_value(s) <= u64::MAX {
        Some(decimal_value(s) as u64)
    } else {
        None
    }
}

/// What a signed text stands for: one `+` or `-` may come before the digits.
pub open spec fn signed_of(s: Seq<char>) -> Option<int> {
    if s.len() == 0 {
        None
    } else if s[0] == '-' || s[0] == '+' {
        let digits = s.skip(1);
        if digits.len() > 0 && all_digits(digits) {
            Some(
                if s[0] == '-' {
                    -(decimal_value(digits) as int)
                } else {
                    decimal_value(digits) as int
                },
            )
        } else {
            None
        }
    } else if all_digits(s) {
        Some(decimal_value(s) as int)
    } else {
        None
    }
}

/// What a signed text stands for within 64 bits.
pub open spec fn i64_of(s: Seq<char>) -> Option<i64> {
    match signed_of(s) {
        Some(v) => if i64::MIN <= v <= i64::MAX {
            Some(v as i64)
        } else {
            None
        },
        None => None,
    }
}

/// What a signed text stands for within 32 bits.
pub open spec fn i32_of(s: Seq<char>) -> Option<i32> {
    match signed_of(s) {
        Some(v) => if i32::MIN <= v <= i32::MAX {
            Some(v as i32)
        } else {
            None
        },
        None => None,
    }
}

/// The text of a signed number: a `-` before the digits of a negative one.
pub open spec fn signed_text(n: int) -> Seq<char> {
    if n < 0 {
        seq!['-'] + decimal_text((-n) as nat)
    } else {
        decimal_text(n as nat)
    }
}

/// The text of a number is digits, at least one of them, and stands for the
/// number.
pub proof fn lemma_decimal_text(n: nat)
    ensures
        decimal_text(n).len() >= 1,
        all_digits(decimal_text(n)),
        decimal_value(decimal_text(n)) == n,
    decreases n,
{
    if n < 10 {
        let t = decimal_text(n);
        assert(t.drop_last() =~= Seq::<char>::empty());
        assert(decimal_value(t.drop_last()) == 0);
    } else {
        lemma_decimal_text(n / 10);
        let head = decimal_text(n / 10);
        let t = head.push(digit_char(n % 10));
        assert(t.drop_last() =~= head);
        assert(t.last() == digit_char(n % 10));
        assert forall|i: int| 0 <= i < t.len() implies is_digit(#[trigger] t[i]) by {
            if i < head.len() {
                assert(t[i] == head[i]);
            }
        }
    }
}

/// A number is read back from its text.
pub proof fn lemma_unsigned_round_trip(n: u64)
    ensures
        unsigned_of(decimal_text(n as nat)) == Some(n),
{
    lemma_decimal_text(n as nat);
}

/// A signed number is read back from its text.
pub proof fn lemma_signed_round_trip(n: int)
    ensures
        signed_text(n).len() >= 1,
        signed_of(signed_text(n)) == Some(n),
{
    if n < 0 {
        let digits = decimal_text((-n) as nat);
        lemma_decimal_text((-n) as nat);
        assert(signed_text(n).skip(1) =~= digits);
    } else {
        lemma_decimal_text(n as nat);
        assert(is_digit(decimal_text(n as nat)[0]));
    }
}

/// The text of a signed number is digits, but for a `-` that may come first.
pub proof fn lemma_signed_text_chars(n: int)
    ensures
        forall|k: int|
            0 <= k < signed_text(n).len() ==> is_digit(#[trigger] signed_text(n)[k])
                || signed_text(n)[k] == '-',
{
    let t = signed_text(n);
    if n < 0 {
        let digits = decimal_text((-n) as nat);
        lemma_decimal_text((-n) as nat);
        assert forall|k: int| 0 <= k < t.len() implies is_digit(#[trigger] t[k]) || t[k]
            == '-' by {
            if k > 0 {
                assert(t[k] == digits[k - 1]);
            }
        }
    } else {
        lemma_decimal_text(n as nat);
    }
}

/// A run of digits stands for no less than any of its beginnings.
pub proof fn lemma_decimal_value_prefix(s: Seq<char>, k: int)
    requires
        0 <= k <= s.len(),
    ensures
        decimal_value(s.take(k)) <= decimal_value(s),
    decreases s.len(),
{
    if k == s.len() {
        assert(s.take(k) =~= s);
    } else {
        lemma_decimal_value_prefix(s.drop_last(), k);
        assert(s.drop_last().take(k) =~= s.take(k));
    }
}

/// The digit that a character is, if it is one.
pub fn digit_of(c: char) -> (d: Option<u8>)
    ensures
        d is Some <==> is_digit(c),
        d matches Some(v) ==> v == digit_value(c) && v < 10,
{
    if '0' <= c && c <= '9' {
        Some((c as u32 - 48) as u8)
    } else {
        None
    }
}

/// Reads an unsigned number from the characters `from..to` of a text.
pub fn parse_unsigned(text: &Vec<char>, from: usize, to: usize) -> (r: Option<u64>)
    requires
        from <= to <= text.len(),
    ensures
        r == unsigned_of(text@.subrange(from as int, to as int)),
{
    let ghost s = text@.subrange(from as int, to as int);
    if from == to {
        return None;
    }
    let mut acc: u64 = 0;
    let mut i: usize = from;
    while i < to
        invariant
            from <= i <= to <= text.len(),
            s == text@.subrange(from as int, to as int),
            all_digits(s.take(i - from)),
            acc == decimal_value(s.take(i - from)),
        decreases to - i,
    {
        let ghost before = s.take(i - from);
        let ghost after = s.take(i - from + 1);
        proof {
            assert(after.drop_last() =~= before);
            assert(after.last() == text@[i as int]);
            lemma_decimal_value_prefix(s, i - from + 1);
        }
        let d: u8 = match digit_of(text[i]) {
            Some(d) => d,
            None => {
                assert(!is_digit(s[i - from]));
                return None;
            },
        };
        let tens: u64 = match acc.checked_mul(10) {
            Some(t) => t,
            None => {
                return None;
            },
        };
        acc = match tens.checked_add(d as u64) {
            Some(a) => a,
            None => {
                return None;
            },
        };
        proof {
            assert forall|j: int| 0 <= j < after.len() implies is_digit(#[trigger] after[j]) by {
                if j < before.len() {
                    assert(after[j] == before[j]);
                }
            }
        }
        i += 1;
    }
    proof {
        assert(s.take(to - from) =~= s);
    }
    Some(acc)
}

/// Reads a signed number from the characters `from..to` of a text, as far as
/// it fits in 64 bits.
pub fn parse_i64(text: &Vec<char>, from: usize, to: usize) -> (r: Option<i64>)
    requires
        from <= to <= text.len(),
    ensures
        r == i64_of(text@.subrange(from as int, to as int)),
{
    let ghost s = text@.subrange(from as int, to as int);
    if from == to {
        return None;
    }
    let first = text[from];
    assert(first == s[0]);
    let negative = first == '-';
    let start: usize = if first == '-' || first == '+' {
        from + 1
    } else {
        from
    };
    let ghost digits = text@.subrange(start as int, to as int);
    proof {
        if start == from {
            assert(digits =~= s);
            if all_digits(s) {
                assert(is_digit(s[0]));
            }
        } else {
            assert(digits =~= s.skip(1));
        }
    }
    match parse_unsigned(text, start, to) {
        None => {
            proof {
                // Either the digits are no number at all, or one beyond 64 bits.
                if digits.len() > 0 && all_digits(digits) {
                    assert(decimal_value(digits) > u64::MAX);
                }
            }
            None
        },
        Some(magnitude) => {
            if negative {
                if magnitude <= 0x7fff_ffff_ffff_ffff {
                    Some(-(magnitude as i64))
                } else if magnitude == 0x8000_0000_0000_0000 {
                    Some(i64::MIN)
                } else {
                    None
                }
            } else if magnitude <= 0x7fff_ffff_ffff_ffff {
                Some(magnitude as i64)
            } else {
                None
            }
        },
    }
}

/// Reads a signed number from the characters `from..to` of a text, as far as
/// it fits in 32 bits.
pub fn parse_i32(text: &Vec<char>, from: usize, to: usize) -> (r: Option<i32>)
    requires
        from <= to <= text.len(),
    ensures
        r == i32_of(text@.subrange(from as int, to as int)),
{
    match parse_i64(text, from, to) {
        Some(v) => if -0x8000_0000 <= v && v <= 0x7fff_ffff {
            Some(v as i32)
        } else {
            None
        },
        None => {
            proof {
                // What does not fit in 64 bits does not fit in 32.
                let s = text@.subrange(from as int, to as int);
                if signed_of(s) is Some {
                    let v = signed_of(s)->0;
                    assert(!(i64::MIN <= v <= i64::MAX));
                }
            }
            None
        },
    }
}

/// The text of one digit.
fn digit_str(d: u64) -> (s: &'static str)
    requires
        d < 10,
    ensures
        s@ == seq![digit_char(d as nat)],
{
    proof {
        reveal_strlit("0");
        reveal_strlit("1");
        reveal_strlit("2");
        reveal_strlit("3");
        reveal_strlit("4");
        reveal_strlit("5");
        reveal_strlit("6");
        reveal_strlit("7");
        reveal_strlit("8");
        reveal_strlit("9");
    }
    let s = if d == 0 {
        "0"
    } else if d == 1 {
        "1"
    } else if d == 2 {
        "2"
    } else if d == 3 {
        "3"
    } else if d == 4 {
        "4"
    } else if d == 5 {
        "5"
    } else if d == 6 {
        "6"
    } else if d == 7 {
        "7"
    } else if d == 8 {
        "8"
    } else {
        "9"
    };
    assert(s@ =~= seq![digit_char(d as nat)]);
    s
}

/// Writes a number in decimal at the end of a text.
pub fn push_unsigned(out: &mut String, n: u64)
    ensures
        final(out)@ == old(out)@ + decimal_text(n as nat),
    decreases n,
{
    if n >= 10 {
        push_unsigned(out, n / 10);
    }
    let ghost head = out@;
    out.append(digit_str(n % 10));
    proof {
        if n >= 10 {
            assert(out@ =~= old(out)@ + decimal_text((n / 10) as nat).push(
                digit_char((n % 10) as nat),
            ));
        } else {
            assert(out@ =~= old(out)@ + seq![digit_char(n as nat)]);
        }
    }
}

/// Writes a signed number in decimal at the end of a text.
pub fn push_signed(out: &mut String, n: i64)
    ensures
        final(out)@ == old(out)@ + signed_text(n as int),
{
    if n < 0 {
        proof {
            reveal_strlit("-");
        }
        out.append("-");
        // The magnitude of the least number is one more than the greatest.
        let magnitude: u64 = (-(n + 1)) as u64 + 1;
        push_unsigned(out, magnitude);
        proof {
            assert("-"@ =~= seq!['-']);
            assert(out@ =~= old(out)@ + (seq!['-'] + decimal_text((-n) as nat)));
        }
    } else {
        push_unsigned(out, n as u64);
    }
}

} // verus!
