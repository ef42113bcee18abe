//! Instants, as seconds and nanoseconds since the Unix epoch.

use vstd::prelude::*;

use crate::decimal::{
    decimal_text, i64_of, is_digit, lemma_decimal_text, lemma_signed_round_trip,
    lemma_signed_text_chars, parse_i64, push_signed, push_unsigned, signed_text,
};
use crate::proto;
use crate::text::{chars_of, find, first_index, lemma_first_index};

verus! {

/// The first second of the calendar: the start of the year -9999.
pub const MIN_SECONDS: i64 = -377_705_116_800;

/// The last second of the calendar: the end of the year 9999.
pub const MAX_SECONDS: i64 = 253_402_300_799;

/// The nanoseconds in one second.
pub const NANOS_PER_SECOND: i64 = 1_000_000_000;

/// An instant: `nanos` nanoseconds after the start of the second that lies
/// `seconds` seconds after the Unix epoch.
#[derive(Clone, Copy, Debug, PartialEq, Eq, Hash, Structural)]
pub struct Timestamp {
    pub seconds: i64,
    pub nanos: u32,
}

/// The second lies in the calendar.
pub open spec fn in_calendar(seconds: int) -> bool {
    MIN_SECONDS <= seconds <= MAX_SECONDS
}

impl Timestamp {
    /// The instant lies in the calendar, and its nanoseconds within one
    /// second.
    pub open spec fn wf(self) -> bool {
        in_calendar(self.seconds as int) && self.nanos < NANOS_PER_SECOND
    }

    /// The instant `nanos` nanoseconds after the start of second `seconds`,
    /// where `nanos` may be negative or hold whole seconds. There is none
    /// unless both that second and the instant lie in the calendar.
    pub open spec fn at(seconds: int, nanos: int) -> Option<Timestamp> {
        let carried = seconds + nanos / (NANOS_PER_SECOND as int);
        if in_calendar(seconds) && in_calendar(carried) {
            Some(
                Timestamp {
                    seconds: carried as i64,
                    nanos: (nanos % (NANOS_PER_SECOND as int)) as u32,
                },
            )
        } else {
            None
        }
    }

    /// The text of an instant: seconds, a `.`, nanoseconds; both in decimal,
    /// nothing padded.
    pub open spec fn text(self) -> Seq<char> {
        signed_text(self.seconds as int) + seq!['.'] + decimal_text(self.nanos as nat)
    }

    /// The instant that a text stands for: a signed number of seconds up to
    /// the first `.`, a signed number of nanoseconds after it.
    pub open spec fn parse(s: Seq<char>) -> Option<Timestamp> {
        let i = first_index(s, '.', 0);
        if i < s.len() {
            match (i64_of(s.subrange(0, i)), i64_of(s.subrange(i + 1, s.len() as int))) {
                (Some(seconds), Some(nanos)) => Timestamp::at(seconds as int, nanos as int),
                _ => None,
            }
        } else {
            None
        }
    }

    /// Whether the instant lies in the calendar, with its nanoseconds within
    /// one second.
    pub fn is_well_formed(&self) -> (valid: bool)
        ensures
            valid == self.wf(),
    {
        MIN_SECONDS <= self.seconds && self.seconds <= MAX_SECONDS && self.nanos < 1_000_000_000
    }

    /// The instant `nanos` nanoseconds after the start of second `seconds`.
    pub fn from_parts(seconds: i64, nanos: i64) -> (r: Option<Timestamp>)
        ensures
            r == Timestamp::at(seconds as int, nanos as int),
            r matches Some(t) ==> t.wf(),
    {
        if from_unix_timestamp(seconds).is_err() {
            return None;
        }
        let (carry, rest): (i64, u32) = split_nanos(nanos);
        let carried: i64 = seconds + carry;
        if from_unix_timestamp(carried).is_err() {
            return None;
        }
        Some(Timestamp { seconds: carried, nanos: rest })
    }

    /// The wire message of an instant.
    pub open spec fn encode(self) -> proto::Timestamp {
        proto::Timestamp { seconds: self.seconds, nanos: self.nanos as i32 }
    }

    /// Decodes an instant: the one that lies the message's nanoseconds after
    /// the start of its second.
    pub fn from_protobuf(pb: proto::Timestamp) -> (r: Option<Timestamp>)
        ensures
            r == Timestamp::at(pb.seconds as int, pb.nanos as int),
            r matches Some(t) ==> t.wf(),
    {
        Timestamp::from_parts(pb.seconds, pb.nanos as i64)
    }

    /// Encodes an instant.
    pub fn to_protobuf(&self) -> (pb: proto::Timestamp)
        requires
            self.wf(),
        ensures
            pb == self.encode(),
            Timestamp::at(pb.seconds as int, pb.nanos as int) == Some(*self),
    {
        proto::Timestamp { seconds: self.seconds, nanos: self.nanos as i32 }
    }

    /// Reads an instant from the characters `from..to` of a text.
    pub fn from_chars(text: &Vec<char>, from: usize, to: usize) -> (r: Option<Timestamp>)
        requires
            from <= to <= text.len(),
        ensures
            r == Timestamp::parse(text@.subrange(from as int, to as int)),
            r matches Some(t) ==> t.wf(),
    {
        let ghost s = text@.subrange(from as int, to as int);
        let i: usize = find(text, '.', from, to);
        if i == to {
            return None;
        }
        proof {
            assert(text@.subrange(from as int, i as int) =~= s.subrange(0, i - from));
            assert(text@.subrange(i + 1, to as int) =~= s.subrange(i - from + 1, s.len() as int));
        }
        let seconds = parse_i64(text, from, i);
        let nanos = parse_i64(text, i + 1, to);
        match (seconds, nanos) {
            (Some(seconds), Some(nanos)) => Timestamp::from_parts(seconds, nanos),
            _ => None,
        }
    }

    /// Reads an instant from its text.
    pub fn from_str(s: &str) -> (r: Option<Timestamp>)
        ensures
            r == Timestamp::parse(s@),
            r matches Some(t) ==> t.wf(),
    {
        let text = chars_of(s);
        assert(text@.subrange(0, text@.len() as int) =~= text@);
        Timestamp::from_chars(&text, 0, text.len())
    }

    /// Writes the instant at the end of a text.
    pub fn push_text(&self, out: &mut String)
        ensures
            final(out)@ == old(out)@ + self.text(),
    {
        proof {
            reveal_strlit(".");
        }
        push_signed(out, self.seconds);
        out.append(".");
        push_unsigned(out, self.nanos as u64);
        proof {
            assert("."@ =~= seq!['.']);
            assert(out@ =~= old(out)@ + self.text());
        }
    }

    /// The text of the instant.
    pub fn to_string(&self) -> (s: String)
        ensures
            s@ == self.text(),
    {
        let mut s = String::new();
        self.push_text(&mut s);
        assert(s@ =~= self.text());
        s
    }
}

/// The whole seconds in a number of nanoseconds, rounded down, and the
/// nanoseconds left over.
fn split_nanos(nanos: i64) -> (r: (i64, u32))
    ensures
        r.0 == nanos as int / (NANOS_PER_SECOND as int),
        r.1 == nanos as int % (NANOS_PER_SECOND as int),
        -9_223_372_037 <= r.0 <= 9_223_372_036,
        r.1 < NANOS_PER_SECOND,
{
    if nanos >= 0 {
        let n: u64 = nanos as u64;
        ((n / 1_000_000_000) as i64, (n % 1_000_000_000) as u32)
    } else {
        // The magnitude of the least number is one more than the greatest.
        let magnitude: u64 = (-(nanos + 1)) as u64 + 1;
        let whole: u64 = magnitude / 1_000_000_000;
        let part: u64 = magnitude % 1_000_000_000;
        if part == 0 {
            (-(whole as i64), 0)
        } else {
            (-(whole as i64) - 1, (1_000_000_000 - part) as u32)
        }
    }
}

/// An instant as `time` keeps it. Nothing is read from one here: it tells
/// only that `time` accepted a second.
#[verifier::external_type_specification]
#[verifier::external_body]
pub struct ExOffsetDateTime(time::OffsetDateTime);

/// The error with which `time` refuses a number that is out of range.
#[verifier::external_type_specification]
#[verifier::external_body]
pub struct ExComponentRange(time::error::ComponentRange);

/// Calls `time::OffsetDateTime::from_unix_timestamp`. Built without its
/// large dates, `time` accepts the seconds from the start of the year -9999
/// to the end of the year 9999, and refuses every other.
#[verifier::external_body]
fn from_unix_timestamp(seconds: i64) -> (r: Result<
    time::OffsetDateTime,
    time::error::ComponentRange,
>)
    ensures
        r is Ok <==> in_calendar(seconds as int),
{
    time::OffsetDateTime::from_unix_timestamp(seconds)
}

/// The text of an instant is digits, but for one `.` and a `-` that may
/// come first.
pub proof fn lemma_timestamp_text_chars(t: Timestamp)
    ensures
        forall|k: int|
            0 <= k < t.text().len() ==> is_digit(#[trigger] t.text()[k]) || t.text()[k] == '-'
                || t.text()[k] == '.',
{
    let a = signed_text(t.seconds as int);
    let b = decimal_text(t.nanos as nat);
    let s = t.text();
    lemma_signed_text_chars(t.seconds as int);
    lemma_decimal_text(t.nanos as nat);
    assert forall|k: int| 0 <= k < s.len() implies is_digit(#[trigger] s[k]) || s[k] == '-'
        || s[k] == '.' by {
        if k < a.len() {
            assert(s[k] == a[k]);
        } else if k > a.len() {
            assert(s[k] == b[k - a.len() - 1]);
        }
    }
}

/// An instant of the calendar is read back from its text.
pub proof fn lemma_timestamp_round_trip(t: Timestamp)
    requires
        t.wf(),
    ensures
        Timestamp::parse(t.text()) == Some(t),
{
    let a = signed_text(t.seconds as int);
    let b = decimal_text(t.nanos as nat);
    let s = t.text();
    let i = a.len() as int;
    lemma_signed_text_chars(t.seconds as int);
    lemma_signed_round_trip(t.seconds as int);
    lemma_signed_round_trip(t.nanos as int);
    assert forall|k: int| 0 <= k < i implies s[k] != '.' by {
        assert(s[k] == a[k]);
        assert(is_digit(a[k]) || a[k] == '-');
    }
    assert(s[i] == '.');
    lemma_first_index(s, '.', 0, i);
    assert(s.subrange(0, i) =~= a);
    assert(s.subrange(i + 1, s.len() as int) =~= b);
    assert(b == signed_text(t.nanos as int));
}

} // verus!
