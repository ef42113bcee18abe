//! The identifier that a client gives to a transaction.

use vstd::prelude::*;

use crate::decimal::{
    i32_of, i64_of, is_digit, lemma_signed_round_trip, lemma_signed_text_chars, parse_i32,
    parse_i64, push_signed, signed_text,
};
use crate::entity_id::{
    lemma_entity_id_round_trip, lemma_entity_id_text_chars, AccountId, EntityId,
};
use crate::error::DecodeError;
use crate::proto;
use crate::text::{chars_of, find, first_index, range_is};
use crate::timestamp::{lemma_timestamp_round_trip, lemma_timestamp_text_chars, Timestamp};

verus! {

/// The identifier of a transaction: who pays for it and from when it is
/// valid.
///
/// The network uses it to find the receipt and the record of a transaction,
/// and to tell when one is submitted twice.
#[derive(Clone, Copy, Debug, PartialEq, Eq, Hash, Structural)]
pub struct TransactionId {
    /// The account that pays for the transaction.
    pub account_id: AccountId,
    /// The instant from which the transaction is valid.
    pub valid_start: Timestamp,
    /// Tells apart the transactions that one transaction brought about.
    pub nonce: Option<i32>,
    /// Whether the transaction is a scheduled one.
    pub scheduled: bool,
}

/// Why a text is not that of a transaction identifier. A text with several
/// defects is refused for the first that a reader meets on its way through
/// the text.
#[derive(Clone, Copy, Debug, PartialEq, Eq, Hash, Structural)]
pub enum ParseError {
    /// What stands before the first separator is no account.
    InvalidAccountId,
    /// The text ends with the account, or the start of validity has no `.`.
    MissingValidStart,
    /// The seconds of the start of validity are no number of 64 bits.
    InvalidSeconds,
    /// The nanoseconds of the start of validity are no number of 64 bits.
    InvalidNanos,
    /// The start of validity lies outside the calendar.
    ValidStartOutOfRange,
    /// What follows the start of validity is neither `scheduled` nor a
    /// number of 32 bits.
    InvalidNonce,
}

/// One of the three characters that part a transaction identifier.
pub open spec fn is_separator(c: char) -> bool {
    c == '@' || c == '?' || c == '/'
}

/// Where the first separator stands in `s` at or after `from`; the length of
/// `s` if none stands there.
pub open spec fn first_separator(s: Seq<char>, from: int) -> int
    decreases s.len() - from,
{
    if from < 0 || from >= s.len() {
        s.len() as int
    } else if is_separator(s[from]) {
        from
    } else {
        first_separator(s, from + 1)
    }
}

/// The start of validity that a part of the text stands for: seconds up to
/// its first `.`, nanoseconds after it.
pub open spec fn valid_start_of(part: Seq<char>) -> Result<Timestamp, ParseError> {
    let dot = first_index(part, '.', 0);
    if dot >= part.len() {
        Err(ParseError::MissingValidStart)
    } else {
        match i64_of(part.subrange(0, dot)) {
            None => Err(ParseError::InvalidSeconds),
            Some(seconds) => match i64_of(part.subrange(dot + 1, part.len() as int)) {
                None => Err(ParseError::InvalidNanos),
                Some(nanos) => match Timestamp::at(seconds as int, nanos as int) {
                    None => Err(ParseError::ValidStartOutOfRange),
                    Some(t) => Ok(t),
                },
            },
        }
    }
}

/// What a part after the start of validity adds to an identifier: the word
/// `scheduled` marks it as scheduled, anything else is its nonce.
pub open spec fn with_part(id: TransactionId, part: Seq<char>) -> Result<
    TransactionId,
    ParseError,
> {
    if part == "scheduled"@ {
        Ok(TransactionId { scheduled: true, ..id })
    } else {
        match i32_of(part) {
            Some(nonce) => Ok(TransactionId { nonce: Some(nonce), ..id }),
            None => Err(ParseError::InvalidNonce),
        }
    }
}

impl TransactionId {
    /// The text of an identifier: the account, `@`, the start of validity,
    /// then `?scheduled` if it is scheduled, then `/` and the nonce if it has
    /// one.
    pub open spec fn text(self) -> Seq<char> {
        self.account_id.text() + seq!['@'] + self.valid_start.text() + (if self.scheduled {
            "?scheduled"@
        } else {
            Seq::<char>::empty()
        }) + (match self.nonce {
            Some(nonce) => seq!['/'] + signed_text(nonce as int),
            None => Seq::<char>::empty(),
        })
    }

    /// The identifier that a text stands for.
    ///
    /// The first three separators part the text in up to four. The first
    /// part is the account and the second the start of validity. Each of the
    /// two that may follow marks the identifier as scheduled or gives its
    /// nonce. The three separators stand for one another: which of them
    /// parts two parts does not matter.
    pub open spec fn parse(s: Seq<char>) -> Result<TransactionId, ParseError> {
        let a = first_separator(s, 0);
        let b = first_separator(s, a + 1);
        let c = first_separator(s, b + 1);
        match EntityId::parse(s.subrange(0, a)) {
            None => Err(ParseError::InvalidAccountId),
            Some(account_id) => if a >= s.len() {
                Err(ParseError::MissingValidStart)
            } else {
                match valid_start_of(s.subrange(a + 1, b)) {
                    Err(e) => Err(e),
                    Ok(valid_start) => {
                        let bare = TransactionId {
                            account_id,
                            valid_start,
                            nonce: None,
                            scheduled: false,
                        };
                        if b >= s.len() {
                            Ok(bare)
                        } else {
                            match with_part(bare, s.subrange(b + 1, c)) {
                                Err(e) => Err(e),
                                Ok(id) => if c >= s.len() {
                                    Ok(id)
                                } else {
                                    with_part(id, s.subrange(c + 1, s.len() as int))
                                },
                            }
                        }
                    },
                }
            },
        }
    }

    /// Reads an identifier from its text.
    pub fn from_str(s: &str) -> (r: Result<TransactionId, ParseError>)
        ensures
            r == TransactionId::parse(s@),
            r matches Ok(id) ==> id.valid_start.wf(),
    {
        let text = chars_of(s);
        let end: usize = text.len();
        let a: usize = find_separator(&text, 0);
        let account_id = match EntityId::from_chars(&text, 0, a) {
            None => {
                return Err(ParseError::InvalidAccountId);
            },
            Some(id) => id,
        };
        if a == end {
            return Err(ParseError::MissingValidStart);
        }
        let b: usize = find_separator(&text, a + 1);
        let valid_start = match read_valid_start(&text, a + 1, b) {
            Err(e) => {
                return Err(e);
            },
            Ok(t) => t,
        };
        let bare = TransactionId { account_id, valid_start, nonce: None, scheduled: false };
        if b == end {
            return Ok(bare);
        }
        let c: usize = find_separator(&text, b + 1);
        let id = match read_part(bare, &text, b + 1, c) {
            Err(e) => {
                return Err(e);
            },
            Ok(id) => id,
        };
        if c == end {
            return Ok(id);
        }
        read_part(id, &text, c + 1, end)
    }

    /// The text of the identifier.
    pub fn to_string(&self) -> (s: String)
        ensures
            s@ == self.text(),
    {
        proof {
            reveal_strlit("@");
            reveal_strlit("/");
        }
        let mut s = String::new();
        self.account_id.push_text(&mut s);
        s.append("@");
        self.valid_start.push_text(&mut s);
        if self.scheduled {
            s.append("?scheduled");
        }
        if let Some(nonce) = self.nonce {
            s.append("/");
            push_signed(&mut s, nonce as i64);
        }
        proof {
            assert("@"@ =~= seq!['@']);
            assert("/"@ =~= seq!['/']);
            assert(s@ =~= self.text());
        }
        s
    }

    /// The identifier of a new transaction that `account_id` pays for, valid
    /// from `lead` nanoseconds before `now`; from `now` where the calendar
    /// does not reach that far back.
    pub fn starting(account_id: AccountId, now: Timestamp, lead: i64) -> (id: TransactionId)
        requires
            now.wf(),
            0 <= lead,
        ensures
            id.account_id == account_id,
            id.nonce is None,
            !id.scheduled,
            id.valid_start.wf(),
            id.valid_start == match Timestamp::at(now.seconds as int, now.nanos - lead) {
                Some(earlier) => earlier,
                None => now,
            },
    {
        let valid_start = match Timestamp::from_parts(now.seconds, now.nanos as i64 - lead) {
            Some(earlier) => earlier,
            None => now,
        };
        TransactionId { account_id, valid_start, nonce: None, scheduled: false }
    }

    /// The identifier of a new transaction that `account_id` pays for.
    ///
    /// It is valid from a few seconds ago: between five and eight, drawn
    /// anew for each identifier, so that a node whose clock runs behind
    /// does not take the transaction to lie in the future.
    pub fn generate(account_id: AccountId) -> (id: TransactionId)
        ensures
            id.account_id == account_id,
            id.nonce is None,
            !id.scheduled,
            id.valid_start.wf(),
    {
        let now = now_utc();
        let lead: i64 = random_in(5_000_000_000, 8_000_000_000);
        TransactionId::starting(account_id, now, lead)
    }

    /// The start of validity lies in the calendar, and the account fits the
    /// wire.
    pub open spec fn wf(self) -> bool {
        self.account_id.fits_wire() && self.valid_start.wf()
    }

    /// Whether the identifier can be encoded: its start of validity lies in
    /// the calendar, and its account fits the wire.
    pub fn is_well_formed(&self) -> (valid: bool)
        ensures
            valid == self.wf(),
    {
        self.account_id.is_encodable() && self.valid_start.is_well_formed()
    }

    /// What a wire message decodes to. The wire writes "no nonce" as zero.
    pub open spec fn decode(pb: proto::TransactionId) -> Result<TransactionId, DecodeError> {
        match pb.account_id {
            None => Err(DecodeError::MissingAccountId),
            Some(account) => match EntityId::decode(account) {
                Err(e) => Err(e),
                Ok(account_id) => match pb.transaction_valid_start {
                    None => Err(DecodeError::MissingValidStart),
                    Some(start) => match Timestamp::at(start.seconds as int, start.nanos as int) {
                        None => Err(DecodeError::InvalidValidStart),
                        Some(valid_start) => Ok(
                            TransactionId {
                                account_id,
                                valid_start,
                                nonce: if pb.nonce != 0 {
                                    Some(pb.nonce)
                                } else {
                                    None
                                },
                                scheduled: pb.scheduled,
                            },
                        ),
                    },
                },
            },
        }
    }

    /// The wire message of an identifier.
    pub open spec fn encode(self) -> proto::TransactionId {
        proto::TransactionId {
            transaction_valid_start: Some(self.valid_start.encode()),
            account_id: Some(self.account_id.encode()),
            scheduled: self.scheduled,
            nonce: match self.nonce {
                Some(nonce) => nonce,
                None => 0,
            },
        }
    }

    /// Decodes an identifier.
    pub fn from_protobuf(pb: proto::TransactionId) -> (r: Result<TransactionId, DecodeError>)
        ensures
            r == TransactionId::decode(pb),
            r matches Ok(id) ==> id.wf(),
    {
        let account_id = match pb.account_id {
            None => {
                return Err(DecodeError::MissingAccountId);
            },
            Some(account) => match EntityId::from_protobuf(account) {
                Err(e) => {
                    return Err(e);
                },
                Ok(id) => id,
            },
        };
        let valid_start = match pb.transaction_valid_start {
            None => {
                return Err(DecodeError::MissingValidStart);
            },
            Some(start) => match Timestamp::from_protobuf(start) {
                None => {
                    return Err(DecodeError::InvalidValidStart);
                },
                Some(t) => t,
            },
        };
        let nonce = if pb.nonce != 0 {
            Some(pb.nonce)
        } else {
            None
        };
        Ok(TransactionId { account_id, valid_start, nonce, scheduled: pb.scheduled })
    }

    /// Encodes an identifier.
    pub fn to_protobuf(&self) -> (pb: proto::TransactionId)
        requires
            self.wf(),
        ensures
            pb == self.encode(),
    {
        proto::TransactionId {
            transaction_valid_start: Some(self.valid_start.to_protobuf()),
            account_id: Some(self.account_id.to_protobuf()),
            scheduled: self.scheduled,
            nonce: match self.nonce {
                Some(nonce) => nonce,
                None => 0,
            },
        }
    }
}

/// Finds the first separator at or after `from`; gives the length of the
/// text where there is none.
fn find_separator(text: &Vec<char>, from: usize) -> (at: usize)
    requires
        from <= text.len(),
    ensures
        from <= at <= text.len(),
        at == first_separator(text@, from as int),
{
    let mut i: usize = from;
    while i < text.len()
        invariant
            from <= i <= text.len(),
            first_separator(text@, from as int) == first_separator(text@, i as int),
        decreases text.len() - i,
    {
        let c = text[i];
        if c == '@' || c == '?' || c == '/' {
            return i;
        }
        i += 1;
    }
    i
}

/// Reads a start of validity from the characters `from..to` of a text.
fn read_valid_start(text: &Vec<char>, from: usize, to: usize) -> (r: Result<Timestamp, ParseError>)
    requires
        from <= to <= text.len(),
    ensures
        r == valid_start_of(text@.subrange(from as int, to as int)),
        r matches Ok(t) ==> t.wf(),
{
    let ghost part = text@.subrange(from as int, to as int);
    let dot: usize = find(text, '.', from, to);
    if dot == to {
        return Err(ParseError::MissingValidStart);
    }
    proof {
        assert(text@.subrange(from as int, dot as int) =~= part.subrange(0, dot - from));
        assert(text@.subrange(dot + 1, to as int) =~= part.subrange(
            dot - from + 1,
            part.len() as int,
        ));
    }
    let seconds: i64 = match parse_i64(text, from, dot) {
        None => {
            return Err(ParseError::InvalidSeconds);
        },
        Some(n) => n,
    };
    let nanos: i64 = match parse_i64(text, dot + 1, to) {
        None => {
            return Err(ParseError::InvalidNanos);
        },
        Some(n) => n,
    };
    match Timestamp::from_parts(seconds, nanos) {
        None => Err(ParseError::ValidStartOutOfRange),
        Some(t) => Ok(t),
    }
}

/// Reads one part after the start of validity from the characters
/// `from..to` of a text.
fn read_part(id: TransactionId, text: &Vec<char>, from: usize, to: usize) -> (r: Result<
    TransactionId,
    ParseError,
>)
    requires
        from <= to <= text.len(),
    ensures
        r == with_part(id, text@.subrange(from as int, to as int)),
{
    if range_is(text, from, to, "scheduled") {
        Ok(
            TransactionId {
                account_id: id.account_id,
                valid_start: id.valid_start,
                nonce: id.nonce,
                scheduled: true,
            },
        )
    } else {
        match parse_i32(text, from, to) {
            Some(nonce) => Ok(
                TransactionId {
                    account_id: id.account_id,
                    valid_start: id.valid_start,
                    nonce: Some(nonce),
                    scheduled: id.scheduled,
                },
            ),
            None => Err(ParseError::InvalidNonce),
        }
    }
}

/// Reads the clock through `time::OffsetDateTime::now_utc`, and takes the
/// instant apart with `unix_timestamp` and `nanosecond`. What `time` hands
/// out is an instant of its calendar, in UTC, with less than a second's
/// worth of nanoseconds; which one is not known here. `time` panics instead
/// where the clock of the machine shows an instant outside its calendar.
#[verifier::external_body]
fn now_utc() -> (now: Timestamp)
    ensures
        now.wf(),
{
    let now = time::OffsetDateTime::now_utc();
    Timestamp { seconds: now.unix_timestamp(), nanos: now.nanosecond() }
}

/// Draws a number with `rand::Rng::gen_range` from the generator that
/// `rand::thread_rng` keeps for this thread. The number lies in `low..high`;
/// nothing else is known of it. `gen_range` panics on an empty range, which
/// the precondition leaves out.
#[verifier::external_body]
fn random_in(low: i64, high: i64) -> (n: i64)
    requires
        low < high,
    ensures
        low <= n < high,
{
    rand::Rng::gen_range(&mut rand::thread_rng(), low..high)
}

/// The first separator is the one before which none stands, or the text
/// ends.
proof fn lemma_first_separator(s: Seq<char>, from: int, at: int)
    requires
        0 <= from <= at <= s.len(),
        forall|j: int| from <= j < at ==> !is_separator(#[trigger] s[j]),
        at < s.len() ==> is_separator(s[at]),
    ensures
        first_separator(s, from) == at,
    decreases at - from,
{
    if from < at {
        lemma_first_separator(s, from + 1, at);
    }
}

/// A part that holds no separator ends at the first separator after its
/// start, or with the text.
proof fn lemma_part_end(s: Seq<char>, from: int, part: Seq<char>)
    requires
        0 <= from,
        from + part.len() <= s.len(),
        s.subrange(from, from + part.len()) == part,
        forall|k: int| 0 <= k < part.len() ==> !is_separator(#[trigger] part[k]),
        from + part.len() < s.len() ==> is_separator(s[from + part.len()]),
    ensures
        first_separator(s, from) == from + part.len(),
{
    let at = from + part.len();
    assert forall|j: int| from <= j < at implies !is_separator(#[trigger] s[j]) by {
        assert(s[j] == part[j - from]);
    }
    lemma_first_separator(s, from, at);
}

/// The text of an account holds no separator.
proof fn lemma_account_has_no_separator(id: EntityId)
    ensures
        forall|k: int| 0 <= k < id.text().len() ==> !is_separator(#[trigger] id.text()[k]),
{
    lemma_entity_id_text_chars(id);
    assert forall|k: int| 0 <= k < id.text().len() implies !is_separator(
        #[trigger] id.text()[k],
    ) by {
        let c = id.text()[k];
        assert(is_digit(c) || c == '.');
    }
}

/// The text of an instant holds no separator.
proof fn lemma_instant_has_no_separator(t: Timestamp)
    ensures
        forall|k: int| 0 <= k < t.text().len() ==> !is_separator(#[trigger] t.text()[k]),
{
    lemma_timestamp_text_chars(t);
    assert forall|k: int| 0 <= k < t.text().len() implies !is_separator(
        #[trigger] t.text()[k],
    ) by {
        let c = t.text()[k];
        assert(is_digit(c) || c == '-' || c == '.');
    }
}

/// The text of a number holds no separator, and is not the word
/// `scheduled`.
proof fn lemma_number_has_no_separator(n: int)
    ensures
        forall|k: int|
            0 <= k < signed_text(n).len() ==> !is_separator(#[trigger] signed_text(n)[k]),
        signed_text(n) != "scheduled"@,
{
    let t = signed_text(n);
    lemma_signed_text_chars(n);
    lemma_signed_round_trip(n);
    assert forall|k: int| 0 <= k < t.len() implies !is_separator(#[trigger] t[k]) by {
        assert(is_digit(t[k]) || t[k] == '-');
    }
    reveal_strlit("scheduled");
    assert(is_digit(t[0]) || t[0] == '-');
    assert("scheduled"@[0] == 's');
}

/// The word `scheduled` holds no separator, and follows a `?` in the text
/// of a scheduled identifier.
proof fn lemma_word_has_no_separator()
    ensures
        "scheduled"@.len() == 9,
        "?scheduled"@ == seq!['?'] + "scheduled"@,
        forall|k: int| 0 <= k < 9 ==> !is_separator(#[trigger] "scheduled"@[k]),
{
    reveal_strlit("?scheduled");
    reveal_strlit("scheduled");
    assert("?scheduled"@ =~= seq!['?'] + "scheduled"@);
}

/// The start of validity is read back from its text.
proof fn lemma_valid_start_round_trip(t: Timestamp)
    requires
        t.wf(),
    ensures
        valid_start_of(t.text()) == Ok::<Timestamp, ParseError>(t),
{
    lemma_timestamp_round_trip(t);
}

/// A part that is the text of a nonce gives that nonce; the word
/// `scheduled` marks the identifier.
proof fn lemma_parts_read(id: TransactionId, nonce: i32)
    ensures
        with_part(id, signed_text(nonce as int)) == Ok::<TransactionId, ParseError>(
            TransactionId { nonce: Some(nonce), ..id },
        ),
        with_part(id, "scheduled"@) == Ok::<TransactionId, ParseError>(
            TransactionId { scheduled: true, ..id },
        ),
{
    lemma_signed_round_trip(nonce as int);
    lemma_number_has_no_separator(nonce as int);
}

/// Where the account and the start of validity stand in a text that begins
/// with them: the account up to the `@`, the start from there up to the
/// tail, which is empty or begins with a separator.
proof fn lemma_text_head(account: Seq<char>, start: Seq<char>, tail: Seq<char>)
    requires
        forall|k: int| 0 <= k < account.len() ==> !is_separator(#[trigger] account[k]),
        forall|k: int| 0 <= k < start.len() ==> !is_separator(#[trigger] start[k]),
        tail.len() > 0 ==> is_separator(tail[0]),
    ensures
        ({
            let s = account + seq!['@'] + start + tail;
            let a = account.len() as int;
            let b = a + 1 + start.len();
            &&& s.len() == b + tail.len()
            &&& first_separator(s, 0) == a
            &&& first_separator(s, a + 1) == b
            &&& s.subrange(0, a) == account
            &&& s.subrange(a + 1, b) == start
            &&& s.subrange(b, s.len() as int) == tail
        }),
{
    let s = account + seq!['@'] + start + tail;
    let a = account.len() as int;
    let b = a + 1 + start.len();
    assert(s.subrange(0, a) =~= account);
    assert(s.subrange(a + 1, b) =~= start);
    assert(s.subrange(b, s.len() as int) =~= tail);
    assert(s[a] == '@');
    lemma_part_end(s, 0, account);
    if tail.len() > 0 {
        assert(s[b] == tail[0]);
    }
    lemma_part_end(s, a + 1, start);
}

/// Where the parts of a tail stand: a tail is empty, or a separator, a part
/// without one, and a tail again.
proof fn lemma_text_tail(s: Seq<char>, b: int, part: Seq<char>, rest: Seq<char>)
    requires
        0 <= b < s.len(),
        s.subrange(b + 1, s.len() as int) == part + rest,
        forall|k: int| 0 <= k < part.len() ==> !is_separator(#[trigger] part[k]),
        rest.len() > 0 ==> is_separator(rest[0]),
    ensures
        ({
            let c = b + 1 + part.len();
            &&& s.len() == c + rest.len()
            &&& first_separator(s, b + 1) == c
            &&& s.subrange(b + 1, c) == part
            &&& s.subrange(c, s.len() as int) == rest
        }),
{
    let c = b + 1 + part.len();
    let after = s.subrange(b + 1, s.len() as int);
    assert(after.len() == part.len() + rest.len());
    assert(s.subrange(b + 1, c) =~= part) by {
        assert forall|k: int| 0 <= k < part.len() implies s.subrange(b + 1, c)[k] == part[k] by {
            assert(after[k] == part[k]);
        }
    }
    assert(s.subrange(c, s.len() as int) =~= rest) by {
        assert forall|k: int| 0 <= k < rest.len() implies s.subrange(c, s.len() as int)[k]
            == rest[k] by {
            assert(after[part.len() + k] == rest[k]);
        }
    }
    if rest.len() > 0 {
        assert(s[c] == after[part.len() as int]);
        assert(after[part.len() as int] == rest[0]);
    }
    lemma_part_end(s, b + 1, part);
}

/// An identifier whose start of validity lies in the calendar is read back
/// from its text.
pub proof fn lemma_text_round_trip(id: TransactionId)
    requires
        id.valid_start.wf(),
    ensures
        TransactionId::parse(id.text()) == Ok::<TransactionId, ParseError>(id),
{
    let account = id.account_id.text();
    let start = id.valid_start.text();
    let word = "scheduled"@;
    let s = id.text();
    let a = account.len() as int;
    let b = a + 1 + start.len();
    let bare = TransactionId {
        account_id: id.account_id,
        valid_start: id.valid_start,
        nonce: None,
        scheduled: false,
    };
    lemma_entity_id_round_trip(id.account_id);
    lemma_account_has_no_separator(id.account_id);
    lemma_valid_start_round_trip(id.valid_start);
    lemma_instant_has_no_separator(id.valid_start);
    lemma_word_has_no_separator();
    let empty = Seq::<char>::empty();
    match id.nonce {
        None => {
            if id.scheduled {
                let tail = seq!['?'] + word;
                assert(s =~= account + seq!['@'] + start + tail);
                lemma_text_head(account, start, tail);
                assert(s.subrange(b + 1, s.len() as int) =~= word + empty);
                lemma_text_tail(s, b, word, empty);
                lemma_parts_read(bare, 0);
            } else {
                assert(s =~= account + seq!['@'] + start + empty);
                lemma_text_head(account, start, empty);
            }
        },
        Some(nonce) => {
            let digits = signed_text(nonce as int);
            lemma_number_has_no_separator(nonce as int);
            if id.scheduled {
                let rest = seq!['/'] + digits;
                let tail = seq!['?'] + word + rest;
                assert(s =~= account + seq!['@'] + start + tail);
                lemma_text_head(account, start, tail);
                assert(s.subrange(b + 1, s.len() as int) =~= word + rest);
                lemma_text_tail(s, b, word, rest);
                let c = b + 1 + word.len();
                assert(s.subrange(c + 1, s.len() as int) =~= digits) by {
                    assert(s.subrange(c, s.len() as int) == rest);
                    assert forall|k: int| 0 <= k < digits.len() implies s.subrange(
                        c + 1,
                        s.len() as int,
                    )[k] == digits[k] by {
                        assert(s.subrange(c, s.len() as int)[k + 1] == rest[k + 1]);
                    }
                }
                lemma_parts_read(bare, nonce);
                lemma_parts_read(TransactionId { scheduled: true, ..bare }, nonce);
            } else {
                let tail = seq!['/'] + digits;
                assert(s =~= account + seq!['@'] + start + tail);
                lemma_text_head(account, start, tail);
                assert(s.subrange(b + 1, s.len() as int) =~= digits + empty);
                lemma_text_tail(s, b, digits, empty);
                lemma_parts_read(bare, nonce);
            }
        },
    }
}

/// An identifier is decoded from its own wire message, unless its nonce is
/// the zero that the wire reads as "none".
pub proof fn lemma_protobuf_round_trip(id: TransactionId)
    requires
        id.wf(),
        id.nonce != Some(0i32),
    ensures
        TransactionId::decode(id.encode()) == Ok::<TransactionId, DecodeError>(id),
{
}

} // verus!
