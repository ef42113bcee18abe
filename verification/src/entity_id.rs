//! The identifiers of accounts, files and topics.

use vstd::prelude::*;

use crate::decimal::{
    decimal_text, is_digit, lemma_decimal_text, parse_unsigned, push_unsigned, unsigned_of,
};
use crate::error::DecodeError;
use crate::proto;
use crate::text::{chars_of, find, first_index, lemma_first_index};

verus! {

/// The identifier of an entity of the ledger: three numbers, written
/// `shard.realm.num`.
#[derive(Clone, Copy, Debug, PartialEq, Eq, Hash, Structural)]
pub struct EntityId {
    pub shard: u64,
    pub realm: u64,
    pub num: u64,
}

/// The identifier of an account.
pub type AccountId = EntityId;

/// The identifier of a file.
pub type FileId = EntityId;

/// The identifier of a topic.
pub type TopicId = EntityId;

impl EntityId {
    /// The text of an identifier: its three numbers in decimal, a `.` between
    /// them.
    pub open spec fn text(self) -> Seq<char> {
        decimal_text(self.shard as nat) + seq!['.'] + decimal_text(self.realm as nat) + seq!['.']
            + decimal_text(self.num as nat)
    }

    /// The identifier that a text stands for: the text up to its first `.`,
    /// the text from there up to the next `.`, and the rest, each a number of
    /// 64 bits.
    pub open spec fn parse(s: Seq<char>) -> Option<EntityId> {
        let i = first_index(s, '.', 0);
        let j = first_index(s, '.', i + 1);
        if i < s.len() && j < s.len() {
            match (
                unsigned_of(s.subrange(0, i)),
                unsigned_of(s.subrange(i + 1, j)),
                unsigned_of(s.subrange(j + 1, s.len() as int)),
            ) {
                (Some(shard), Some(realm), Some(num)) => Some(EntityId { shard, realm, num }),
                _ => None,
            }
        } else {
            None
        }
    }

    /// Each number fits in the 63 bits that the wire has for it.
    pub open spec fn fits_wire(self) -> bool {
        self.shard <= i64::MAX && self.realm <= i64::MAX && self.num <= i64::MAX
    }

    /// What a wire message decodes to: its three numbers, unless one is
    /// negative or the number of the account is not given.
    pub open spec fn decode(pb: proto::AccountId) -> Result<EntityId, DecodeError> {
        match pb.account_num {
            Some(num) => if pb.shard_num >= 0 && pb.realm_num >= 0 && num >= 0 {
                Ok(EntityId { shard: pb.shard_num as u64, realm: pb.realm_num as u64, num: num as u64 })
            } else {
                Err(DecodeError::InvalidAccountId)
            },
            None => Err(DecodeError::InvalidAccountId),
        }
    }

    /// The wire message of an identifier.
    pub open spec fn encode(self) -> proto::AccountId {
        proto::AccountId {
            shard_num: self.shard as i64,
            realm_num: self.realm as i64,
            account_num: Some(self.num as i64),
        }
    }

    /// Whether each number fits in the 63 bits that the wire has for it.
    pub fn is_encodable(&self) -> (fits: bool)
        ensures
            fits == self.fits_wire(),
    {
        self.shard <= 0x7fff_ffff_ffff_ffff && self.realm <= 0x7fff_ffff_ffff_ffff && self.num
            <= 0x7fff_ffff_ffff_ffff
    }

    /// Decodes an identifier.
    pub fn from_protobuf(pb: proto::AccountId) -> (r: Result<EntityId, DecodeError>)
        ensures
            r == EntityId::decode(pb),
            r matches Ok(id) ==> id.fits_wire(),
    {
        match pb.account_num {
            Some(num) => if pb.shard_num >= 0 && pb.realm_num >= 0 && num >= 0 {
                Ok(EntityId { shard: pb.shard_num as u64, realm: pb.realm_num as u64, num: num as u64 })
            } else {
                Err(DecodeError::InvalidAccountId)
            },
            None => Err(DecodeError::InvalidAccountId),
        }
    }

    /// Encodes an identifier.
    pub fn to_protobuf(&self) -> (pb: proto::AccountId)
        requires
            self.fits_wire(),
        ensures
            pb == self.encode(),
            EntityId::decode(pb) == Ok::<EntityId, DecodeError>(*self),
    {
        proto::AccountId {
            shard_num: self.shard as i64,
            realm_num: self.realm as i64,
            account_num: Some(self.num as i64),
        }
    }

    /// An identifier from its three numbers.
    pub fn new(shard: u64, realm: u64, num: u64) -> (id: EntityId)
        ensures
            id == (EntityId { shard, realm, num }),
    {
        EntityId { shard, realm, num }
    }

    /// Reads an identifier from the characters `from..to` of a text.
    pub fn from_chars(text: &Vec<char>, from: usize, to: usize) -> (r: Option<EntityId>)
        requires
            from <= to <= text.len(),
        ensures
            r == EntityId::parse(text@.subrange(from as int, to as int)),
    {
        let ghost s = text@.subrange(from as int, to as int);
        let i: usize = find(text, '.', from, to);
        if i == to {
            return None;
        }
        let j: usize = find(text, '.', i + 1, to);
        proof {
            // The second search ran on the rest of `s`.
            let rest = text@.subrange(i + 1, to as int);
            let at = j - from;
            crate::text::lemma_first_index_is_first(rest, '.', 0);
            assert forall|k: int| i - from + 1 <= k < at implies s[k] != '.' by {
                assert(s[k] == rest[k - (i - from + 1)]);
            }
            if at < s.len() {
                assert(s[at] == rest[j - (i + 1)]);
            }
            lemma_first_index(s, '.', i - from + 1, at);
        }
        if j == to {
            return None;
        }
        proof {
            assert(text@.subrange(from as int, i as int) =~= s.subrange(0, i - from));
            assert(text@.subrange(i + 1, j as int) =~= s.subrange(i - from + 1, j - from));
            assert(text@.subrange(j + 1, to as int) =~= s.subrange(j - from + 1, s.len() as int));
        }
        let shard = parse_unsigned(text, from, i);
        let realm = parse_unsigned(text, i + 1, j);
        let num = parse_unsigned(text, j + 1, to);
        match (shard, realm, num) {
            (Some(shard), Some(realm), Some(num)) => Some(EntityId { shard, realm, num }),
            _ => None,
        }
    }

    /// Reads an identifier from its text.
    pub fn from_str(s: &str) -> (r: Option<EntityId>)
        ensures
            r == EntityId::parse(s@),
    {
        let text = chars_of(s);
        assert(text@.subrange(0, text@.len() as int) =~= text@);
        EntityId::from_chars(&text, 0, text.len())
    }

    /// Writes the identifier at the end of a text.
    pub fn push_text(&self, out: &mut String)
        ensures
            final(out)@ == old(out)@ + self.text(),
    {
        proof {
            reveal_strlit(".");
        }
        push_unsigned(out, self.shard);
        out.append(".");
        push_unsigned(out, self.realm);
        out.append(".");
        push_unsigned(out, self.num);
        proof {
            assert("."@ =~= seq!['.']);
            assert(out@ =~= old(out)@ + self.text());
        }
    }

    /// The text of the identifier.
    pub fn to_string(&self) -> (s: String)
        ensures
            s@ == self.text(),
    {
        let mut s = String::new();
        self.push_text(&mut s);
        assert(s@ =~= self.text());
        s
    }
}

/// The text of an identifier is digits, but for its two `.`.
pub proof fn lemma_entity_id_text_chars(id: EntityId)
    ensures
        forall|k: int|
            0 <= k < id.text().len() ==> is_digit(#[trigger] id.text()[k]) || id.text()[k] == '.',
{
    let a = decimal_text(id.shard as nat);
    let b = decimal_text(id.realm as nat);
    let c = decimal_text(id.num as nat);
    let s = id.text();
    lemma_decimal_text(id.shard as nat);
    lemma_decimal_text(id.realm as nat);
    lemma_decimal_text(id.num as nat);
    let i = a.len() as int;
    let j = i + 1 + b.len();
    assert forall|k: int| 0 <= k < s.len() implies is_digit(#[trigger] s[k]) || s[k] == '.' by {
        if k < i {
            assert(s[k] == a[k]);
        } else if i < k < j {
            assert(s[k] == b[k - (i + 1)]);
        } else if k > j {
            assert(s[k] == c[k - (j + 1)]);
        }
    }
}

/// An identifier is read back from its text.
pub proof fn lemma_entity_id_round_trip(id: EntityId)
    ensures
        EntityId::parse(id.text()) == Some(id),
{
    let a = decimal_text(id.shard as nat);
    let b = decimal_text(id.realm as nat);
    let c = decimal_text(id.num as nat);
    let s = id.text();
    lemma_decimal_text(id.shard as nat);
    lemma_decimal_text(id.realm as nat);
    lemma_decimal_text(id.num as nat);
    let i = a.len() as int;
    let j = i + 1 + b.len();
    assert forall|k: int| 0 <= k < i implies s[k] != '.' by {
        assert(s[k] == a[k]);
        assert(is_digit(a[k]));
    }
    assert(s[i] == '.');
    lemma_first_index(s, '.', 0, i);
    assert forall|k: int| i + 1 <= k < j implies s[k] != '.' by {
        assert(s[k] == b[k - (i + 1)]);
        assert(is_digit(b[k - (i + 1)]));
    }
    assert(s[j] == '.');
    lemma_first_index(s, '.', i + 1, j);
    assert(s.subrange(0, i) =~= a);
    assert(s.subrange(i + 1, j) =~= b);
    assert(s.subrange(j + 1, s.len() as int) =~= c);
}

} // verus!
