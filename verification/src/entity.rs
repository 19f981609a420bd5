//! Entity references: the ledger addresses a contract, account, schedule or
//! token as a `shard.realm.num` triple of 64-bit numbers, written in the
//! document schema as the three decimal numerals joined by dots.

use vstd::prelude::*;

use crate::codec::{
    all_digits, dec_decode, dec_encode, dec_str, dec_val, is_digit, lemma_dec_round_trip,
    lemma_dec_str_digits, parse_dec,
};
use crate::error::DecodeError;

verus! {

// ---------------------------------------------------------------------------
// The `shard.realm.num` grammar
// ---------------------------------------------------------------------------

/// Splits `s` at its first dot: the part before and the part after.
pub open spec fn split_first_dot(s: Seq<char>) -> Option<(Seq<char>, Seq<char>)>
    decreases s.len(),
{
    if s.len() == 0 {
        None
    } else if s[0] == '.' {
        Some((Seq::empty(), s.drop_first()))
    } else {
        match split_first_dot(s.drop_first()) {
            Some(p) => Some((seq![s[0]] + p.0, p.1)),
            None => None,
        }
    }
}

/// The textual form of an entity reference.
pub open spec fn entity_str(shard: u64, realm: u64, num: u64) -> Seq<char> {
    dec_str(shard as nat) + seq!['.'] + dec_str(realm as nat) + seq!['.'] + dec_str(num as nat)
}

/// What decoding an entity reference yields: defined exactly when `s` is
/// three decodable decimal numerals joined by two dots.
pub open spec fn parse_entity(s: Seq<char>) -> Option<(u64, u64, u64)> {
    match split_first_dot(s) {
        None => None,
        Some(p1) => match split_first_dot(p1.1) {
            None => None,
            Some(p2) => match (parse_dec(p1.0), parse_dec(p2.0), parse_dec(p2.1)) {
                (Some(a), Some(b), Some(c)) => Some((a, b, c)),
                _ => None,
            },
        },
    }
}

/// A string without dots does not split.
proof fn lemma_split_no_dot(s: Seq<char>)
    requires
        forall|j: int| 0 <= j < s.len() ==> s[j] != '.',
    ensures
        split_first_dot(s) is None,
    decreases s.len(),
{
    if s.len() > 0 {
        lemma_split_no_dot(s.drop_first());
    }
}

/// Splitting at a known first dot position.
proof fn lemma_split_at(s: Seq<char>, i: int)
    requires
        0 <= i < s.len(),
        s[i] == '.',
        forall|j: int| 0 <= j < i ==> s[j] != '.',
    ensures
        split_first_dot(s) == Some((s.take(i), s.skip(i + 1))),
    decreases i,
{
    if i == 0 {
        assert(s.take(0) =~= Seq::<char>::empty());
        assert(s.skip(1) =~= s.drop_first());
    } else {
        let t = s.drop_first();
        lemma_split_at(t, i - 1);
        assert(seq![s[0]] + t.take(i - 1) =~= s.take(i));
        assert(t.skip(i) =~= s.skip(i + 1));
    }
}

/// Splitting a joined string recovers the two parts.
proof fn lemma_split_concat(x: Seq<char>, y: Seq<char>)
    requires
        forall|j: int| 0 <= j < x.len() ==> x[j] != '.',
    ensures
        split_first_dot(x + seq!['.'] + y) == Some((x, y)),
{
    let s = x + seq!['.'] + y;
    assert(s[x.len() as int] == '.');
    assert(forall|j: int| 0 <= j < x.len() ==> s[j] == x[j]);
    lemma_split_at(s, x.len() as int);
    assert(s.take(x.len() as int) =~= x);
    assert(s.skip(x.len() as int + 1) =~= y);
}

/// A digit is not a dot.
proof fn lemma_digits_have_no_dot(s: Seq<char>)
    requires
        all_digits(s),
    ensures
        forall|j: int| 0 <= j < s.len() ==> s[j] != '.',
{
    assert forall|j: int| 0 <= j < s.len() implies s[j] != '.' by {
        assert(is_digit(s[j]));
    }
}

/// Decoding inverts encoding for every entity reference.
pub proof fn lemma_entity_round_trip(shard: u64, realm: u64, num: u64)
    ensures
        parse_entity(entity_str(shard, realm, num)) == Some((shard, realm, num)),
{
    let a = dec_str(shard as nat);
    let b = dec_str(realm as nat);
    let c = dec_str(num as nat);
    lemma_dec_str_digits(shard as nat);
    lemma_dec_str_digits(realm as nat);
    lemma_dec_str_digits(num as nat);
    lemma_digits_have_no_dot(a);
    lemma_digits_have_no_dot(b);
    lemma_digits_have_no_dot(c);
    let s = entity_str(shard, realm, num);
    assert(s =~= a + seq!['.'] + (b + seq!['.'] + c));
    lemma_split_concat(a, b + seq!['.'] + c);
    lemma_split_concat(b, c);
    lemma_dec_round_trip(shard);
    lemma_dec_round_trip(realm);
    lemma_dec_round_trip(num);
}

// ---------------------------------------------------------------------------
// Executable rendering and parsing
// ---------------------------------------------------------------------------

/// Renders the triple as `shard.realm.num`.
pub fn render_entity(shard: u64, realm: u64, num: u64) -> (r: String)
    ensures
        r@ == entity_str(shard, realm, num),
{
    proof {
        reveal_strlit(".");
    }
    let mut s = dec_encode(shard);
    s.append(".");
    let t = dec_encode(realm);
    s.append(t.as_str());
    s.append(".");
    let u = dec_encode(num);
    s.append(u.as_str());
    proof {
        assert("."@ =~= seq!['.']);
    }
    s
}

/// The first dot of `s` at or after `from`, if any.
fn find_dot(s: &str, from: usize) -> (r: Option<usize>)
    requires
        from <= s@.len(),
    ensures
        match r {
            Some(i) => from <= i < s@.len() && s@[i as int] == '.' && (forall|j: int|
                from <= j < i ==> s@[j] != '.'),
            None => forall|j: int| from <= j < s@.len() ==> s@[j] != '.',
        },
{
    let n = s.unicode_len();
    let mut i: usize = from;
    while i < n
        invariant
            n == s@.len(),
            from <= i <= n,
            forall|j: int| from <= j < i ==> s@[j] != '.',
        decreases n - i,
    {
        if s.get_char(i) == '.' {
            return Some(i);
        }
        i += 1;
    }
    None
}

/// Decodes an entity reference. Fails exactly when the text is not three
/// decimal numerals joined by two dots, each fitting 64 unsigned bits.
pub fn parse_entity_text(s: &str) -> (r: Option<(u64, u64, u64)>)
    ensures
        r == parse_entity(s@),
{
    let n = s.unicode_len();
    let i1 = match find_dot(s, 0) {
        Some(i) => i,
        None => {
            proof {
                lemma_split_no_dot(s@);
            }
            return None;
        },
    };
    proof {
        lemma_split_at(s@, i1 as int);
    }
    let ghost rest = s@.skip(i1 as int + 1);
    let i2 = match find_dot(s, i1 + 1) {
        Some(i) => i,
        None => {
            proof {
                assert forall|j: int| 0 <= j < rest.len() implies rest[j] != '.' by {
                    assert(rest[j] == s@[j + i1 + 1]);
                }
                lemma_split_no_dot(rest);
            }
            return None;
        },
    };
    proof {
        assert(rest[i2 - i1 - 1] == s@[i2 as int]);
        assert forall|j: int| 0 <= j < i2 - i1 - 1 implies rest[j] != '.' by {
            assert(rest[j] == s@[j + i1 + 1]);
        }
        lemma_split_at(rest, i2 - i1 - 1);
        assert(rest.take(i2 - i1 - 1) =~= s@.subrange(i1 as int + 1, i2 as int));
        assert(rest.skip(i2 - i1) =~= s@.subrange(i2 as int + 1, s@.len() as int));
    }
    let p1 = s.substring_char(0, i1);
    let p2 = s.substring_char(i1 + 1, i2);
    let p3 = s.substring_char(i2 + 1, n);
    proof {
        assert(p1@ =~= s@.take(i1 as int));
    }
    let a = match dec_decode(p1) {
        Some(v) => v,
        None => {
            return None;
        },
    };
    let b = match dec_decode(p2) {
        Some(v) => v,
        None => {
            return None;
        },
    };
    let c = match dec_decode(p3) {
        Some(v) => v,
        None => {
            return None;
        },
    };
    Some((a, b, c))
}

// ---------------------------------------------------------------------------
// The reference types
// ---------------------------------------------------------------------------

/// A reference to a smart-contract instance.
#[derive(Debug, Clone, Copy, PartialEq, Eq, Hash, Structural)]
pub struct ContractId {
    pub shard: u64,
    pub realm: u64,
    pub num: u64,
}

/// A reference to an account.
#[derive(Debug, Clone, Copy, PartialEq, Eq, Hash, Structural)]
pub struct AccountId {
    pub shard: u64,
    pub realm: u64,
    pub num: u64,
}

/// A reference to a schedule.
#[derive(Debug, Clone, Copy, PartialEq, Eq, Hash, Structural)]
pub struct ScheduleId {
    pub shard: u64,
    pub realm: u64,
    pub num: u64,
}

/// A reference to a token.
#[derive(Debug, Clone, Copy, PartialEq, Eq, Hash, Structural)]
pub struct TokenId {
    pub shard: u64,
    pub realm: u64,
    pub num: u64,
}

/// The address of an account as a variant payload carries it.
#[derive(Debug, Clone, Copy, PartialEq, Eq, Hash, Structural)]
pub enum AccountAddress {
    AccountId(AccountId),
}

impl ContractId {
    /// A reference with the given parts.
    pub fn new(shard: u64, realm: u64, num: u64) -> (r: Self)
        ensures
            r == (ContractId { shard, realm, num }),
    {
        ContractId { shard, realm, num }
    }

    /// A reference to entity `num` in shard 0, realm 0.
    pub fn from_num(num: u64) -> (r: Self)
        ensures
            r == (ContractId { shard: 0, realm: 0, num }),
    {
        ContractId { shard: 0, realm: 0, num }
    }

    /// The textual `shard.realm.num` form.
    pub fn to_text(&self) -> (r: String)
        ensures
            r@ == entity_str(self.shard, self.realm, self.num),
    {
        render_entity(self.shard, self.realm, self.num)
    }

    /// Decodes the textual form; fails exactly when it is not an entity
    /// reference.
    pub fn from_text(s: &str) -> (r: Result<Self, DecodeError>)
        ensures
            match r {
                Ok(id) => parse_entity(s@) == Some((id.shard, id.realm, id.num)),
                Err(e) => parse_entity(s@) is None && e == DecodeError::InvalidEntityId,
            },
    {
        match parse_entity_text(s) {
            Some((shard, realm, num)) => Ok(ContractId { shard, realm, num }),
            None => Err(DecodeError::InvalidEntityId),
        }
    }
}

impl AccountId {
    /// A reference with the given parts.
    pub fn new(shard: u64, realm: u64, num: u64) -> (r: Self)
        ensures
            r == (AccountId { shard, realm, num }),
    {
        AccountId { shard, realm, num }
    }

    /// A reference to entity `num` in shard 0, realm 0.
    pub fn from_num(num: u64) -> (r: Self)
        ensures
            r == (AccountId { shard: 0, realm: 0, num }),
    {
        AccountId { shard: 0, realm: 0, num }
    }

    /// The textual `shard.realm.num` form.
    pub fn to_text(&self) -> (r: String)
        ensures
            r@ == entity_str(self.shard, self.realm, self.num),
    {
        render_entity(self.shard, self.realm, self.num)
    }

    /// Decodes the textual form; fails exactly when it is not an entity
    /// reference.
    pub fn from_text(s: &str) -> (r: Result<Self, DecodeError>)
        ensures
            match r {
                Ok(id) => parse_entity(s@) == Some((id.shard, id.realm, id.num)),
                Err(e) => parse_entity(s@) is None && e == DecodeError::InvalidEntityId,
            },
    {
        match parse_entity_text(s) {
            Some((shard, realm, num)) => Ok(AccountId { shard, realm, num }),
            None => Err(DecodeError::InvalidEntityId),
        }
    }
}

impl ScheduleId {
    /// A reference with the given parts.
    pub fn new(shard: u64, realm: u64, num: u64) -> (r: Self)
        ensures
            r == (ScheduleId { shard, realm, num }),
    {
        ScheduleId { shard, realm, num }
    }

    /// A reference to entity `num` in shard 0, realm 0.
    pub fn from_num(num: u64) -> (r: Self)
        ensures
            r == (ScheduleId { shard: 0, realm: 0, num }),
    {
        ScheduleId { shard: 0, realm: 0, num }
    }

    /// The textual `shard.realm.num` form.
    pub fn to_text(&self) -> (r: String)
        ensures
            r@ == entity_str(self.shard, self.realm, self.num),
    {
        render_entity(self.shard, self.realm, self.num)
    }

    /// Decodes the textual form; fails exactly when it is not an entity
    /// reference.
    pub fn from_text(s: &str) -> (r: Result<Self, DecodeError>)
        ensures
            match r {
                Ok(id) => parse_entity(s@) == Some((id.shard, id.realm, id.num)),
                Err(e) => parse_entity(s@) is None && e == DecodeError::InvalidEntityId,
            },
    {
        match parse_entity_text(s) {
            Some((shard, realm, num)) => Ok(ScheduleId { shard, realm, num }),
            None => Err(DecodeError::InvalidEntityId),
        }
    }
}

impl TokenId {
    /// A reference with the given parts.
    pub fn new(shard: u64, realm: u64, num: u64) -> (r: Self)
        ensures
            r == (TokenId { shard, realm, num }),
    {
        TokenId { shard, realm, num }
    }

    /// A reference to entity `num` in shard 0, realm 0.
    pub fn from_num(num: u64) -> (r: Self)
        ensures
            r == (TokenId { shard: 0, realm: 0, num }),
    {
        TokenId { shard: 0, realm: 0, num }
    }

    /// The textual `shard.realm.num` form.
    pub fn to_text(&self) -> (r: String)
        ensures
            r@ == entity_str(self.shard, self.realm, self.num),
    {
        render_entity(self.shard, self.realm, self.num)
    }

    /// Decodes the textual form; fails exactly when it is not an entity
    /// reference.
    pub fn from_text(s: &str) -> (r: Result<Self, DecodeError>)
        ensures
            match r {
                Ok(id) => parse_entity(s@) == Some((id.shard, id.realm, id.num)),
                Err(e) => parse_entity(s@) is None && e == DecodeError::InvalidEntityId,
            },
    {
        match parse_entity_text(s) {
            Some((shard, realm, num)) => Ok(TokenId { shard, realm, num }),
            None => Err(DecodeError::InvalidEntityId),
        }
    }
}

impl AccountAddress {
    /// The account reference this address names.
    pub fn account_id(&self) -> (r: AccountId)
        ensures
            self == AccountAddress::AccountId(r),
    {
        match self {
            AccountAddress::AccountId(id) => *id,
        }
    }

    /// The textual `shard.realm.num` form.
    pub fn to_text(&self) -> (r: String)
        ensures
            r@ == match self {
                AccountAddress::AccountId(id) => entity_str(id.shard, id.realm, id.num),
            },
    {
        match self {
            AccountAddress::AccountId(id) => id.to_text(),
        }
    }

    /// Decodes the textual form; fails exactly when it is not an entity
    /// reference.
    pub fn from_text(s: &str) -> (r: Result<Self, DecodeError>)
        ensures
            match r {
                Ok(a) => match a {
                    AccountAddress::AccountId(id) => parse_entity(s@) == Some(
                        (id.shard, id.realm, id.num),
                    ),
                },
                Err(e) => parse_entity(s@) is None && e == DecodeError::InvalidEntityId,
            },
    {
        match AccountId::from_text(s) {
            Ok(id) => Ok(AccountAddress::AccountId(id)),
            Err(e) => Err(e),
        }
    }
}

} // verus!
