//! The wire model: plain mirrors of the binary messages the remote service
//! takes, together with the exact representation changes the transcoder
//! applies. Unsigned capacity-like fields are reinterpreted into the wire's
//! signed 64-bit form by bit pattern — never by range check or clamping —
//! because that is the protocol's contract. Instants convert to a
//! seconds-plus-nanoseconds pair; intervals convert to whole seconds.

use vstd::prelude::*;

use crate::units::Timestamp;

verus! {

/// The signed 64-bit value carrying the bit pattern of `x`.
pub open spec fn i64_bits(x: u64) -> int {
    if x < 0x8000000000000000 {
        x as int
    } else {
        x as int - 0x10000000000000000
    }
}

/// Reinterprets an unsigned 64-bit value as signed, by bit pattern.
pub fn to_signed_bits(x: u64) -> (r: i64)
    ensures
        r as int == i64_bits(x),
{
    if x < 0x8000000000000000 {
        x as i64
    } else {
        i64::MIN + ((x - 0x8000000000000000) as i64)
    }
}

/// A contract reference on the wire.
#[verifier::ext_equal]
#[derive(Debug, Clone, Copy, PartialEq, Eq, Structural)]
pub struct WireContractId {
    pub shard_num: i64,
    pub realm_num: i64,
    pub contract_num: i64,
}

/// An account reference on the wire.
#[verifier::ext_equal]
#[derive(Debug, Clone, Copy, PartialEq, Eq, Structural)]
pub struct WireAccountId {
    pub shard_num: i64,
    pub realm_num: i64,
    pub account_num: i64,
}

/// A schedule reference on the wire.
#[verifier::ext_equal]
#[derive(Debug, Clone, Copy, PartialEq, Eq, Structural)]
pub struct WireScheduleId {
    pub shard_num: i64,
    pub realm_num: i64,
    pub schedule_num: i64,
}

/// A token reference on the wire.
#[verifier::ext_equal]
#[derive(Debug, Clone, Copy, PartialEq, Eq, Structural)]
pub struct WireTokenId {
    pub shard_num: i64,
    pub realm_num: i64,
    pub token_num: i64,
}

/// An instant on the wire: whole seconds since the epoch plus nanoseconds
/// within the second.
#[verifier::ext_equal]
#[derive(Debug, Clone, Copy, PartialEq, Eq, Structural)]
pub struct WireTimestamp {
    pub seconds: i64,
    pub nanos: i32,
}

/// An interval on the wire: whole seconds.
#[verifier::ext_equal]
#[derive(Debug, Clone, Copy, PartialEq, Eq, Structural)]
pub struct WireDuration {
    pub seconds: i64,
}

/// The wire form of an instant: seconds round toward minus infinity and the
/// nanosecond remainder is always in `0..1000000000`, so the pair recombines
/// to exactly the instant.
pub open spec fn spec_wire_timestamp(unix_nanos: i64) -> WireTimestamp {
    WireTimestamp {
        seconds: (unix_nanos as int / 1000000000) as i64,
        nanos: (unix_nanos as int % 1000000000) as i32,
    }
}

/// Splits an instant's nanosecond count into the wire's seconds-plus-nanos
/// pair.
pub fn wire_timestamp(t: Timestamp) -> (r: WireTimestamp)
    ensures
        r == spec_wire_timestamp(t.unix_nanos),
        r.seconds as int == t.unix_nanos as int / 1000000000,
        r.nanos as int == t.unix_nanos as int % 1000000000,
        r.seconds as int * 1000000000 + r.nanos as int == t.unix_nanos as int,
{
    let n = t.unix_nanos;
    let r = if n >= 0 {
        let nn = n as u64;
        let q = nn / 1000000000;
        let rem = nn % 1000000000;
        proof {
            vstd::arithmetic::div_mod::lemma_fundamental_div_mod_converse(
                n as int,
                1000000000,
                q as int,
                rem as int,
            );
        }
        WireTimestamp { seconds: q as i64, nanos: rem as i32 }
    } else {
        let m: u64 = ((-(n + 1)) as u64) + 1;
        let q = m / 1000000000;
        let rem = m % 1000000000;
        proof {
            assert(m as int == -(n as int));
        }
        if rem == 0 {
            proof {
                vstd::arithmetic::div_mod::lemma_fundamental_div_mod_converse(
                    n as int,
                    1000000000,
                    -(q as int),
                    0,
                );
            }
            WireTimestamp { seconds: -(q as i64), nanos: 0 }
        } else {
            proof {
                vstd::arithmetic::div_mod::lemma_fundamental_div_mod_converse(
                    n as int,
                    1000000000,
                    -(q as int) - 1,
                    1000000000 - rem as int,
                );
            }
            WireTimestamp { seconds: -(q as i64) - 1, nanos: (1000000000 - rem) as i32 }
        }
    };
    proof {
        vstd::arithmetic::div_mod::lemma_fundamental_div_mod(t.unix_nanos as int, 1000000000);
        assert(r =~= spec_wire_timestamp(t.unix_nanos));
    }
    r
}

/// A fixed fee on the wire.
#[verifier::ext_equal]
#[derive(Debug, Clone, Copy, PartialEq, Eq, Structural)]
pub struct WireFixedFee {
    pub amount: i64,
    pub denominating_token_id: Option<WireTokenId>,
}

/// The fee kinds the wire message distinguishes.
#[verifier::ext_equal]
#[derive(Debug, Clone, Copy, PartialEq, Eq, Structural)]
pub enum WireFee {
    FixedFee(WireFixedFee),
}

/// One custom fee on the wire.
#[verifier::ext_equal]
#[derive(Debug, Clone, Copy, PartialEq, Eq, Structural)]
pub struct WireCustomFee {
    pub fee: WireFee,
    pub fee_collector_account_id: Option<WireAccountId>,
}

/// A key on the wire: raw key bytes for a single key, or a threshold over a
/// list of raw keys.
#[verifier::ext_equal]
#[derive(Debug, Clone, PartialEq, Eq)]
pub enum WireKey {
    Ed25519(Vec<u8>),
    Threshold(u32, Vec<Vec<u8>>),
}

/// The mathematical shape of a key on the wire.
pub ghost enum WireKeyModel {
    Ed25519(Seq<u8>),
    Threshold(u32, Seq<Seq<u8>>),
}

impl View for WireKey {
    type V = WireKeyModel;

    open spec fn view(&self) -> WireKeyModel {
        match self {
            WireKey::Ed25519(v) => WireKeyModel::Ed25519(v@),
            WireKey::Threshold(th, ks) => WireKeyModel::Threshold(
                *th,
                Seq::new(ks@.len(), |i: int| ks@[i]@),
            ),
        }
    }
}

/// The wire form of a key reference: the raw bytes of a single key, or the
/// threshold with each listed key's raw bytes, in order.
pub open spec fn spec_wire_key(k: crate::key::KeyModel) -> WireKeyModel {
    match k {
        crate::key::KeyModel::Single(b) => WireKeyModel::Ed25519(b),
        crate::key::KeyModel::Threshold(th, ks) => WireKeyModel::Threshold(th, ks),
    }
}

/// The wire form of an optional key reference.
pub open spec fn spec_wire_opt_key(k: Option<crate::key::KeyModel>) -> Option<WireKeyModel> {
    match k {
        Some(kk) => Some(spec_wire_key(kk)),
        None => None,
    }
}

/// The model of an optional wire key.
pub open spec fn opt_wire_key_model(k: Option<WireKey>) -> Option<WireKeyModel> {
    match k {
        Some(kk) => Some(kk@),
        None => None,
    }
}

/// Converts a key reference into its wire form.
pub fn to_wire_key(k: &crate::key::Key) -> (r: WireKey)
    ensures
        r@ == spec_wire_key(k@),
{
    match k {
        crate::key::Key::Single(pk) => WireKey::Ed25519(copy_bytes(&pk.bytes)),
        crate::key::Key::Threshold(t) => {
            let mut keys: Vec<Vec<u8>> = Vec::new();
            let mut i: usize = 0;
            while i < t.keys.len()
                invariant
                    0 <= i <= t.keys@.len(),
                    keys@.len() == i,
                    forall|j: int| 0 <= j < i ==> keys@[j]@ == t.keys@[j].bytes@,
                decreases t.keys@.len() - i,
            {
                keys.push(copy_bytes(&t.keys[i].bytes));
                i += 1;
            }
            proof {
                assert(Seq::new(keys@.len(), |i: int| keys@[i]@) =~= Seq::new(
                    t.keys@.len(),
                    |i: int| t.keys@[i].bytes@,
                ));
            }
            WireKey::Threshold(t.threshold, keys)
        },
    }
}

/// Converts an optional key reference into its wire form.
pub fn to_wire_opt_key(k: &Option<crate::key::Key>) -> (r: Option<WireKey>)
    ensures
        opt_wire_key_model(r) == spec_wire_opt_key(crate::key::opt_key_model(*k)),
{
    match k {
        Some(kk) => Some(to_wire_key(kk)),
        None => None,
    }
}

/// The header a query carries on the wire.
#[verifier::ext_equal]
#[derive(Debug, Clone, Copy, PartialEq, Eq, Structural)]
pub struct WireQueryHeader {
    pub response_type: i32,
}

/// The wire message of a contract call.
#[verifier::ext_equal]
#[derive(Debug, Clone, PartialEq, Eq)]
pub struct WireContractCallTransactionBody {
    pub contract_id: Option<WireContractId>,
    pub gas: i64,
    pub amount: i64,
    pub function_parameters: Vec<u8>,
}

/// The wire message of a token creation.
#[verifier::ext_equal]
#[derive(Debug, Clone, PartialEq, Eq)]
pub struct WireTokenCreateTransactionBody {
    pub name: String,
    pub symbol: String,
    pub decimals: u32,
    pub initial_supply: u64,
    pub treasury: Option<WireAccountId>,
    pub admin_key: Option<WireKey>,
    pub kyc_key: Option<WireKey>,
    pub freeze_key: Option<WireKey>,
    pub wipe_key: Option<WireKey>,
    pub supply_key: Option<WireKey>,
    pub freeze_default: bool,
    pub expiry: Option<WireTimestamp>,
    pub auto_renew_account: Option<WireAccountId>,
    pub auto_renew_period: Option<WireDuration>,
    pub memo: String,
    pub token_type: i32,
    pub supply_type: i32,
    pub max_supply: i64,
    pub fee_schedule_key: Option<WireKey>,
    pub custom_fees: Vec<WireCustomFee>,
    pub pause_key: Option<WireKey>,
}

/// The transaction-data arm a transcoded request selects on the wire.
#[verifier::ext_equal]
#[derive(Debug, Clone, PartialEq, Eq)]
pub enum WireTransactionData {
    ContractCall(WireContractCallTransactionBody),
    TokenCreation(WireTokenCreateTransactionBody),
}

/// The wire message of a schedule-information query.
#[verifier::ext_equal]
#[derive(Debug, Clone, Copy, PartialEq, Eq, Structural)]
pub struct WireScheduleGetInfoQuery {
    pub schedule_id: Option<WireScheduleId>,
    pub header: Option<WireQueryHeader>,
}

/// The query arm a transcoded request selects on the wire.
#[verifier::ext_equal]
#[derive(Debug, Clone, Copy, PartialEq, Eq, Structural)]
pub enum WireQueryData {
    ScheduleGetInfo(WireScheduleGetInfoQuery),
}

/// The envelope of a query on the wire.
#[derive(Debug, Clone, Copy, PartialEq, Eq, Structural)]
pub struct WireQuery {
    pub query: Option<WireQueryData>,
}

/// The wire form of a contract reference: each part reinterpreted as signed
/// by bit pattern.
pub open spec fn spec_wire_contract_id(shard: u64, realm: u64, num: u64) -> WireContractId {
    WireContractId {
        shard_num: i64_bits(shard) as i64,
        realm_num: i64_bits(realm) as i64,
        contract_num: i64_bits(num) as i64,
    }
}

/// The wire form of an account reference.
pub open spec fn spec_wire_account_id(shard: u64, realm: u64, num: u64) -> WireAccountId {
    WireAccountId {
        shard_num: i64_bits(shard) as i64,
        realm_num: i64_bits(realm) as i64,
        account_num: i64_bits(num) as i64,
    }
}

/// The wire form of a schedule reference.
pub open spec fn spec_wire_schedule_id(shard: u64, realm: u64, num: u64) -> WireScheduleId {
    WireScheduleId {
        shard_num: i64_bits(shard) as i64,
        realm_num: i64_bits(realm) as i64,
        schedule_num: i64_bits(num) as i64,
    }
}

/// The wire form of a token reference.
pub open spec fn spec_wire_token_id(shard: u64, realm: u64, num: u64) -> WireTokenId {
    WireTokenId {
        shard_num: i64_bits(shard) as i64,
        realm_num: i64_bits(realm) as i64,
        token_num: i64_bits(num) as i64,
    }
}

/// The wire form of an account address.
pub open spec fn spec_wire_address(a: crate::entity::AccountAddress) -> WireAccountId {
    match a {
        crate::entity::AccountAddress::AccountId(id) => spec_wire_account_id(
            id.shard,
            id.realm,
            id.num,
        ),
    }
}

/// The wire form of an optional account address.
pub open spec fn spec_wire_opt_address(
    a: Option<crate::entity::AccountAddress>,
) -> Option<WireAccountId> {
    match a {
        Some(aa) => Some(spec_wire_address(aa)),
        None => None,
    }
}

/// Converts an optional account address into its wire form.
pub fn to_wire_opt_address(a: &Option<crate::entity::AccountAddress>) -> (r: Option<WireAccountId>)
    ensures
        r == spec_wire_opt_address(*a),
{
    match a {
        Some(crate::entity::AccountAddress::AccountId(id)) => Some(
            WireAccountId {
                shard_num: to_signed_bits(id.shard),
                realm_num: to_signed_bits(id.realm),
                account_num: to_signed_bits(id.num),
            },
        ),
        None => None,
    }
}

/// Copies a list of copyable items.
pub fn copy_vec<T: Copy>(v: &Vec<T>) -> (r: Vec<T>)
    ensures
        r@ == v@,
{
    let mut r: Vec<T> = Vec::new();
    let mut i: usize = 0;
    while i < v.len()
        invariant
            0 <= i <= v@.len(),
            r@ == v@.take(i as int),
        decreases v@.len() - i,
    {
        r.push(v[i]);
        proof {
            assert(v@.take(i + 1) =~= v@.take(i as int).push(v@[i as int]));
        }
        i += 1;
    }
    proof {
        assert(v@.take(v@.len() as int) =~= v@);
    }
    r
}

/// Copies a byte string.
pub fn copy_bytes(v: &Vec<u8>) -> (r: Vec<u8>)
    ensures
        r@ == v@,
{
    let mut r: Vec<u8> = Vec::new();
    let mut i: usize = 0;
    while i < v.len()
        invariant
            0 <= i <= v@.len(),
            r@ == v@.take(i as int),
        decreases v@.len() - i,
    {
        r.push(v[i]);
        proof {
            assert(v@.take(i + 1) =~= v@.take(i as int).push(v@[i as int]));
        }
        i += 1;
    }
    proof {
        assert(v@.take(v@.len() as int) =~= v@);
    }
    r
}

} // verus!
