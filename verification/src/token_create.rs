//! Create a new token.
//!
//! The specified treasury account receives the initial supply of tokens. The
//! initial supply is in the lowest denomination of the token. A created
//! token is immutable if the admin key is omitted.

use vstd::prelude::*;

use crate::entity::{AccountAddress, AccountId};
use crate::envelope::{Transaction, TransactionBody, TransactionId};
use crate::fees::CustomFee;
use crate::key::{duplicate_opt_key, opt_key_model, Key, KeyModel};
use crate::token_types::{TokenSupplyType, TokenType};
use crate::units::{Duration, Timestamp};
use crate::wire::{
    copy_vec, i64_bits, opt_wire_key_model, spec_wire_account_id, spec_wire_opt_address,
    spec_wire_opt_key, spec_wire_timestamp, spec_wire_token_id, to_signed_bits, to_wire_opt_address,
    to_wire_opt_key, wire_timestamp, WireCustomFee, WireDuration, WireFee, WireFixedFee,
    WireTokenCreateTransactionBody, WireTransactionData,
};

verus! {

/// A transaction that creates a new token.
pub type TokenCreateTransaction = Transaction<TokenCreateTransactionData>;

/// The field set of the token-creation variant.
#[derive(Debug, Clone, PartialEq)]
pub struct TokenCreateTransactionData {
    /// The publicly visible name of the token.
    pub name: String,

    /// The publicly visible token symbol.
    pub symbol: String,

    /// The number of decimal places a fungible token is divisible by.
    pub decimals: u32,

    /// The initial supply of fungible tokens to mint to the treasury account.
    pub initial_supply: u64,

    /// The account which will act as a treasury for the token.
    pub treasury_account_id: Option<AccountAddress>,

    /// The key which can perform update and delete operations on the token.
    pub admin_key: Option<Key>,

    /// The key which can grant or revoke KYC of an account for the token's
    /// transactions.
    pub kyc_key: Option<Key>,

    /// The key which can sign to freeze or unfreeze an account for token
    /// transactions.
    pub freeze_key: Option<Key>,

    /// The key which can wipe the token balance of an account.
    pub wipe_key: Option<Key>,

    /// The key which can change the supply of a token.
    pub supply_key: Option<Key>,

    /// The default freeze status of accounts relative to this token. If
    /// true, an account must be unfrozen before it can receive the token.
    pub freeze_default: bool,

    /// The time at which the token should expire.
    pub expires_at: Option<Timestamp>,

    /// An account which will be automatically charged to renew the token's
    /// expiration, at the auto-renewal interval.
    pub auto_renew_account_id: Option<AccountAddress>,

    /// The interval at which the auto-renew account will be charged to
    /// extend the token's expiry.
    pub auto_renew_period: Option<Duration>,

    /// The memo associated with the token.
    pub token_memo: String,

    /// The token type.
    pub token_type: TokenType,

    /// The token supply type.
    pub token_supply_type: TokenSupplyType,

    /// The maximum number of tokens that can be in circulation.
    pub max_supply: u64,

    /// The key which can change the token's custom fee schedule.
    pub fee_schedule_key: Option<Key>,

    /// The custom fees to be assessed during a transfer, in order.
    pub custom_fees: Vec<CustomFee>,

    /// The key which can pause and unpause the token.
    pub pause_key: Option<Key>,
}

/// The mathematical shape of the token-creation field set.
#[verifier::ext_equal]
pub ghost struct TokenCreateModel {
    pub name: Seq<char>,
    pub symbol: Seq<char>,
    pub decimals: u32,
    pub initial_supply: u64,
    pub treasury_account_id: Option<AccountAddress>,
    pub admin_key: Option<KeyModel>,
    pub kyc_key: Option<KeyModel>,
    pub freeze_key: Option<KeyModel>,
    pub wipe_key: Option<KeyModel>,
    pub supply_key: Option<KeyModel>,
    pub freeze_default: bool,
    pub expires_at: Option<i64>,
    pub auto_renew_account_id: Option<AccountAddress>,
    pub auto_renew_period: Option<i64>,
    pub token_memo: Seq<char>,
    pub token_type: TokenType,
    pub token_supply_type: TokenSupplyType,
    pub max_supply: u64,
    pub fee_schedule_key: Option<KeyModel>,
    pub custom_fees: Seq<CustomFee>,
    pub pause_key: Option<KeyModel>,
}

/// The model of an optional instant, as nanoseconds.
pub open spec fn opt_nanos(t: Option<Timestamp>) -> Option<i64> {
    match t {
        Some(ts) => Some(ts.unix_nanos),
        None => None,
    }
}

/// The model of an optional interval, as seconds.
pub open spec fn opt_seconds(d: Option<Duration>) -> Option<i64> {
    match d {
        Some(dd) => Some(dd.seconds),
        None => None,
    }
}

impl View for TokenCreateTransactionData {
    type V = TokenCreateModel;

    open spec fn view(&self) -> TokenCreateModel {
        TokenCreateModel {
            name: self.name@,
            symbol: self.symbol@,
            decimals: self.decimals,
            initial_supply: self.initial_supply,
            treasury_account_id: self.treasury_account_id,
            admin_key: opt_key_model(self.admin_key),
            kyc_key: opt_key_model(self.kyc_key),
            freeze_key: opt_key_model(self.freeze_key),
            wipe_key: opt_key_model(self.wipe_key),
            supply_key: opt_key_model(self.supply_key),
            freeze_default: self.freeze_default,
            expires_at: opt_nanos(self.expires_at),
            auto_renew_account_id: self.auto_renew_account_id,
            auto_renew_period: opt_seconds(self.auto_renew_period),
            token_memo: self.token_memo@,
            token_type: self.token_type,
            token_supply_type: self.token_supply_type,
            max_supply: self.max_supply,
            fee_schedule_key: opt_key_model(self.fee_schedule_key),
            custom_fees: self.custom_fees@,
            pause_key: opt_key_model(self.pause_key),
        }
    }
}

/// The documented defaults of the token-creation variant: a 90-day
/// auto-renewal interval, the fungible/common token type, the infinite
/// supply type, and zero maximum supply.
pub open spec fn token_create_defaults() -> TokenCreateModel {
    TokenCreateModel {
        name: Seq::empty(),
        symbol: Seq::empty(),
        decimals: 0,
        initial_supply: 0,
        treasury_account_id: None,
        admin_key: None,
        kyc_key: None,
        freeze_key: None,
        wipe_key: None,
        supply_key: None,
        freeze_default: false,
        expires_at: None,
        auto_renew_account_id: None,
        auto_renew_period: Some(7776000i64),
        token_memo: Seq::empty(),
        token_type: TokenType::FungibleCommon,
        token_supply_type: TokenSupplyType::Infinite,
        max_supply: 0,
        fee_schedule_key: None,
        custom_fees: Seq::empty(),
        pause_key: None,
    }
}

impl Default for TokenCreateTransactionData {
    /// The variant at its documented defaults.
    fn default() -> (r: Self)
        ensures
            r@ == token_create_defaults(),
    {
        let r = TokenCreateTransactionData {
            name: String::new(),
            symbol: String::new(),
            decimals: 0,
            initial_supply: 0,
            treasury_account_id: None,
            admin_key: None,
            kyc_key: None,
            freeze_key: None,
            wipe_key: None,
            supply_key: None,
            freeze_default: false,
            expires_at: None,
            auto_renew_account_id: None,
            auto_renew_period: Some(Duration::days(90)),
            token_memo: String::new(),
            token_type: TokenType::FungibleCommon,
            token_supply_type: TokenSupplyType::Infinite,
            max_supply: 0,
            fee_schedule_key: None,
            custom_fees: Vec::new(),
            pause_key: None,
        };
        proof {
            assert(r@ =~= token_create_defaults());
        }
        r
    }
}

impl TokenCreateTransaction {
    /// An envelope holding the variant at its documented defaults, header
    /// fields absent.
    pub fn new() -> (r: Self)
        ensures
            r.body.data@ == token_create_defaults(),
            r.body.node_account_id is None,
            r.body.transaction_id is None,
    {
        Transaction {
            body: TransactionBody {
                data: TokenCreateTransactionData::default(),
                node_account_id: None,
                transaction_id: None,
            },
        }
    }

    /// Sets the publicly visible name of the token.
    pub fn name(&mut self, name: String)
        ensures
            final(self).body.data@ == (TokenCreateModel { name: name@, ..old(self).body.data@ }),
            final(self).body.node_account_id == old(self).body.node_account_id,
            final(self).body.transaction_id == old(self).body.transaction_id,
    {
        self.body.data.name = name;
        proof {
            assert(final(self).body.data@ =~= (TokenCreateModel {
                name: final(self).body.data.name@,
                ..old(self).body.data@
            }));
        }
    }

    /// Sets the publicly visible token symbol.
    pub fn symbol(&mut self, symbol: String)
        ensures
            final(self).body.data@ == (TokenCreateModel {
                symbol: symbol@,
                ..old(self).body.data@
            }),
            final(self).body.node_account_id == old(self).body.node_account_id,
            final(self).body.transaction_id == old(self).body.transaction_id,
    {
        self.body.data.symbol = symbol;
        proof {
            assert(final(self).body.data@ =~= (TokenCreateModel {
                symbol: final(self).body.data.symbol@,
                ..old(self).body.data@
            }));
        }
    }

    /// Sets the number of decimal places a token is divisible by.
    pub fn decimals(&mut self, decimals: u32)
        ensures
            final(self).body.data@ == (TokenCreateModel { decimals, ..old(self).body.data@ }),
            final(self).body.node_account_id == old(self).body.node_account_id,
            final(self).body.transaction_id == old(self).body.transaction_id,
    {
        self.body.data.decimals = decimals;
        proof {
            assert(final(self).body.data@ =~= (TokenCreateModel {
                decimals,
                ..old(self).body.data@
            }));
        }
    }

    /// Sets the initial supply of tokens to be put in circulation.
    pub fn initial_supply(&mut self, initial_supply: u64)
        ensures
            final(self).body.data@ == (TokenCreateModel {
                initial_supply,
                ..old(self).body.data@
            }),
            final(self).body.node_account_id == old(self).body.node_account_id,
            final(self).body.transaction_id == old(self).body.transaction_id,
    {
        self.body.data.initial_supply = initial_supply;
        proof {
            assert(final(self).body.data@ =~= (TokenCreateModel {
                initial_supply,
                ..old(self).body.data@
            }));
        }
    }

    /// Sets the account which will act as a treasury for the token.
    pub fn treasury_account_id(&mut self, treasury_account_id: AccountAddress)
        ensures
            final(self).body.data@ == (TokenCreateModel {
                treasury_account_id: Some(treasury_account_id),
                ..old(self).body.data@
            }),
            final(self).body.node_account_id == old(self).body.node_account_id,
            final(self).body.transaction_id == old(self).body.transaction_id,
    {
        self.body.data.treasury_account_id = Some(treasury_account_id);
        proof {
            assert(final(self).body.data@ =~= (TokenCreateModel {
                treasury_account_id: Some(treasury_account_id),
                ..old(self).body.data@
            }));
        }
    }

    /// Sets the key which can perform update and delete operations on the
    /// token.
    pub fn admin_key(&mut self, admin_key: Key)
        ensures
            final(self).body.data@ == (TokenCreateModel {
                admin_key: Some(admin_key@),
                ..old(self).body.data@
            }),
            final(self).body.node_account_id == old(self).body.node_account_id,
            final(self).body.transaction_id == old(self).body.transaction_id,
    {
        self.body.data.admin_key = Some(admin_key);
        proof {
            assert(final(self).body.data@ =~= (TokenCreateModel {
                admin_key: opt_key_model(final(self).body.data.admin_key),
                ..old(self).body.data@
            }));
        }
    }

    /// Sets the key which can grant or revoke KYC of an account for the
    /// token's transactions.
    pub fn kyc_key(&mut self, kyc_key: Key)
        ensures
            final(self).body.data@ == (TokenCreateModel {
                kyc_key: Some(kyc_key@),
                ..old(self).body.data@
            }),
            final(self).body.node_account_id == old(self).body.node_account_id,
            final(self).body.transaction_id == old(self).body.transaction_id,
    {
        self.body.data.kyc_key = Some(kyc_key);
        proof {
            assert(final(self).body.data@ =~= (TokenCreateModel {
                kyc_key: opt_key_model(final(self).body.data.kyc_key),
                ..old(self).body.data@
            }));
        }
    }

    /// Sets the key which can sign to freeze or unfreeze an account for
    /// token transactions.
    pub fn freeze_key(&mut self, freeze_key: Key)
        ensures
            final(self).body.data@ == (TokenCreateModel {
                freeze_key: Some(freeze_key@),
                ..old(self).body.data@
            }),
            final(self).body.node_account_id == old(self).body.node_account_id,
            final(self).body.transaction_id == old(self).body.transaction_id,
    {
        self.body.data.freeze_key = Some(freeze_key);
        proof {
            assert(final(self).body.data@ =~= (TokenCreateModel {
                freeze_key: opt_key_model(final(self).body.data.freeze_key),
                ..old(self).body.data@
            }));
        }
    }

    /// Sets the key which can wipe the token balance of an account.
    pub fn wipe_key(&mut self, wipe_key: Key)
        ensures
            final(self).body.data@ == (TokenCreateModel {
                wipe_key: Some(wipe_key@),
                ..old(self).body.data@
            }),
            final(self).body.node_account_id == old(self).body.node_account_id,
            final(self).body.transaction_id == old(self).body.transaction_id,
    {
        self.body.data.wipe_key = Some(wipe_key);
        proof {
            assert(final(self).body.data@ =~= (TokenCreateModel {
                wipe_key: opt_key_model(final(self).body.data.wipe_key),
                ..old(self).body.data@
            }));
        }
    }

    /// Sets the key which can change the supply of a token.
    pub fn supply_key(&mut self, supply_key: Key)
        ensures
            final(self).body.data@ == (TokenCreateModel {
                supply_key: Some(supply_key@),
                ..old(self).body.data@
            }),
            final(self).body.node_account_id == old(self).body.node_account_id,
            final(self).body.transaction_id == old(self).body.transaction_id,
    {
        self.body.data.supply_key = Some(supply_key);
        proof {
            assert(final(self).body.data@ =~= (TokenCreateModel {
                supply_key: opt_key_model(final(self).body.data.supply_key),
                ..old(self).body.data@
            }));
        }
    }

    /// Sets the default freeze status of accounts relative to this token.
    pub fn freeze_default(&mut self, freeze_default: bool)
        ensures
            final(self).body.data@ == (TokenCreateModel {
                freeze_default,
                ..old(self).body.data@
            }),
            final(self).body.node_account_id == old(self).body.node_account_id,
            final(self).body.transaction_id == old(self).body.transaction_id,
    {
        self.body.data.freeze_default = freeze_default;
        proof {
            assert(final(self).body.data@ =~= (TokenCreateModel {
                freeze_default,
                ..old(self).body.data@
            }));
        }
    }

    /// Sets the time at which the token should expire, and clears any
    /// auto-renewal interval currently stored, default or explicit: the wire
    /// protocol treats expiry and renewal interval as mutually exclusive in
    /// this direction. The converse is not automatic: setting a renewal
    /// interval does not clear a previously set expiration instant.
    pub fn expires_at(&mut self, expires_at: Timestamp)
        ensures
            final(self).body.data@ == (TokenCreateModel {
                expires_at: Some(expires_at.unix_nanos),
                auto_renew_period: None,
                ..old(self).body.data@
            }),
            final(self).body.node_account_id == old(self).body.node_account_id,
            final(self).body.transaction_id == old(self).body.transaction_id,
    {
        self.body.data.expires_at = Some(expires_at);
        self.body.data.auto_renew_period = None;
        proof {
            assert(final(self).body.data@ =~= (TokenCreateModel {
                expires_at: Some(expires_at.unix_nanos),
                auto_renew_period: None,
                ..old(self).body.data@
            }));
        }
    }

    /// Sets the account which will be automatically charged to renew the
    /// token's expiration.
    pub fn auto_renew_account_id(&mut self, auto_renew_account_id: AccountAddress)
        ensures
            final(self).body.data@ == (TokenCreateModel {
                auto_renew_account_id: Some(auto_renew_account_id),
                ..old(self).body.data@
            }),
            final(self).body.node_account_id == old(self).body.node_account_id,
            final(self).body.transaction_id == old(self).body.transaction_id,
    {
        self.body.data.auto_renew_account_id = Some(auto_renew_account_id);
        proof {
            assert(final(self).body.data@ =~= (TokenCreateModel {
                auto_renew_account_id: Some(auto_renew_account_id),
                ..old(self).body.data@
            }));
        }
    }

    /// Sets the interval at which the auto-renew account will be charged to
    /// extend the token's expiry. A previously set expiration instant is
    /// left as it is.
    pub fn auto_renew_period(&mut self, auto_renew_period: Duration)
        ensures
            final(self).body.data@ == (TokenCreateModel {
                auto_renew_period: Some(auto_renew_period.seconds),
                ..old(self).body.data@
            }),
            final(self).body.node_account_id == old(self).body.node_account_id,
            final(self).body.transaction_id == old(self).body.transaction_id,
    {
        self.body.data.auto_renew_period = Some(auto_renew_period);
        proof {
            assert(final(self).body.data@ =~= (TokenCreateModel {
                auto_renew_period: Some(auto_renew_period.seconds),
                ..old(self).body.data@
            }));
        }
    }

    /// Sets the memo associated with the token.
    pub fn token_memo(&mut self, memo: String)
        ensures
            final(self).body.data@ == (TokenCreateModel {
                token_memo: memo@,
                ..old(self).body.data@
            }),
            final(self).body.node_account_id == old(self).body.node_account_id,
            final(self).body.transaction_id == old(self).body.transaction_id,
    {
        self.body.data.token_memo = memo;
        proof {
            assert(final(self).body.data@ =~= (TokenCreateModel {
                token_memo: final(self).body.data.token_memo@,
                ..old(self).body.data@
            }));
        }
    }

    /// Sets the token type.
    pub fn token_type(&mut self, token_type: TokenType)
        ensures
            final(self).body.data@ == (TokenCreateModel { token_type, ..old(self).body.data@ }),
            final(self).body.node_account_id == old(self).body.node_account_id,
            final(self).body.transaction_id == old(self).body.transaction_id,
    {
        self.body.data.token_type = token_type;
        proof {
            assert(final(self).body.data@ =~= (TokenCreateModel {
                token_type,
                ..old(self).body.data@
            }));
        }
    }

    /// Sets the token supply type.
    pub fn token_supply_type(&mut self, token_supply_type: TokenSupplyType)
        ensures
            final(self).body.data@ == (TokenCreateModel {
                token_supply_type,
                ..old(self).body.data@
            }),
            final(self).body.node_account_id == old(self).body.node_account_id,
            final(self).body.transaction_id == old(self).body.transaction_id,
    {
        self.body.data.token_supply_type = token_supply_type;
        proof {
            assert(final(self).body.data@ =~= (TokenCreateModel {
                token_supply_type,
                ..old(self).body.data@
            }));
        }
    }

    /// Sets the maximum number of tokens that can be in circulation.
    pub fn max_supply(&mut self, max_supply: u64)
        ensures
            final(self).body.data@ == (TokenCreateModel { max_supply, ..old(self).body.data@ }),
            final(self).body.node_account_id == old(self).body.node_account_id,
            final(self).body.transaction_id == old(self).body.transaction_id,
    {
        self.body.data.max_supply = max_supply;
        proof {
            assert(final(self).body.data@ =~= (TokenCreateModel {
                max_supply,
                ..old(self).body.data@
            }));
        }
    }

    /// Sets the key which can change the token's custom fee schedule.
    pub fn fee_schedule_key(&mut self, fee_schedule_key: Key)
        ensures
            final(self).body.data@ == (TokenCreateModel {
                fee_schedule_key: Some(fee_schedule_key@),
                ..old(self).body.data@
            }),
            final(self).body.node_account_id == old(self).body.node_account_id,
            final(self).body.transaction_id == old(self).body.transaction_id,
    {
        self.body.data.fee_schedule_key = Some(fee_schedule_key);
        proof {
            assert(final(self).body.data@ =~= (TokenCreateModel {
                fee_schedule_key: opt_key_model(final(self).body.data.fee_schedule_key),
                ..old(self).body.data@
            }));
        }
    }

    /// Sets the custom fees to be assessed during a transfer, kept in input
    /// order.
    pub fn custom_fees(&mut self, custom_fees: Vec<CustomFee>)
        ensures
            final(self).body.data@ == (TokenCreateModel {
                custom_fees: custom_fees@,
                ..old(self).body.data@
            }),
            final(self).body.node_account_id == old(self).body.node_account_id,
            final(self).body.transaction_id == old(self).body.transaction_id,
    {
        self.body.data.custom_fees = custom_fees;
        proof {
            assert(final(self).body.data@ =~= (TokenCreateModel {
                custom_fees: final(self).body.data.custom_fees@,
                ..old(self).body.data@
            }));
        }
    }

    /// Sets the key which can pause and unpause the token.
    pub fn pause_key(&mut self, pause_key: Key)
        ensures
            final(self).body.data@ == (TokenCreateModel {
                pause_key: Some(pause_key@),
                ..old(self).body.data@
            }),
            final(self).body.node_account_id == old(self).body.node_account_id,
            final(self).body.transaction_id == old(self).body.transaction_id,
    {
        self.body.data.pause_key = Some(pause_key);
        proof {
            assert(final(self).body.data@ =~= (TokenCreateModel {
                pause_key: opt_key_model(final(self).body.data.pause_key),
                ..old(self).body.data@
            }));
        }
    }
}

// ---------------------------------------------------------------------------
// Wire transcoding
// ---------------------------------------------------------------------------

/// The wire form of one custom fee.
pub open spec fn spec_wire_custom_fee(f: CustomFee) -> WireCustomFee {
    WireCustomFee {
        fee: match f.fee {
            crate::fees::Fee::FixedFee(ff) => WireFee::FixedFee(
                WireFixedFee {
                    amount: ff.amount,
                    denominating_token_id: Some(
                        spec_wire_token_id(
                            ff.denominating_token_id.shard,
                            ff.denominating_token_id.realm,
                            ff.denominating_token_id.num,
                        ),
                    ),
                },
            ),
        },
        fee_collector_account_id: Some(
            spec_wire_account_id(
                f.fee_collector_account_id.shard,
                f.fee_collector_account_id.realm,
                f.fee_collector_account_id.num,
            ),
        ),
    }
}

/// The wire form of a fee schedule, element-wise in input order.
pub open spec fn spec_wire_custom_fees(fs: Seq<CustomFee>) -> Seq<WireCustomFee> {
    Seq::new(fs.len(), |i: int| spec_wire_custom_fee(fs[i]))
}

/// Converts one custom fee into its wire form.
fn to_wire_custom_fee(f: &CustomFee) -> (r: WireCustomFee)
    ensures
        r == spec_wire_custom_fee(*f),
{
    let r = match f.fee {
        crate::fees::Fee::FixedFee(ff) => WireCustomFee {
            fee: WireFee::FixedFee(
                WireFixedFee {
                    amount: ff.amount,
                    denominating_token_id: Some(
                        crate::wire::WireTokenId {
                            shard_num: to_signed_bits(ff.denominating_token_id.shard),
                            realm_num: to_signed_bits(ff.denominating_token_id.realm),
                            token_num: to_signed_bits(ff.denominating_token_id.num),
                        },
                    ),
                },
            ),
            fee_collector_account_id: Some(
                crate::wire::WireAccountId {
                    shard_num: to_signed_bits(f.fee_collector_account_id.shard),
                    realm_num: to_signed_bits(f.fee_collector_account_id.realm),
                    account_num: to_signed_bits(f.fee_collector_account_id.num),
                },
            ),
        },
    };
    proof {
        assert(r =~= spec_wire_custom_fee(*f));
    }
    r
}

/// Whether `r` is exactly the wire message of the token-creation field set
/// `m`: strings and the supply count copied verbatim, the maximum supply
/// reinterpreted by bit pattern, the expiry split into seconds and
/// nanoseconds, the renewal interval in whole seconds, keys as their raw
/// bytes, fees element-wise in input order, and every absent optional field
/// omitted.
pub open spec fn is_token_create_wire(m: TokenCreateModel, r: WireTransactionData) -> bool {
    match r {
        WireTransactionData::TokenCreation(b) => {
            &&& b.name@ == m.name
            &&& b.symbol@ == m.symbol
            &&& b.decimals == m.decimals
            &&& b.initial_supply == m.initial_supply
            &&& b.treasury == spec_wire_opt_address(m.treasury_account_id)
            &&& opt_wire_key_model(b.admin_key) == spec_wire_opt_key(m.admin_key)
            &&& opt_wire_key_model(b.kyc_key) == spec_wire_opt_key(m.kyc_key)
            &&& opt_wire_key_model(b.freeze_key) == spec_wire_opt_key(m.freeze_key)
            &&& opt_wire_key_model(b.wipe_key) == spec_wire_opt_key(m.wipe_key)
            &&& opt_wire_key_model(b.supply_key) == spec_wire_opt_key(m.supply_key)
            &&& b.freeze_default == m.freeze_default
            &&& b.expiry == (match m.expires_at {
                Some(n) => Some(spec_wire_timestamp(n)),
                None => None,
            })
            &&& b.auto_renew_account == spec_wire_opt_address(m.auto_renew_account_id)
            &&& b.auto_renew_period == (match m.auto_renew_period {
                Some(s) => Some(WireDuration { seconds: s }),
                None => None,
            })
            &&& b.memo@ == m.token_memo
            &&& b.token_type == m.token_type.spec_to_protobuf()
            &&& b.supply_type == m.token_supply_type.spec_to_protobuf()
            &&& b.max_supply as int == i64_bits(m.max_supply)
            &&& opt_wire_key_model(b.fee_schedule_key) == spec_wire_opt_key(m.fee_schedule_key)
            &&& b.custom_fees@ == spec_wire_custom_fees(m.custom_fees)
            &&& opt_wire_key_model(b.pause_key) == spec_wire_opt_key(m.pause_key)
        },
        _ => false,
    }
}

impl TokenCreateTransactionData {
    /// Produces the wire message for the current field values. Transcoding
    /// is total and pure: it has no failure mode of its own, for any value a
    /// builder can reach, including zero, the maximum 64-bit unsigned value
    /// in capacity fields, and empty byte and collection fields.
    pub fn to_transaction_data_protobuf(
        &self,
        _node_account_id: AccountId,
        _transaction_id: &TransactionId,
    ) -> (r: WireTransactionData)
        ensures
            is_token_create_wire(self@, r),
    {
        let mut custom_fees: Vec<WireCustomFee> = Vec::new();
        let mut i: usize = 0;
        while i < self.custom_fees.len()
            invariant
                0 <= i <= self.custom_fees@.len(),
                custom_fees@.len() == i,
                forall|j: int|
                    0 <= j < i ==> custom_fees@[j] == spec_wire_custom_fee(self.custom_fees@[j]),
            decreases self.custom_fees@.len() - i,
        {
            custom_fees.push(to_wire_custom_fee(&self.custom_fees[i]));
            i += 1;
        }
        proof {
            assert(custom_fees@ =~= spec_wire_custom_fees(self.custom_fees@));
        }
        let expiry = match &self.expires_at {
            Some(t) => Some(wire_timestamp(*t)),
            None => None,
        };
        let auto_renew_period = match &self.auto_renew_period {
            Some(d) => Some(WireDuration { seconds: d.seconds }),
            None => None,
        };
        WireTransactionData::TokenCreation(
            WireTokenCreateTransactionBody {
                name: self.name.clone(),
                symbol: self.symbol.clone(),
                decimals: self.decimals,
                initial_supply: self.initial_supply,
                treasury: to_wire_opt_address(&self.treasury_account_id),
                admin_key: to_wire_opt_key(&self.admin_key),
                kyc_key: to_wire_opt_key(&self.kyc_key),
                freeze_key: to_wire_opt_key(&self.freeze_key),
                wipe_key: to_wire_opt_key(&self.wipe_key),
                supply_key: to_wire_opt_key(&self.supply_key),
                freeze_default: self.freeze_default,
                expiry,
                auto_renew_account: to_wire_opt_address(&self.auto_renew_account_id),
                auto_renew_period,
                memo: self.token_memo.clone(),
                token_type: self.token_type.to_protobuf(),
                supply_type: self.token_supply_type.to_protobuf(),
                max_supply: to_signed_bits(self.max_supply),
                fee_schedule_key: to_wire_opt_key(&self.fee_schedule_key),
                custom_fees,
                pause_key: to_wire_opt_key(&self.pause_key),
            },
        )
    }
}

// ---------------------------------------------------------------------------
// Document schema
// ---------------------------------------------------------------------------

/// The document form of the token-creation variant: one entry per populated
/// attribute; absent optional values are omitted entirely.
#[derive(Debug, Clone, PartialEq)]
pub struct TokenCreateDocument {
    pub name: Option<String>,
    pub symbol: Option<String>,
    pub decimals: Option<u32>,
    pub initial_supply: Option<u64>,
    pub treasury_account_id: Option<AccountAddress>,
    pub admin_key: Option<Key>,
    pub kyc_key: Option<Key>,
    pub freeze_key: Option<Key>,
    pub wipe_key: Option<Key>,
    pub supply_key: Option<Key>,
    pub freeze_default: Option<bool>,
    pub expires_at: Option<i64>,
    pub auto_renew_account_id: Option<AccountAddress>,
    pub auto_renew_period: Option<i64>,
    pub token_memo: Option<String>,
    pub token_type: Option<TokenType>,
    pub token_supply_type: Option<TokenSupplyType>,
    pub max_supply: Option<u64>,
    pub fee_schedule_key: Option<Key>,
    pub custom_fees: Option<Vec<CustomFee>>,
    pub pause_key: Option<Key>,
}

/// The mathematical shape of the token-creation document.
#[verifier::ext_equal]
pub ghost struct TokenCreateDocModel {
    pub name: Option<Seq<char>>,
    pub symbol: Option<Seq<char>>,
    pub decimals: Option<u32>,
    pub initial_supply: Option<u64>,
    pub treasury_account_id: Option<AccountAddress>,
    pub admin_key: Option<KeyModel>,
    pub kyc_key: Option<KeyModel>,
    pub freeze_key: Option<KeyModel>,
    pub wipe_key: Option<KeyModel>,
    pub supply_key: Option<KeyModel>,
    pub freeze_default: Option<bool>,
    pub expires_at: Option<i64>,
    pub auto_renew_account_id: Option<AccountAddress>,
    pub auto_renew_period: Option<i64>,
    pub token_memo: Option<Seq<char>>,
    pub token_type: Option<TokenType>,
    pub token_supply_type: Option<TokenSupplyType>,
    pub max_supply: Option<u64>,
    pub fee_schedule_key: Option<KeyModel>,
    pub custom_fees: Option<Seq<CustomFee>>,
    pub pause_key: Option<KeyModel>,
}

/// The view of an optional character string.
pub open spec fn opt_str(s: Option<String>) -> Option<Seq<char>> {
    match s {
        Some(ss) => Some(ss@),
        None => None,
    }
}

/// The view of an optional fee schedule.
pub open spec fn opt_fees(v: Option<Vec<CustomFee>>) -> Option<Seq<CustomFee>> {
    match v {
        Some(vv) => Some(vv@),
        None => None,
    }
}

impl View for TokenCreateDocument {
    type V = TokenCreateDocModel;

    open spec fn view(&self) -> TokenCreateDocModel {
        TokenCreateDocModel {
            name: opt_str(self.name),
            symbol: opt_str(self.symbol),
            decimals: self.decimals,
            initial_supply: self.initial_supply,
            treasury_account_id: self.treasury_account_id,
            admin_key: opt_key_model(self.admin_key),
            kyc_key: opt_key_model(self.kyc_key),
            freeze_key: opt_key_model(self.freeze_key),
            wipe_key: opt_key_model(self.wipe_key),
            supply_key: opt_key_model(self.supply_key),
            freeze_default: self.freeze_default,
            expires_at: self.expires_at,
            auto_renew_account_id: self.auto_renew_account_id,
            auto_renew_period: self.auto_renew_period,
            token_memo: opt_str(self.token_memo),
            token_type: self.token_type,
            token_supply_type: self.token_supply_type,
            max_supply: self.max_supply,
            fee_schedule_key: opt_key_model(self.fee_schedule_key),
            custom_fees: opt_fees(self.custom_fees),
            pause_key: opt_key_model(self.pause_key),
        }
    }
}

/// What encoding the token-creation variant yields: every always-populated
/// attribute is present; optional attributes are present exactly when set.
pub open spec fn encode_token_create(m: TokenCreateModel) -> TokenCreateDocModel {
    TokenCreateDocModel {
        name: Some(m.name),
        symbol: Some(m.symbol),
        decimals: Some(m.decimals),
        initial_supply: Some(m.initial_supply),
        treasury_account_id: m.treasury_account_id,
        admin_key: m.admin_key,
        kyc_key: m.kyc_key,
        freeze_key: m.freeze_key,
        wipe_key: m.wipe_key,
        supply_key: m.supply_key,
        freeze_default: Some(m.freeze_default),
        expires_at: m.expires_at,
        auto_renew_account_id: m.auto_renew_account_id,
        auto_renew_period: m.auto_renew_period,
        token_memo: Some(m.token_memo),
        token_type: Some(m.token_type),
        token_supply_type: Some(m.token_supply_type),
        max_supply: Some(m.max_supply),
        fee_schedule_key: m.fee_schedule_key,
        custom_fees: Some(m.custom_fees),
        pause_key: m.pause_key,
    }
}

/// What decoding a token-creation document yields: entries missing from the
/// document take the variant's documented defaults, including the 90-day
/// auto-renewal interval.
pub open spec fn decode_token_create(d: TokenCreateDocModel) -> TokenCreateModel {
    TokenCreateModel {
        name: match d.name {
            Some(s) => s,
            None => Seq::empty(),
        },
        symbol: match d.symbol {
            Some(s) => s,
            None => Seq::empty(),
        },
        decimals: match d.decimals {
            Some(v) => v,
            None => 0,
        },
        initial_supply: match d.initial_supply {
            Some(v) => v,
            None => 0,
        },
        treasury_account_id: d.treasury_account_id,
        admin_key: d.admin_key,
        kyc_key: d.kyc_key,
        freeze_key: d.freeze_key,
        wipe_key: d.wipe_key,
        supply_key: d.supply_key,
        freeze_default: match d.freeze_default {
            Some(v) => v,
            None => false,
        },
        expires_at: d.expires_at,
        auto_renew_account_id: d.auto_renew_account_id,
        auto_renew_period: match d.auto_renew_period {
            Some(v) => Some(v),
            None => Some(7776000i64),
        },
        token_memo: match d.token_memo {
            Some(s) => s,
            None => Seq::empty(),
        },
        token_type: match d.token_type {
            Some(v) => v,
            None => TokenType::FungibleCommon,
        },
        token_supply_type: match d.token_supply_type {
            Some(v) => v,
            None => TokenSupplyType::Infinite,
        },
        max_supply: match d.max_supply {
            Some(v) => v,
            None => 0,
        },
        fee_schedule_key: d.fee_schedule_key,
        custom_fees: match d.custom_fees {
            Some(v) => v,
            None => Seq::empty(),
        },
        pause_key: d.pause_key,
    }
}

/// A document holding no entry at all.
pub open spec fn token_create_empty_document() -> TokenCreateDocModel {
    TokenCreateDocModel {
        name: None,
        symbol: None,
        decimals: None,
        initial_supply: None,
        treasury_account_id: None,
        admin_key: None,
        kyc_key: None,
        freeze_key: None,
        wipe_key: None,
        supply_key: None,
        freeze_default: None,
        expires_at: None,
        auto_renew_account_id: None,
        auto_renew_period: None,
        token_memo: None,
        token_type: None,
        token_supply_type: None,
        max_supply: None,
        fee_schedule_key: None,
        custom_fees: None,
        pause_key: None,
    }
}

/// Round-trip law: decoding the encoding of a token-creation field set
/// yields a value equal in every field to the original, whenever an
/// auto-renewal interval is stored. (A field set whose interval was cleared
/// by assigning a fixed expiry decodes to the default 90-day interval
/// instead, because its document omits the entry and decoding fills the
/// documented default.)
pub proof fn lemma_token_create_round_trip(m: TokenCreateModel)
    requires
        m.auto_renew_period is Some,
    ensures
        decode_token_create(encode_token_create(m)) == m,
{
    assert(decode_token_create(encode_token_create(m)) =~= m);
}

/// Default law: decoding a document with no entries yields the variant's
/// documented defaults: a 90-day auto-renewal interval, the fungible/common
/// token type, the infinite supply type, and zero maximum supply.
pub proof fn lemma_token_create_default_decode()
    ensures
        decode_token_create(token_create_empty_document()) == token_create_defaults(),
{
    assert(decode_token_create(token_create_empty_document()) =~= token_create_defaults());
}

impl TokenCreateTransactionData {
    /// Encodes the variant into its document form.
    pub fn to_document(&self) -> (r: TokenCreateDocument)
        ensures
            r@ == encode_token_create(self@),
    {
        let r = TokenCreateDocument {
            name: Some(self.name.clone()),
            symbol: Some(self.symbol.clone()),
            decimals: Some(self.decimals),
            initial_supply: Some(self.initial_supply),
            treasury_account_id: self.treasury_account_id,
            admin_key: duplicate_opt_key(&self.admin_key),
            kyc_key: duplicate_opt_key(&self.kyc_key),
            freeze_key: duplicate_opt_key(&self.freeze_key),
            wipe_key: duplicate_opt_key(&self.wipe_key),
            supply_key: duplicate_opt_key(&self.supply_key),
            freeze_default: Some(self.freeze_default),
            expires_at: match &self.expires_at {
                Some(t) => Some(t.unix_nanos),
                None => None,
            },
            auto_renew_account_id: self.auto_renew_account_id,
            auto_renew_period: match &self.auto_renew_period {
                Some(d) => Some(d.seconds),
                None => None,
            },
            token_memo: Some(self.token_memo.clone()),
            token_type: Some(self.token_type),
            token_supply_type: Some(self.token_supply_type),
            max_supply: Some(self.max_supply),
            fee_schedule_key: duplicate_opt_key(&self.fee_schedule_key),
            custom_fees: Some(copy_vec(&self.custom_fees)),
            pause_key: duplicate_opt_key(&self.pause_key),
        };
        proof {
            assert(r@ =~= encode_token_create(self@));
        }
        r
    }

    /// Decodes a document into the variant, filling missing entries with the
    /// documented defaults.
    pub fn from_document(d: TokenCreateDocument) -> (r: Self)
        ensures
            r@ == decode_token_create(d@),
    {
        let r = TokenCreateTransactionData {
            name: match d.name {
                Some(s) => s,
                None => String::new(),
            },
            symbol: match d.symbol {
                Some(s) => s,
                None => String::new(),
            },
            decimals: match d.decimals {
                Some(v) => v,
                None => 0,
            },
            initial_supply: match d.initial_supply {
                Some(v) => v,
                None => 0,
            },
            treasury_account_id: d.treasury_account_id,
            admin_key: d.admin_key,
            kyc_key: d.kyc_key,
            freeze_key: d.freeze_key,
            wipe_key: d.wipe_key,
            supply_key: d.supply_key,
            freeze_default: match d.freeze_default {
                Some(v) => v,
                None => false,
            },
            expires_at: match d.expires_at {
                Some(n) => Some(Timestamp { unix_nanos: n }),
                None => None,
            },
            auto_renew_account_id: d.auto_renew_account_id,
            auto_renew_period: match d.auto_renew_period {
                Some(s) => Some(Duration { seconds: s }),
                None => Some(Duration { seconds: 7776000 }),
            },
            token_memo: match d.token_memo {
                Some(s) => s,
                None => String::new(),
            },
            token_type: match d.token_type {
                Some(v) => v,
                None => TokenType::FungibleCommon,
            },
            token_supply_type: match d.token_supply_type {
                Some(v) => v,
                None => TokenSupplyType::Infinite,
            },
            max_supply: match d.max_supply {
                Some(v) => v,
                None => 0,
            },
            fee_schedule_key: d.fee_schedule_key,
            custom_fees: match d.custom_fees {
                Some(v) => v,
                None => Vec::new(),
            },
            pause_key: d.pause_key,
        };
        proof {
            assert(r@ =~= decode_token_create(d@));
        }
        r
    }
}

} // verus!
