//! Call a function of a given smart-contract instance, giving it parameters
//! as its inputs. The call can use the given amount of gas, and the given
//! number of currency sub-units is sent along with it.

use vstd::prelude::*;

use crate::entity::{AccountId, ContractId};
use crate::envelope::{Transaction, TransactionBody, TransactionId};
use crate::units::Hbar;
use crate::wire::{
    copy_bytes, i64_bits, spec_wire_contract_id, to_signed_bits, WireContractCallTransactionBody,
    WireContractId, WireTransactionData,
};

verus! {

/// A transaction that calls a function of a smart-contract instance.
pub type ContractExecuteTransaction = Transaction<ContractExecuteTransactionData>;

/// The field set of the contract-call variant.
#[derive(Debug, Clone, PartialEq)]
pub struct ContractExecuteTransactionData {
    /// The contract instance to call.
    pub contract_id: Option<ContractId>,

    /// The maximum amount of gas to use for the call.
    pub gas: u64,

    /// The number of currency sub-units sent with this function call.
    pub payable_amount: Hbar,

    /// The function parameters as their raw bytes.
    pub function_parameters: Vec<u8>,
}

/// The mathematical shape of the contract-call field set.
#[verifier::ext_equal]
pub ghost struct ContractExecuteModel {
    pub contract_id: Option<ContractId>,
    pub gas: u64,
    pub payable_amount: i64,
    pub function_parameters: Seq<u8>,
}

impl View for ContractExecuteTransactionData {
    type V = ContractExecuteModel;

    open spec fn view(&self) -> ContractExecuteModel {
        ContractExecuteModel {
            contract_id: self.contract_id,
            gas: self.gas,
            payable_amount: self.payable_amount.tinybars,
            function_parameters: self.function_parameters@,
        }
    }
}

/// The documented defaults of the contract-call variant.
pub open spec fn contract_execute_defaults() -> ContractExecuteModel {
    ContractExecuteModel {
        contract_id: None,
        gas: 0,
        payable_amount: 0,
        function_parameters: Seq::empty(),
    }
}

impl Default for ContractExecuteTransactionData {
    /// The variant at its documented defaults.
    fn default() -> (r: Self)
        ensures
            r@ == contract_execute_defaults(),
    {
        let r = ContractExecuteTransactionData {
            contract_id: None,
            gas: 0,
            payable_amount: Hbar::from_tinybars(0),
            function_parameters: Vec::new(),
        };
        proof {
            assert(r@ =~= contract_execute_defaults());
        }
        r
    }
}

impl ContractExecuteTransaction {
    /// An envelope holding the variant at its documented defaults, header
    /// fields absent.
    pub fn new() -> (r: Self)
        ensures
            r.body.data@ == contract_execute_defaults(),
            r.body.node_account_id is None,
            r.body.transaction_id is None,
    {
        Transaction {
            body: TransactionBody {
                data: ContractExecuteTransactionData::default(),
                node_account_id: None,
                transaction_id: None,
            },
        }
    }

    /// Sets the contract instance to call.
    pub fn contract_id(&mut self, contract_id: ContractId)
        ensures
            final(self).body.data@ == (ContractExecuteModel {
                contract_id: Some(contract_id),
                ..old(self).body.data@
            }),
            final(self).body.node_account_id == old(self).body.node_account_id,
            final(self).body.transaction_id == old(self).body.transaction_id,
    {
        self.body.data.contract_id = Some(contract_id);
        proof {
            assert(final(self).body.data@ =~= (ContractExecuteModel {
                contract_id: Some(contract_id),
                ..old(self).body.data@
            }));
        }
    }

    /// Sets the maximum amount of gas to use for the call.
    pub fn gas(&mut self, gas: u64)
        ensures
            final(self).body.data@ == (ContractExecuteModel { gas, ..old(self).body.data@ }),
            final(self).body.node_account_id == old(self).body.node_account_id,
            final(self).body.transaction_id == old(self).body.transaction_id,
    {
        self.body.data.gas = gas;
        proof {
            assert(final(self).body.data@ =~= (ContractExecuteModel {
                gas,
                ..old(self).body.data@
            }));
        }
    }

    /// Sets the number of currency sub-units sent with this function call.
    pub fn payable_amount(&mut self, amount: Hbar)
        ensures
            final(self).body.data@ == (ContractExecuteModel {
                payable_amount: amount.tinybars,
                ..old(self).body.data@
            }),
            final(self).body.node_account_id == old(self).body.node_account_id,
            final(self).body.transaction_id == old(self).body.transaction_id,
    {
        self.body.data.payable_amount = amount;
        proof {
            assert(final(self).body.data@ =~= (ContractExecuteModel {
                payable_amount: amount.tinybars,
                ..old(self).body.data@
            }));
        }
    }

    /// Sets the function parameters as their raw bytes.
    pub fn function_parameters(&mut self, data: Vec<u8>)
        ensures
            final(self).body.data@ == (ContractExecuteModel {
                function_parameters: data@,
                ..old(self).body.data@
            }),
            final(self).body.node_account_id == old(self).body.node_account_id,
            final(self).body.transaction_id == old(self).body.transaction_id,
    {
        self.body.data.function_parameters = data;
        proof {
            assert(final(self).body.data@ =~= (ContractExecuteModel {
                function_parameters: final(self).body.data.function_parameters@,
                ..old(self).body.data@
            }));
        }
    }
}

/// Whether `r` is exactly the wire message of the contract-call field set
/// `m`: the gas limit reinterpreted by bit pattern, the payable amount's
/// sub-unit count copied verbatim, the parameter bytes in order, an absent
/// contract reference omitted.
pub open spec fn is_contract_call_wire(m: ContractExecuteModel, r: WireTransactionData) -> bool {
    match r {
        WireTransactionData::ContractCall(b) => {
            &&& b.contract_id == (match m.contract_id {
                Some(id) => Some(spec_wire_contract_id(id.shard, id.realm, id.num)),
                None => None,
            })
            &&& b.gas as int == i64_bits(m.gas)
            &&& b.amount == m.payable_amount
            &&& b.function_parameters@ == m.function_parameters
        },
        _ => false,
    }
}

impl ContractExecuteTransactionData {
    /// Produces the wire message for the current field values. Transcoding
    /// is total and pure: every field set a builder can reach converts, the
    /// gas limit by bit pattern, the payable amount verbatim, the parameter
    /// bytes in order.
    pub fn to_transaction_data_protobuf(
        &self,
        _node_account_id: AccountId,
        _transaction_id: &TransactionId,
    ) -> (r: WireTransactionData)
        ensures
            is_contract_call_wire(self@, r),
    {
        let contract_id = match &self.contract_id {
            Some(id) => Some(
                WireContractId {
                    shard_num: to_signed_bits(id.shard),
                    realm_num: to_signed_bits(id.realm),
                    contract_num: to_signed_bits(id.num),
                },
            ),
            None => None,
        };
        WireTransactionData::ContractCall(
            WireContractCallTransactionBody {
                contract_id,
                gas: to_signed_bits(self.gas),
                amount: self.payable_amount.to_tinybars(),
                function_parameters: copy_bytes(&self.function_parameters),
            },
        )
    }
}

// ---------------------------------------------------------------------------
// Document schema
// ---------------------------------------------------------------------------

/// The document form of the contract-call variant: one entry per populated
/// attribute; absent optional values are omitted entirely.
#[derive(Debug, Clone, PartialEq)]
pub struct ContractExecuteDocument {
    pub contract_id: Option<ContractId>,
    pub gas: Option<u64>,
    pub payable_amount: Option<i64>,
    pub function_parameters: Option<Vec<u8>>,
}

/// The mathematical shape of the contract-call document.
#[verifier::ext_equal]
pub ghost struct ContractExecuteDocModel {
    pub contract_id: Option<ContractId>,
    pub gas: Option<u64>,
    pub payable_amount: Option<i64>,
    pub function_parameters: Option<Seq<u8>>,
}

impl View for ContractExecuteDocument {
    type V = ContractExecuteDocModel;

    open spec fn view(&self) -> ContractExecuteDocModel {
        ContractExecuteDocModel {
            contract_id: self.contract_id,
            gas: self.gas,
            payable_amount: self.payable_amount,
            function_parameters: match self.function_parameters {
                Some(ref v) => Some(v@),
                None => None,
            },
        }
    }
}

/// What encoding the contract-call variant yields: every field of the
/// variant is populated, so every entry is present.
pub open spec fn encode_contract_execute(m: ContractExecuteModel) -> ContractExecuteDocModel {
    ContractExecuteDocModel {
        contract_id: m.contract_id,
        gas: Some(m.gas),
        payable_amount: Some(m.payable_amount),
        function_parameters: Some(m.function_parameters),
    }
}

/// What decoding a contract-call document yields: entries missing from the
/// document take the variant's documented defaults.
pub open spec fn decode_contract_execute(d: ContractExecuteDocModel) -> ContractExecuteModel {
    ContractExecuteModel {
        contract_id: d.contract_id,
        gas: match d.gas {
            Some(g) => g,
            None => 0,
        },
        payable_amount: match d.payable_amount {
            Some(p) => p,
            None => 0,
        },
        function_parameters: match d.function_parameters {
            Some(f) => f,
            None => Seq::empty(),
        },
    }
}

/// A document holding no entry at all.
pub open spec fn contract_execute_empty_document() -> ContractExecuteDocModel {
    ContractExecuteDocModel {
        contract_id: None,
        gas: None,
        payable_amount: None,
        function_parameters: None,
    }
}

/// Round-trip law: decoding the encoding of any reachable contract-call
/// field set yields a value equal in every field to the original.
pub proof fn lemma_contract_execute_round_trip(m: ContractExecuteModel)
    ensures
        decode_contract_execute(encode_contract_execute(m)) == m,
{
    assert(decode_contract_execute(encode_contract_execute(m)) =~= m);
}

/// Default law: decoding a document with no entries yields the variant's
/// documented defaults.
pub proof fn lemma_contract_execute_default_decode()
    ensures
        decode_contract_execute(contract_execute_empty_document())
            == contract_execute_defaults(),
{
    assert(decode_contract_execute(contract_execute_empty_document())
        =~= contract_execute_defaults());
}

impl ContractExecuteTransactionData {
    /// Encodes the variant into its document form.
    pub fn to_document(&self) -> (r: ContractExecuteDocument)
        ensures
            r@ == encode_contract_execute(self@),
    {
        let r = ContractExecuteDocument {
            contract_id: self.contract_id,
            gas: Some(self.gas),
            payable_amount: Some(self.payable_amount.to_tinybars()),
            function_parameters: Some(copy_bytes(&self.function_parameters)),
        };
        proof {
            assert(r@ =~= encode_contract_execute(self@));
        }
        r
    }

    /// Decodes a document into the variant, filling missing entries with the
    /// documented defaults.
    pub fn from_document(d: ContractExecuteDocument) -> (r: Self)
        ensures
            r@ == decode_contract_execute(d@),
    {
        let r = ContractExecuteTransactionData {
            contract_id: d.contract_id,
            gas: match d.gas {
                Some(g) => g,
                None => 0,
            },
            payable_amount: Hbar::from_tinybars(
                match d.payable_amount {
                    Some(p) => p,
                    None => 0,
                },
            ),
            function_parameters: match d.function_parameters {
                Some(f) => f,
                None => Vec::new(),
            },
        };
        proof {
            assert(r@ =~= decode_contract_execute(d@));
        }
        r
    }
}

} // verus!
