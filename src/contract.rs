//! A token contract bound to a chain session under a unique label.
use vstd::prelude::*;
use crate::error::DeployError;
use crate::identity::{fresh_label, label_of};
use crate::network::Network;
use crate::receipt::{settle, normalized_from, RawReceipt, TransactionRecord};

verus! {

/// The instantiation a binding asks for: token metadata, the label, and the
/// sender as admin. The token starts with no balances, no minter and no
/// marketing information.
#[derive(Clone, Debug, PartialEq, Eq)]
pub struct InstantiateRequest {
    pub label: String,
    pub admin: String,
    pub name: String,
    pub symbol: String,
    pub decimals: u8,
}

/// A transfer of tokens from the sender to a recipient.
#[derive(Clone, Debug, PartialEq, Eq)]
pub struct TransferRequest {
    pub contract: String,
    pub recipient: String,
    pub amount: u128,
}

/// One contract deployment on one network, signed by one sender.
#[derive(Clone, Debug)]
pub struct MyContractoor {
    identity: usize,
    label: String,
    sender: String,
    network: Network,
}

impl MyContractoor {
    /// The identity drawn for the binding.
    pub closed spec fn identity_spec(&self) -> nat {
        self.identity as nat
    }

    /// The namespaced label of the binding.
    pub closed spec fn label_spec(&self) -> Seq<char> {
        self.label@
    }

    /// The address that signs for the binding.
    pub closed spec fn sender_spec(&self) -> Seq<char> {
        self.sender@
    }

    /// The network the binding targets.
    pub closed spec fn network_spec(&self) -> Network {
        self.network
    }

    /// The sender is known and the label names the contract and its identity.
    pub open spec fn wf(&self, contract_id: Seq<char>) -> bool {
        &&& self.identity_spec() > 0
        &&& self.sender_spec().len() > 0
        &&& self.label_spec() == label_of(contract_id, self.identity_spec())
    }

    /// Binds the named contract to a session on `network`, whose sender
    /// address came from the credential (or the reason it could not be
    /// derived). A missing or empty sender is a configuration error;
    /// otherwise the binding gets a fresh identity.
    pub fn new(
        contract_id: &str,
        network: Network,
        sender: Result<String, String>,
    ) -> (r: Result<MyContractoor, DeployError>)
        ensures
            match sender {
                Err(m) => r == Err::<MyContractoor, DeployError>(DeployError::Configuration(m)),
                Ok(s) => if s@.len() == 0 {
                    r is Err && r->Err_0 is Configuration
                } else {
                    &&& r is Ok
                    &&& r->Ok_0.wf(contract_id@)
                    &&& r->Ok_0.sender_spec() == s@
                    &&& r->Ok_0.network_spec() == network
                },
            },
    {
        match sender {
            Err(m) => Err(DeployError::Configuration(m)),
            Ok(s) => {
                if s.unicode_len() == 0 {
                    Err(DeployError::Configuration(String::from_str("the sender address is empty")))
                } else {
                    let (identity, label) = fresh_label(contract_id);
                    Ok(MyContractoor { identity, label, sender: s, network })
                }
            },
        }
    }

    /// The identity drawn for this binding.
    pub fn identity(&self) -> (r: usize)
        ensures
            r as nat == self.identity_spec(),
    {
        self.identity
    }

    /// The namespaced label, `<contract>:<identity>`.
    pub fn label(&self) -> (r: &str)
        ensures
            r@ == self.label_spec(),
    {
        self.label.as_str()
    }

    /// The address that signs the binding's transactions.
    pub fn sender(&self) -> (r: &str)
        ensures
            r@ == self.sender_spec(),
    {
        self.sender.as_str()
    }

    /// The network the binding targets.
    pub fn network(&self) -> (r: Network)
        ensures
            r == self.network_spec(),
    {
        self.network
    }

    /// The instantiation of the token with the given metadata, labelled with
    /// the binding's label and administered by its sender.
    pub fn init(&self, name: String, symbol: String, decimals: u8) -> (r: InstantiateRequest)
        ensures
            r.label@ == self.label_spec(),
            r.admin@ == self.sender_spec(),
            r.name == name,
            r.symbol == symbol,
            r.decimals == decimals,
    {
        InstantiateRequest {
            label: self.label.clone(),
            admin: self.sender.clone(),
            name,
            symbol,
            decimals,
        }
    }

    /// The transfer of `amount` tokens to `recipient` on the bound contract.
    pub fn transfer(&self, recipient: String, amount: u128) -> (r: TransferRequest)
        ensures
            r.contract@ == self.label_spec(),
            r.recipient == recipient,
            r.amount == amount,
    {
        TransferRequest { contract: self.label.clone(), recipient, amount }
    }

    /// The answer to a lookup by hash: the normalized record when the chain
    /// found the transaction, a chain error with its message otherwise.
    pub fn find_tx(&self, outcome: Result<RawReceipt, String>) -> (r: Result<TransactionRecord, DeployError>)
        ensures
            match outcome {
                Ok(raw) => r is Ok && normalized_from(r->Ok_0, raw),
                Err(m) => r == Err::<TransactionRecord, DeployError>(DeployError::Chain(m)),
            },
    {
        settle(outcome)
    }
}

/// Two bindings with distinct identities have distinct labels, whatever
/// contract names they were made for.
pub proof fn lemma_distinct_identities_distinct_labels(
    a: MyContractoor,
    name_a: Seq<char>,
    b: MyContractoor,
    name_b: Seq<char>,
)
    requires
        a.wf(name_a),
        b.wf(name_b),
        a.identity_spec() != b.identity_spec(),
    ensures
        a.label_spec() != b.label_spec(),
{
    if a.label_spec() == b.label_spec() {
        crate::identity::lemma_label_determines_identity(
            name_a,
            a.identity_spec(),
            name_b,
            b.identity_spec(),
        );
    }
}

} // verus!
