//! The decision whether bytecode must be uploaded, and the state it rests on.
use vstd::prelude::*;
use crate::error::DeployError;
use crate::receipt::{normalize, normalized_from, RawReceipt, TransactionRecord};

verus! {

/// Code registered on chain for the contract: its id and its checksum.
#[derive(Clone, Debug, PartialEq, Eq)]
pub struct CodeRecord {
    pub code_id: u64,
    pub checksum: Vec<u8>,
}

/// What is known of the contract's code on chain.
#[derive(Clone, Debug, PartialEq, Eq)]
pub struct UploadState {
    pub code: Option<CodeRecord>,
}

/// The step the deploy command takes.
#[derive(Clone, Copy, Debug, PartialEq, Eq)]
pub enum UploadAction {
    /// Submit an upload transaction.
    Submit,
    /// The bytecode is already on chain: nothing to do.
    AlreadyDeployed,
}

/// A successful upload: the id the chain gave the code, and the receipt.
#[derive(Clone, Debug, PartialEq, Eq)]
pub struct UploadReceipt {
    pub code_id: u64,
    pub receipt: RawReceipt,
}

/// The checksum of the registered code, if any.
pub open spec fn registered(code: Option<CodeRecord>) -> Option<Seq<u8>> {
    match code {
        Some(c) => Some(c.checksum@),
        None => None,
    }
}

/// The step taken when `reg` is registered and `local` is the bytecode.
pub open spec fn plan_spec(reg: Option<Seq<u8>>, local: Seq<u8>) -> UploadAction {
    if reg == Some(local) {
        UploadAction::AlreadyDeployed
    } else {
        UploadAction::Submit
    }
}

/// The number of uploads submitted when the deploy step runs `n` times in a
/// row against unchanged bytecode, each upload succeeding.
pub open spec fn uploads_in_run(reg: Option<Seq<u8>>, local: Seq<u8>, n: nat) -> nat
    decreases n,
{
    if n == 0 {
        0
    } else if plan_spec(reg, local) == UploadAction::Submit {
        1 + uploads_in_run(Some(local), local, (n - 1) as nat)
    } else {
        uploads_in_run(reg, local, (n - 1) as nat)
    }
}

fn same_bytes(a: &Vec<u8>, b: &Vec<u8>) -> (r: bool)
    ensures
        r == (a@ == b@),
{
    if a.len() != b.len() {
        return false;
    }
    let mut i: usize = 0;
    while i < a.len()
        invariant
            a@.len() == b@.len(),
            0 <= i <= a@.len(),
            forall|j: int| 0 <= j < i ==> a@[j] == b@[j],
        decreases a@.len() - i,
    {
        if a[i] != b[i] {
            return false;
        }
        i = i + 1;
    }
    assert(a@ =~= b@);
    true
}

impl UploadState {
    /// Nothing is known to be on chain.
    pub fn empty() -> (r: UploadState)
        ensures
            r.code is None,
    {
        UploadState { code: None }
    }

    /// Decides whether the local bytecode must be uploaded: only when the
    /// registered code is missing or differs from it.
    pub fn plan_upload(&self, local: &Vec<u8>) -> (r: UploadAction)
        ensures
            r == plan_spec(registered(self.code), local@),
    {
        match &self.code {
            Some(c) => {
                if same_bytes(&c.checksum, local) {
                    UploadAction::AlreadyDeployed
                } else {
                    UploadAction::Submit
                }
            },
            None => UploadAction::Submit,
        }
    }

    /// Takes in the outcome of an upload: on success the code is registered
    /// and the receipt normalized; on failure the state is kept and the
    /// chain's message returned verbatim.
    pub fn complete_upload(
        &mut self,
        local: Vec<u8>,
        outcome: Result<UploadReceipt, String>,
    ) -> (r: Result<TransactionRecord, DeployError>)
        ensures
            match outcome {
                Ok(u) => {
                    &&& final(self).code is Some
                    &&& final(self).code->Some_0.code_id == u.code_id
                    &&& registered(final(self).code) == Some(local@)
                    &&& r is Ok
                    &&& normalized_from(r->Ok_0, u.receipt)
                },
                Err(m) => {
                    &&& *final(self) == *old(self)
                    &&& r == Err::<TransactionRecord, DeployError>(DeployError::Chain(m))
                },
            },
    {
        match outcome {
            Ok(u) => {
                self.code = Some(CodeRecord { code_id: u.code_id, checksum: local });
                Ok(normalize(u.receipt))
            },
            Err(m) => Err(DeployError::Chain(m)),
        }
    }
}

/// Upload is convergent: once an upload of the bytecode has succeeded, the
/// next deploy step against it is a no-op.
pub proof fn lemma_upload_idempotent(local: Seq<u8>)
    ensures
        plan_spec(Some(local), local) == UploadAction::AlreadyDeployed,
{
}

/// However many times the deploy step runs against unchanged bytecode, at
/// most one upload is submitted, and none when it is already registered.
pub proof fn lemma_at_most_one_upload(reg: Option<Seq<u8>>, local: Seq<u8>, n: nat)
    ensures
        uploads_in_run(reg, local, n) <= 1,
        reg == Some(local) ==> uploads_in_run(reg, local, n) == 0,
    decreases n,
{
    if n > 0 {
        if plan_spec(reg, local) == UploadAction::Submit {
            lemma_at_most_one_upload(Some(local), local, (n - 1) as nat);
        } else {
            lemma_at_most_one_upload(reg, local, (n - 1) as nat);
        }
    }
}

} // verus!
