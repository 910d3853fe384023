//! The concrete actions a transaction can carry, and the two transaction
//! shapes they are assembled into.

use vstd::prelude::*;
use crate::account_id::AccountId;
use crate::types::PublicKey;

verus! {

/// What an added key is allowed to do.
#[derive(Debug, Clone, Copy, PartialEq, Eq, Structural)]
pub enum AccessKeyPermission {
    FullAccess,
    FunctionCallAccess,
}

/// The metadata attached to a key added to an account.
#[derive(Debug, Clone, Copy, PartialEq, Eq, Structural)]
pub struct AccessKey {
    pub nonce: u64,
    pub permission: AccessKeyPermission,
}

/// One unit of on-chain effect placed into a transaction.
#[derive(Debug, PartialEq, Eq)]
pub enum Action {
    CreateAccount,
    DeleteAccount { beneficiary_id: String },
    AddKey { public_key: PublicKey, access_key: AccessKey },
    DeleteKey { public_key: PublicKey },
    Transfer { deposit: u128 },
    FunctionCall { method_name: String, args: Vec<u8>, gas: u64, deposit: u128 },
}

/// The mathematical shape of an `Action`: the same variants over sequences
/// and plain numbers.
pub enum ActionView {
    CreateAccount,
    DeleteAccount { beneficiary_id: Seq<char> },
    AddKey { public_key: Seq<char>, access_key: AccessKey },
    DeleteKey { public_key: Seq<char> },
    Transfer { deposit: u128 },
    FunctionCall { method_name: Seq<char>, args: Seq<u8>, gas: u64, deposit: u128 },
}

impl View for Action {
    type V = ActionView;

    open spec fn view(&self) -> ActionView {
        match self {
            Action::CreateAccount => ActionView::CreateAccount,
            Action::DeleteAccount { beneficiary_id } => ActionView::DeleteAccount {
                beneficiary_id: beneficiary_id@,
            },
            Action::AddKey { public_key, access_key } => ActionView::AddKey {
                public_key: public_key@,
                access_key: *access_key,
            },
            Action::DeleteKey { public_key } => ActionView::DeleteKey {
                public_key: public_key@,
            },
            Action::Transfer { deposit } => ActionView::Transfer { deposit: *deposit },
            Action::FunctionCall { method_name, args, gas, deposit } => ActionView::FunctionCall {
                method_name: method_name@,
                args: args@,
                gas: *gas,
                deposit: *deposit,
            },
        }
    }
}

/// The materialized output of the network-dependent callback: a signer, a
/// receiver, and the ordered actions to submit. Constructed fresh for each
/// execution attempt.
#[derive(Debug)]
pub struct PrepopulatedTransaction {
    pub signer_id: AccountId,
    pub receiver_id: AccountId,
    pub actions: Vec<Action>,
}

/// An unsigned transaction under construction in the step-by-step chain;
/// identifiers are carried as raw strings until it is handed to the signer.
#[derive(Debug)]
pub struct Transaction {
    pub signer_id: String,
    pub public_key: PublicKey,
    pub nonce: u64,
    pub receiver_id: String,
    pub block_hash: Vec<u8>,
    pub actions: Vec<Action>,
}

/// The starting point of the step-by-step chain: every field empty or zero.
pub fn blank_transaction() -> (t: Transaction)
    ensures
        t.signer_id@.len() == 0,
        t.public_key@ == "ed25519:11111111111111111111111111111111"@,
        t.nonce == 0,
        t.receiver_id@.len() == 0,
        t.block_hash@ == Seq::new(32, |i: int| 0u8),
        t.actions@.len() == 0,
{
    let mut block_hash: Vec<u8> = Vec::new();
    let mut i: usize = 0;
    while i < 32
        invariant
            i <= 32,
            block_hash@ =~= Seq::new(i as nat, |j: int| 0u8),
        decreases 32 - i,
    {
        block_hash.push(0u8);
        proof {
            assert(block_hash@ =~= Seq::new((i + 1) as nat, |j: int| 0u8));
        }
        i += 1;
    }
    proof {
        assert(block_hash@ =~= Seq::new(32, |j: int| 0u8));
    }
    Transaction {
        signer_id: String::new(),
        public_key: PublicKey::empty(),
        nonce: 0,
        receiver_id: String::new(),
        block_hash,
        actions: Vec::new(),
    }
}

} // verus!
