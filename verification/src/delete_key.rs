//! The key-deletion stage: the owner of an access key removes it.

use vstd::prelude::*;
use crate::account_id::AccountId;
use crate::commands::{ActionContext, OnAfterGettingNetworkCallback, OnAfterSendingTransactionCallback, OnBeforeSigningCallback, OnBeforeSendingTransactionCallback};
use crate::types::{CliError, Config, GlobalContext, PublicKey};

verus! {

/// The stage's input: whose key, and which key.
#[derive(Debug)]
pub struct DeleteKeyCommand {
    pub owner_account_id: AccountId,
    pub public_key: PublicKey,
}

/// The context once owner and key are resolved.
#[derive(Debug)]
pub struct DeleteKeyCommandContext {
    pub config: Config,
    pub owner_account_id: AccountId,
    pub public_key: PublicKey,
}

impl DeleteKeyCommandContext {
    /// Appends the resolved owner and key to the global configuration.
    pub fn from_previous_context(
        previous_context: GlobalContext,
        scope: &DeleteKeyCommand,
    ) -> (r: Result<Self, CliError>)
        ensures
            r is Ok,
            r matches Ok(c) ==> {
                &&& c.config == previous_context.0
                &&& c.owner_account_id@ == scope.owner_account_id@
                &&& c.public_key@ == scope.public_key@
            },
    {
        Ok(DeleteKeyCommandContext {
            config: previous_context.0,
            owner_account_id: scope.owner_account_id.clone(),
            public_key: scope.public_key.clone(),
        })
    }

    /// Closes the stage chain: the delete-key transaction is deferred into
    /// the network callback, every other slot gets a no-op.
    pub fn into_action_context(self) -> (r: ActionContext)
        ensures
            r.config == self.config,
            r.on_after_getting_network_callback
                matches OnAfterGettingNetworkCallback::DeleteKey { owner_account_id, public_key }
                && owner_account_id == self.owner_account_id && public_key == self.public_key,
            r.on_before_signing_callback is NoOp,
            r.on_before_sending_transaction_callback is NoOp,
            r.on_after_sending_transaction_callback is NoOp,
    {
        ActionContext {
            config: self.config,
            on_after_getting_network_callback: OnAfterGettingNetworkCallback::DeleteKey {
                owner_account_id: self.owner_account_id,
                public_key: self.public_key,
            },
            on_before_signing_callback: OnBeforeSigningCallback::NoOp,
            on_before_sending_transaction_callback: OnBeforeSendingTransactionCallback::NoOp,
            on_after_sending_transaction_callback: OnAfterSendingTransactionCallback::NoOp,
        }
    }
}

} // verus!
