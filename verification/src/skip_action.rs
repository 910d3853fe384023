//! The finalize stage of the step-by-step transaction chain: stop adding
//! actions and hand the assembled parts to the execution driver.

use vstd::prelude::*;
use crate::account_id::AccountId;
use crate::actions::Action;
use crate::commands::{ActionContext, OnAfterGettingNetworkCallback, OnAfterSendingTransactionCallback, OnBeforeSigningCallback, OnBeforeSendingTransactionCallback};
use crate::types::{CliError, Config};

verus! {

/// The accumulated context of the step-by-step chain: signer, receiver and
/// the actions collected so far.
#[derive(Debug)]
pub struct ConstructTransactionContext {
    pub config: Config,
    pub signer_account_id: AccountId,
    pub receiver_account_id: AccountId,
    pub actions: Vec<Action>,
}

/// The stage's input: nothing to resolve, the choice itself is the content.
#[derive(Debug)]
pub struct SkipAction {}

/// The context after the finalize choice: the previous context, unchanged.
#[derive(Debug)]
pub struct SkipActionContext(pub ConstructTransactionContext);

impl SkipActionContext {
    /// Carries the whole previous context forward untouched.
    pub fn from_previous_context(
        previous_context: ConstructTransactionContext,
        scope: &SkipAction,
    ) -> (r: Result<Self, CliError>)
        ensures
            r is Ok,
            r matches Ok(c) ==> c.0 == previous_context,
    {
        Ok(SkipActionContext(previous_context))
    }

    /// Closes the stage chain: the assembled parts pass through the network
    /// callback unchanged, every other slot gets a no-op.
    pub fn into_action_context(self) -> (r: ActionContext)
        ensures
            r.config == self.0.config,
            r.on_after_getting_network_callback
                matches OnAfterGettingNetworkCallback::Prepopulated {
                signer_account_id,
                receiver_account_id,
                actions,
            } && signer_account_id == self.0.signer_account_id && receiver_account_id
                == self.0.receiver_account_id && actions == self.0.actions,
            r.on_before_signing_callback is NoOp,
            r.on_before_sending_transaction_callback is NoOp,
            r.on_after_sending_transaction_callback is NoOp,
    {
        let ConstructTransactionContext { config, signer_account_id, receiver_account_id, actions } =
            self.0;
        ActionContext {
            config,
            on_after_getting_network_callback: OnAfterGettingNetworkCallback::Prepopulated {
                signer_account_id,
                receiver_account_id,
                actions,
            },
            on_before_signing_callback: OnBeforeSigningCallback::NoOp,
            on_before_sending_transaction_callback: OnBeforeSendingTransactionCallback::NoOp,
            on_after_sending_transaction_callback: OnAfterSendingTransactionCallback::NoOp,
        }
    }
}

} // verus!
