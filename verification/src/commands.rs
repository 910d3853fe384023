//! The deferred callback registry: four ordered extension points attached to
//! the final context, and the functions that evaluate them once the network
//! is known.
//!
//! Each callback is created once by exactly one stage, stored unmodified in
//! the final context, and consumed exactly once by the execution driver.

use vstd::prelude::*;
use crate::account_id::AccountId;
use crate::actions::{Action, ActionView, PrepopulatedTransaction};
use crate::create_account::{AccountProperties, create_account_routing, create_account_routing_spec, spec_linkdrop};
use crate::types::{AccountQueryOutcome, CliError, Config, NetworkConfig, PublicKey};

verus! {

/// The first extension point: turns the selected network and the account
/// queries into the transaction to submit. Each variant carries, by value,
/// the state its originating stage packed into it.
#[derive(Debug)]
pub enum OnAfterGettingNetworkCallback {
    /// Registered by the sign-as stage of account creation: decides, once
    /// the network is known, how the new account is created.
    CreateAccountFundMyself { signer_account_id: AccountId, account_properties: AccountProperties },
    /// Registered by the key-deletion stage: the owner signs a single
    /// delete-key action addressed to itself.
    DeleteKey { owner_account_id: AccountId, public_key: PublicKey },
    /// Registered by the finalize stage of the step-by-step chain: the
    /// transaction parts are already assembled and pass through unchanged.
    Prepopulated {
        signer_account_id: AccountId,
        receiver_account_id: AccountId,
        actions: Vec<Action>,
    },
}

/// The second extension point: the last chance to veto before signing. The
/// stages in this pipeline have nothing to contribute and register a no-op,
/// preserving the uniform four-slot contract.
#[derive(Debug, Clone, Copy, PartialEq, Eq, Structural)]
pub enum OnBeforeSigningCallback {
    NoOp,
}

/// The third extension point: the last chance to veto before broadcast.
#[derive(Debug, Clone, Copy, PartialEq, Eq, Structural)]
pub enum OnBeforeSendingTransactionCallback {
    NoOp,
}

/// The fourth extension point: reporting after submission.
#[derive(Debug, Clone, Copy, PartialEq, Eq, Structural)]
pub enum OnAfterSendingTransactionCallback {
    NoOp,
}

/// The final accumulated context: the configuration and the four callback
/// slots, always all present.
#[derive(Debug)]
pub struct ActionContext {
    pub config: Config,
    pub on_after_getting_network_callback: OnAfterGettingNetworkCallback,
    pub on_before_signing_callback: OnBeforeSigningCallback,
    pub on_before_sending_transaction_callback: OnBeforeSendingTransactionCallback,
    pub on_after_sending_transaction_callback: OnAfterSendingTransactionCallback,
}

/// The single delete-key action, signed by and addressed to the key's owner.
pub open spec fn delete_key_tx(
    t: PrepopulatedTransaction,
    owner: Seq<char>,
    public_key: Seq<char>,
) -> bool {
    &&& t.signer_id@ == owner
    &&& t.receiver_id@ == owner
    &&& t.actions@.len() == 1
    &&& t.actions@[0]@ == (ActionView::DeleteKey { public_key: public_key })
}

impl OnAfterGettingNetworkCallback {
    /// Which account-state queries the driver must perform before this
    /// callback can run: one account that must exist (the signer) and one
    /// that must not (the account to create).
    pub fn required_queries(&self) -> (r: (Option<AccountId>, Option<AccountId>))
        ensures
            match self {
                OnAfterGettingNetworkCallback::CreateAccountFundMyself {
                    signer_account_id,
                    account_properties,
                } => {
                    &&& r.0 matches Some(a) && a@ == signer_account_id@
                    &&& r.1 matches Some(a) && a@ == account_properties.new_account_id@
                },
                _ => r.0 is None && r.1 is None,
            },
    {
        match self {
            OnAfterGettingNetworkCallback::CreateAccountFundMyself {
                signer_account_id,
                account_properties,
            } => (
                Some(signer_account_id.clone()),
                Some(account_properties.new_account_id.clone()),
            ),
            _ => (None, None),
        }
    }
}

/// What invoking the network callback must yield: the routing policy for
/// account creation, the fixed delete-key transaction, or the assembled
/// parts passed through unchanged.
pub open spec fn spec_after_network_outcome(
    callback: OnAfterGettingNetworkCallback,
    network_config: NetworkConfig,
    signer_query: AccountQueryOutcome,
    new_account_query: AccountQueryOutcome,
    r: Result<PrepopulatedTransaction, CliError>,
) -> bool {
    match callback {
        OnAfterGettingNetworkCallback::CreateAccountFundMyself {
            signer_account_id,
            account_properties,
        } => create_account_routing_spec(
            signer_account_id@,
            account_properties.new_account_id@,
            account_properties.initial_balance.yoctonear,
            account_properties.public_key@,
            network_config.network_name@,
            spec_linkdrop(&network_config),
            signer_query,
            new_account_query,
            r,
        ),
        OnAfterGettingNetworkCallback::DeleteKey { owner_account_id, public_key } => r matches Ok(
            t,
        ) && delete_key_tx(t, owner_account_id@, public_key@),
        OnAfterGettingNetworkCallback::Prepopulated {
            signer_account_id,
            receiver_account_id,
            actions,
        } => r matches Ok(t) && t.signer_id == signer_account_id && t.receiver_id
            == receiver_account_id && t.actions == actions,
    }
}

/// Invokes the network callback. The callback is consumed: it cannot be
/// invoked a second time. The queries are those named by `required_queries`;
/// callbacks that need none ignore them.
pub fn run_after_getting_network_callback(
    callback: OnAfterGettingNetworkCallback,
    network_config: &NetworkConfig,
    signer_query: &AccountQueryOutcome,
    new_account_query: &AccountQueryOutcome,
) -> (r: Result<PrepopulatedTransaction, CliError>)
    ensures
        spec_after_network_outcome(
            callback,
            *network_config,
            *signer_query,
            *new_account_query,
            r,
        ),
{
    match callback {
        OnAfterGettingNetworkCallback::CreateAccountFundMyself {
            signer_account_id,
            account_properties,
        } => create_account_routing(
            signer_account_id,
            account_properties,
            network_config,
            signer_query,
            new_account_query,
        ),
        OnAfterGettingNetworkCallback::DeleteKey { owner_account_id, public_key } => {
            let receiver_id = owner_account_id.clone();
            let mut actions: Vec<Action> = Vec::new();
            actions.push(Action::DeleteKey { public_key });
            Ok(PrepopulatedTransaction { signer_id: owner_account_id, receiver_id, actions })
        },
        OnAfterGettingNetworkCallback::Prepopulated {
            signer_account_id,
            receiver_account_id,
            actions,
        } => Ok(
            PrepopulatedTransaction {
                signer_id: signer_account_id,
                receiver_id: receiver_account_id,
                actions,
            },
        ),
    }
}

/// Invokes the veto point before the transaction is handed to the signer.
/// The no-op callback never vetoes.
pub fn run_before_signing_callback(
    callback: OnBeforeSigningCallback,
    prepopulated_unsigned_transaction: &PrepopulatedTransaction,
    network_config: &NetworkConfig,
) -> (r: Result<(), CliError>)
    ensures
        callback is NoOp ==> r is Ok,
{
    match callback {
        OnBeforeSigningCallback::NoOp => Ok(()),
    }
}

/// Invokes the veto point before the signed transaction is broadcast.
pub fn run_before_sending_transaction_callback(
    callback: OnBeforeSendingTransactionCallback,
    signed_transaction: &SignedTransaction,
    network_config: &NetworkConfig,
) -> (r: Result<(), CliError>)
    ensures
        callback is NoOp ==> r is Ok,
{
    match callback {
        OnBeforeSendingTransactionCallback::NoOp => Ok(()),
    }
}

/// Invokes the reporting point after submission.
pub fn run_after_sending_transaction_callback(
    callback: OnAfterSendingTransactionCallback,
    outcome: &TransactionOutcome,
    network_config: &NetworkConfig,
) -> (r: Result<(), CliError>)
    ensures
        callback is NoOp ==> r is Ok,
{
    match callback {
        OnAfterSendingTransactionCallback::NoOp => Ok(()),
    }
}

/// A transaction signed by the external signer; the signature is opaque to
/// the pipeline.
#[derive(Debug)]
pub struct SignedTransaction {
    pub transaction: PrepopulatedTransaction,
    pub signature: Vec<u8>,
}

/// What the broadcaster reported after submission; opaque to the pipeline.
#[derive(Debug)]
pub struct TransactionOutcome {
    pub transaction_hash: String,
}

/// Where the execution driver stands. Each state carries exactly the
/// callbacks that are still to be invoked, so none can run twice.
#[derive(Debug)]
pub enum DriverState {
    /// Nothing has happened: the network selector has not answered yet.
    AwaitingNetwork { context: ActionContext },
    /// The network is known; the account-state queries are outstanding.
    AwaitingQueries {
        network_config: NetworkConfig,
        on_after_getting_network_callback: OnAfterGettingNetworkCallback,
        on_before_signing_callback: OnBeforeSigningCallback,
        on_before_sending_transaction_callback: OnBeforeSendingTransactionCallback,
        on_after_sending_transaction_callback: OnAfterSendingTransactionCallback,
    },
    /// The transaction is built and approved for signing; the external
    /// signer has it.
    AwaitingSignature {
        network_config: NetworkConfig,
        on_before_sending_transaction_callback: OnBeforeSendingTransactionCallback,
        on_after_sending_transaction_callback: OnAfterSendingTransactionCallback,
    },
    /// The signed transaction is approved for broadcast; the broadcaster
    /// has it.
    AwaitingSubmission {
        network_config: NetworkConfig,
        on_after_sending_transaction_callback: OnAfterSendingTransactionCallback,
    },
    /// The run is over, well or badly. Nothing more will be invoked.
    Finished { result: Result<TransactionOutcome, CliError> },
}

/// What the world reports back to the driver.
#[derive(Debug)]
pub enum DriverEvent {
    NetworkSelected { network_config: NetworkConfig },
    AccountsQueried { signer_query: AccountQueryOutcome, new_account_query: AccountQueryOutcome },
    SigningCompleted { result: Result<SignedTransaction, String> },
    SubmissionCompleted { result: Result<TransactionOutcome, String> },
}

/// What the driver asks the world to do next.
#[derive(Debug)]
pub enum DriverRequest {
    /// Resolve the target network.
    SelectNetwork,
    /// Query the state of the named accounts; outcomes for accounts not
    /// named are ignored.
    QueryAccounts { signer_account_id: Option<AccountId>, new_account_id: Option<AccountId> },
    /// Hand the transaction to the external signer.
    SignTransaction { transaction: PrepopulatedTransaction },
    /// Hand the signed transaction to the broadcaster.
    SubmitTransaction { signed_transaction: SignedTransaction },
    /// Nothing: the run is finished.
    Done,
}

/// How far the driver has come; it only ever grows.
pub open spec fn spec_driver_rank(s: DriverState) -> int {
    match s {
        DriverState::AwaitingNetwork { .. } => 0,
        DriverState::AwaitingQueries { .. } => 1,
        DriverState::AwaitingSignature { .. } => 2,
        DriverState::AwaitingSubmission { .. } => 3,
        DriverState::Finished { .. } => 4,
    }
}

/// The event answers what the state is waiting for.
pub open spec fn spec_event_fits(s: DriverState, e: DriverEvent) -> bool {
    match (s, e) {
        (DriverState::AwaitingNetwork { .. }, DriverEvent::NetworkSelected { .. }) => true,
        (DriverState::AwaitingQueries { .. }, DriverEvent::AccountsQueried { .. }) => true,
        (DriverState::AwaitingSignature { .. }, DriverEvent::SigningCompleted { .. }) => true,
        (DriverState::AwaitingSubmission { .. }, DriverEvent::SubmissionCompleted { .. }) => true,
        _ => false,
    }
}

/// Starts a run: the final context is consumed whole and nothing has been
/// invoked yet.
pub fn start_execution(context: ActionContext) -> (r: (DriverState, DriverRequest))
    ensures
        r.0 matches DriverState::AwaitingNetwork { context: c } && c == context,
        r.1 is SelectNetwork,
{
    (DriverState::AwaitingNetwork { context }, DriverRequest::SelectNetwork)
}

/// Advances the driver by one event. The four callbacks are invoked in
/// their fixed order, each exactly once; the first failure finishes the run
/// and nothing later is invoked. An event that does not answer the current
/// state is a programming defect and aborts the run.
pub fn drive_step(state: DriverState, event: DriverEvent) -> (r: (DriverState, DriverRequest))
    ensures
        spec_driver_rank(r.0) > spec_driver_rank(state) || state is Finished,
        !spec_event_fits(state, event) ==> (r.0 matches DriverState::Finished { result } && result
            == Err::<TransactionOutcome, CliError>(CliError::ConstructionInvariantViolation)
            && r.1 is Done),
        state matches DriverState::AwaitingNetwork { context } ==> event
            matches DriverEvent::NetworkSelected { network_config } ==> {
            &&& r.0 matches DriverState::AwaitingQueries {
                network_config: nc,
                on_after_getting_network_callback: cb1,
                on_before_signing_callback: cb2,
                on_before_sending_transaction_callback: cb3,
                on_after_sending_transaction_callback: cb4,
            } && nc == network_config && cb1 == context.on_after_getting_network_callback && cb2
                == context.on_before_signing_callback && cb3
                == context.on_before_sending_transaction_callback && cb4
                == context.on_after_sending_transaction_callback
            &&& context.on_after_getting_network_callback
                matches OnAfterGettingNetworkCallback::CreateAccountFundMyself {
                signer_account_id: s,
                account_properties,
            } ==> (r.1 matches DriverRequest::QueryAccounts { signer_account_id, new_account_id }
                && (signer_account_id matches Some(a) && a@ == s@) && (new_account_id
                matches Some(b) && b@ == account_properties.new_account_id@))
            &&& r.1 is QueryAccounts
        },
        state matches DriverState::AwaitingQueries {
            network_config,
            on_after_getting_network_callback: cb1,
            on_before_signing_callback: cb2,
            on_before_sending_transaction_callback: cb3,
            on_after_sending_transaction_callback: cb4,
        } ==> event matches DriverEvent::AccountsQueried { signer_query, new_account_query } ==> {
            &&& r.0 matches DriverState::AwaitingSignature {
                network_config: nc,
                on_before_sending_transaction_callback: c3,
                on_after_sending_transaction_callback: c4,
            } ==> (nc == network_config && c3 == cb3 && c4 == cb4 && (r.1
                matches DriverRequest::SignTransaction { transaction }
                && spec_after_network_outcome(
                cb1,
                network_config,
                signer_query,
                new_account_query,
                Ok(transaction),
            )))
            &&& r.0 matches DriverState::Finished { result } ==> ((result matches Err(e)
                && spec_after_network_outcome(
                cb1,
                network_config,
                signer_query,
                new_account_query,
                Err(e),
            )) && r.1 is Done)
            &&& (r.0 is AwaitingSignature || r.0 is Finished)
        },
        state matches DriverState::AwaitingSignature {
            network_config,
            on_before_sending_transaction_callback: cb3,
            on_after_sending_transaction_callback: cb4,
        } ==> event matches DriverEvent::SigningCompleted { result: signing } ==> {
            &&& signing matches Err(message) ==> (r.0 matches DriverState::Finished { result }
                && (result matches Err(e) && e matches CliError::SigningFailed { message: m } && m
                == message) && r.1 is Done)
            &&& signing matches Ok(signed) ==> (r.0 matches DriverState::AwaitingSubmission {
                network_config: nc,
                on_after_sending_transaction_callback: c4,
            } && nc == network_config && c4 == cb4 && (r.1
                matches DriverRequest::SubmitTransaction { signed_transaction }
                && signed_transaction == signed))
        },
        state matches DriverState::AwaitingSubmission {
            network_config,
            on_after_sending_transaction_callback: cb4,
        } ==> event matches DriverEvent::SubmissionCompleted { result: submission } ==> {
            &&& submission matches Err(message) ==> (r.0 matches DriverState::Finished { result }
                && (result matches Err(e) && e matches CliError::RpcFailure { message: m } && m
                == message) && r.1 is Done)
            &&& submission matches Ok(outcome) ==> (r.0 matches DriverState::Finished { result }
                && result == Ok::<TransactionOutcome, CliError>(outcome) && r.1 is Done)
        },
{
    match (state, event) {
        (
            DriverState::AwaitingNetwork { context },
            DriverEvent::NetworkSelected { network_config },
        ) => {
            let (signer_account_id, new_account_id) =
                context.on_after_getting_network_callback.required_queries();
            let ActionContext {
                config: _,
                on_after_getting_network_callback,
                on_before_signing_callback,
                on_before_sending_transaction_callback,
                on_after_sending_transaction_callback,
            } = context;
            (
                DriverState::AwaitingQueries {
                    network_config,
                    on_after_getting_network_callback,
                    on_before_signing_callback,
                    on_before_sending_transaction_callback,
                    on_after_sending_transaction_callback,
                },
                DriverRequest::QueryAccounts { signer_account_id, new_account_id },
            )
        },
        (
            DriverState::AwaitingQueries {
                network_config,
                on_after_getting_network_callback,
                on_before_signing_callback,
                on_before_sending_transaction_callback,
                on_after_sending_transaction_callback,
            },
            DriverEvent::AccountsQueried { signer_query, new_account_query },
        ) => {
            match run_after_getting_network_callback(
                on_after_getting_network_callback,
                &network_config,
                &signer_query,
                &new_account_query,
            ) {
                Err(e) => (DriverState::Finished { result: Err(e) }, DriverRequest::Done),
                Ok(transaction) => {
                    match run_before_signing_callback(
                        on_before_signing_callback,
                        &transaction,
                        &network_config,
                    ) {
                        Err(e) => (DriverState::Finished { result: Err(e) }, DriverRequest::Done),
                        Ok(()) => (
                            DriverState::AwaitingSignature {
                                network_config,
                                on_before_sending_transaction_callback,
                                on_after_sending_transaction_callback,
                            },
                            DriverRequest::SignTransaction { transaction },
                        ),
                    }
                },
            }
        },
        (
            DriverState::AwaitingSignature {
                network_config,
                on_before_sending_transaction_callback,
                on_after_sending_transaction_callback,
            },
            DriverEvent::SigningCompleted { result },
        ) => {
            match result {
                Err(message) => (
                    DriverState::Finished { result: Err(CliError::SigningFailed { message }) },
                    DriverRequest::Done,
                ),
                Ok(signed_transaction) => {
                    match run_before_sending_transaction_callback(
                        on_before_sending_transaction_callback,
                        &signed_transaction,
                        &network_config,
                    ) {
                        Err(e) => (DriverState::Finished { result: Err(e) }, DriverRequest::Done),
                        Ok(()) => (
                            DriverState::AwaitingSubmission {
                                network_config,
                                on_after_sending_transaction_callback,
                            },
                            DriverRequest::SubmitTransaction { signed_transaction },
                        ),
                    }
                },
            }
        },
        (
            DriverState::AwaitingSubmission { network_config, on_after_sending_transaction_callback },
            DriverEvent::SubmissionCompleted { result },
        ) => {
            match result {
                Err(message) => (
                    DriverState::Finished { result: Err(CliError::RpcFailure { message }) },
                    DriverRequest::Done,
                ),
                Ok(outcome) => {
                    match run_after_sending_transaction_callback(
                        on_after_sending_transaction_callback,
                        &outcome,
                        &network_config,
                    ) {
                        Err(e) => (DriverState::Finished { result: Err(e) }, DriverRequest::Done),
                        Ok(()) => (DriverState::Finished { result: Ok(outcome) }, DriverRequest::Done),
                    }
                },
            }
        },
        (_, _) => (
            DriverState::Finished { result: Err(CliError::ConstructionInvariantViolation) },
            DriverRequest::Done,
        ),
    }
}

} // verus!
