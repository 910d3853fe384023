//! The account-creation stage: choosing the signer, and the network-dependent
//! routing that decides how the new account is created.
//!
//! The routing decision cannot be taken while the pipeline is being
//! assembled, because the network is not yet known; the stage therefore
//! registers it as the network callback, and the execution driver evaluates
//! it once the network and the two account-state queries are in hand.

use vstd::prelude::*;
use crate::account_id::{AccountId, spec_is_sub_account_of, spec_is_top_level};
use crate::actions::{AccessKey, AccessKeyPermission, Action, ActionView, PrepopulatedTransaction};
use crate::commands::{ActionContext, OnAfterGettingNetworkCallback, OnAfterSendingTransactionCallback, OnBeforeSigningCallback, OnBeforeSendingTransactionCallback};
use crate::json::{json_object_two, json_object_two_of};
use crate::types::{AccountQueryOutcome, CliError, Config, NearBalance, NetworkConfig, PublicKey};
use crate::types::{CREATE_ACCOUNT_FUNCTION_CALL_GAS, MIN_ALLOWED_TOP_LEVEL_ACCOUNT_LENGTH};
use crate::types::{is_already_exists_err, is_create_permission_err, is_linkdrop_missing_err, is_permission_denied, is_rpc_failure_err, is_signer_missing_err, is_too_short_err};

verus! {

/// What the earlier entity stages have gathered about the account to create.
#[derive(Debug)]
pub struct AccountProperties {
    pub new_account_id: AccountId,
    pub initial_balance: NearBalance,
    pub public_key: PublicKey,
}

/// The accumulated context right before the signer is chosen.
#[derive(Debug)]
pub struct AccountPropertiesContext {
    pub config: Config,
    pub account_properties: AccountProperties,
    pub on_before_sending_transaction_callback: OnBeforeSendingTransactionCallback,
}

/// The resolved scope of the sign-as stage: which account signs.
#[derive(Debug)]
pub struct SignerAccountId {
    pub signer_account_id: AccountId,
}

/// The accumulated context once the signer is chosen: everything the
/// previous context held, plus the signer.
#[derive(Debug)]
pub struct SignerAccountIdContext {
    pub config: Config,
    pub account_properties: AccountProperties,
    pub signer_account_id: AccountId,
    pub on_before_sending_transaction_callback: OnBeforeSendingTransactionCallback,
}

impl SignerAccountIdContext {
    /// Appends the resolved signer to the previous context; every field of
    /// the previous context is carried over unchanged.
    pub fn from_previous_context(
        previous_context: AccountPropertiesContext,
        scope: &SignerAccountId,
    ) -> (r: Result<Self, CliError>)
        ensures
            r is Ok,
            r matches Ok(c) ==> {
                &&& c.config == previous_context.config
                &&& c.account_properties == previous_context.account_properties
                &&& c.signer_account_id@ == scope.signer_account_id@
                &&& c.on_before_sending_transaction_callback
                    == previous_context.on_before_sending_transaction_callback
            },
    {
        Ok(SignerAccountIdContext {
            config: previous_context.config,
            account_properties: previous_context.account_properties,
            signer_account_id: scope.signer_account_id.clone(),
            on_before_sending_transaction_callback: previous_context
                .on_before_sending_transaction_callback,
        })
    }

    /// Closes the stage chain: the routing decision is packed, still
    /// unevaluated, into the network callback; the two later slots that this
    /// stage has nothing to contribute to get no-op callbacks.
    pub fn into_action_context(self) -> (r: ActionContext)
        ensures
            r.config == self.config,
            r.on_after_getting_network_callback
                matches OnAfterGettingNetworkCallback::CreateAccountFundMyself {
                signer_account_id,
                account_properties,
            } && signer_account_id == self.signer_account_id && account_properties
                == self.account_properties,
            r.on_before_signing_callback is NoOp,
            r.on_before_sending_transaction_callback
                == self.on_before_sending_transaction_callback,
            r.on_after_sending_transaction_callback is NoOp,
    {
        ActionContext {
            config: self.config,
            on_after_getting_network_callback:
                OnAfterGettingNetworkCallback::CreateAccountFundMyself {
                signer_account_id: self.signer_account_id,
                account_properties: self.account_properties,
            },
            on_before_signing_callback: OnBeforeSigningCallback::NoOp,
            on_before_sending_transaction_callback: self.on_before_sending_transaction_callback,
            on_after_sending_transaction_callback: OnAfterSendingTransactionCallback::NoOp,
        }
    }
}

/// The signer exists on the network: the query answered `Exists`.
pub fn validate_signer_account_id(
    network_config: &NetworkConfig,
    account_id: &AccountId,
    query: &AccountQueryOutcome,
) -> (r: Result<(), CliError>)
    ensures
        query is Exists <==> r is Ok,
        query is NotFound ==> (r matches Err(e) && is_signer_missing_err(
            e,
            account_id@,
            network_config.network_name@,
        )),
        query matches AccountQueryOutcome::RpcError { message } ==> (r matches Err(e)
            && is_rpc_failure_err(e, message@)),
{
    match query {
        AccountQueryOutcome::Exists => Ok(()),
        AccountQueryOutcome::NotFound => Err(
            CliError::SignerAccountDoesNotExist {
                signer_id: account_id.clone(),
                network_name: network_config.network_name.clone(),
            },
        ),
        AccountQueryOutcome::RpcError { message } => Err(
            CliError::RpcFailure { message: message.clone() },
        ),
    }
}

/// The account to create is still free: the query answered `NotFound`.
pub fn validate_new_account_id(
    network_config: &NetworkConfig,
    account_id: &AccountId,
    query: &AccountQueryOutcome,
) -> (r: Result<(), CliError>)
    ensures
        query is NotFound <==> r is Ok,
        query is Exists ==> (r matches Err(e) && is_already_exists_err(
            e,
            account_id@,
            network_config.network_name@,
        )),
        query matches AccountQueryOutcome::RpcError { message } ==> (r matches Err(e)
            && is_rpc_failure_err(e, message@)),
{
    match query {
        AccountQueryOutcome::Exists => Err(
            CliError::AccountAlreadyExists {
                account_id: account_id.clone(),
                network_name: network_config.network_name.clone(),
            },
        ),
        AccountQueryOutcome::NotFound => Ok(()),
        AccountQueryOutcome::RpcError { message } => Err(
            CliError::RpcFailure { message: message.clone() },
        ),
    }
}

/// The three actions that create a direct sub-account of the signer, in
/// their fixed order, addressed to the new account.
pub open spec fn direct_creation_tx(
    t: PrepopulatedTransaction,
    signer: Seq<char>,
    new_account: Seq<char>,
    initial_balance: u128,
    public_key: Seq<char>,
) -> bool {
    &&& t.signer_id@ == signer
    &&& t.receiver_id@ == new_account
    &&& t.actions@.len() == 3
    &&& t.actions@[0]@ == ActionView::CreateAccount
    &&& t.actions@[1]@ == (ActionView::Transfer { deposit: initial_balance })
    &&& t.actions@[2]@ == (ActionView::AddKey {
        public_key: public_key,
        access_key: AccessKey { nonce: 0, permission: AccessKeyPermission::FullAccess },
    })
}

/// The single function call that asks the linkdrop account to create the new
/// account, addressed to the linkdrop account.
pub open spec fn linkdrop_creation_tx(
    t: PrepopulatedTransaction,
    signer: Seq<char>,
    linkdrop: Seq<char>,
    new_account: Seq<char>,
    initial_balance: u128,
    public_key: Seq<char>,
) -> bool {
    &&& t.signer_id@ == signer
    &&& t.receiver_id@ == linkdrop
    &&& t.actions@.len() == 1
    &&& t.actions@[0]@ == (ActionView::FunctionCall {
        method_name: "create_account"@,
        args: json_object_two_of("new_account_id"@, new_account, "new_public_key"@, public_key),
        gas: CREATE_ACCOUNT_FUNCTION_CALL_GAS,
        deposit: initial_balance,
    })
}

/// The whole account-creation policy, as a relation between what is known
/// once the network is selected and the outcome:
/// the signer must exist; a top-level name shorter than the minimum length is
/// refused before any routing; the new account must not exist yet; a direct
/// sub-account of the signer is created directly, anything else goes through
/// the network's linkdrop account when its name permits it.
pub open spec fn create_account_routing_spec(
    signer: Seq<char>,
    new_account: Seq<char>,
    initial_balance: u128,
    public_key: Seq<char>,
    network_name: Seq<char>,
    linkdrop: Option<Seq<char>>,
    signer_query: AccountQueryOutcome,
    new_account_query: AccountQueryOutcome,
    r: Result<PrepopulatedTransaction, CliError>,
) -> bool {
    match signer_query {
        AccountQueryOutcome::RpcError { message } => r matches Err(e) && is_rpc_failure_err(
            e,
            message@,
        ),
        AccountQueryOutcome::NotFound => r matches Err(e) && is_signer_missing_err(
            e,
            signer,
            network_name,
        ),
        AccountQueryOutcome::Exists => if new_account.len()
            < MIN_ALLOWED_TOP_LEVEL_ACCOUNT_LENGTH && spec_is_top_level(new_account) {
            r matches Err(e) && is_too_short_err(e, new_account)
        } else {
            match new_account_query {
                AccountQueryOutcome::RpcError { message } => r matches Err(e)
                    && is_rpc_failure_err(e, message@),
                AccountQueryOutcome::Exists => r matches Err(e) && is_already_exists_err(
                    e,
                    new_account,
                    network_name,
                ),
                AccountQueryOutcome::NotFound => if spec_is_sub_account_of(new_account, signer) {
                    r matches Ok(t) && direct_creation_tx(
                        t,
                        signer,
                        new_account,
                        initial_balance,
                        public_key,
                    )
                } else {
                    match linkdrop {
                        Some(ld) => if spec_is_sub_account_of(new_account, ld)
                            || spec_is_top_level(new_account) {
                            r matches Ok(t) && linkdrop_creation_tx(
                                t,
                                signer,
                                ld,
                                new_account,
                                initial_balance,
                                public_key,
                            )
                        } else {
                            r matches Err(e) && is_create_permission_err(e, signer, new_account)
                        },
                        None => r matches Err(e) && is_linkdrop_missing_err(
                            e,
                            new_account,
                            network_name,
                        ),
                    }
                },
            }
        },
    }
}

/// The view of the network's linkdrop account, if one is configured.
pub open spec fn spec_linkdrop(network_config: &NetworkConfig) -> Option<Seq<char>> {
    match network_config.linkdrop_account_id {
        Some(a) => Some(a@),
        None => None,
    }
}

/// Evaluates the deferred account-creation decision: the body of the network
/// callback that the sign-as stage registers.
pub fn create_account_routing(
    signer_account_id: AccountId,
    account_properties: AccountProperties,
    network_config: &NetworkConfig,
    signer_query: &AccountQueryOutcome,
    new_account_query: &AccountQueryOutcome,
) -> (r: Result<PrepopulatedTransaction, CliError>)
    ensures
        create_account_routing_spec(
            signer_account_id@,
            account_properties.new_account_id@,
            account_properties.initial_balance.yoctonear,
            account_properties.public_key@,
            network_config.network_name@,
            spec_linkdrop(network_config),
            *signer_query,
            *new_account_query,
            r,
        ),
{
    let AccountProperties { new_account_id, initial_balance, public_key } = account_properties;

    if let Err(e) = validate_signer_account_id(network_config, &signer_account_id, signer_query) {
        return Err(e);
    }

    if new_account_id.len() < MIN_ALLOWED_TOP_LEVEL_ACCOUNT_LENGTH && new_account_id.is_top_level()
    {
        return Err(CliError::TopLevelAccountTooShort { account_id: new_account_id });
    }

    if let Err(e) = validate_new_account_id(network_config, &new_account_id, new_account_query) {
        return Err(e);
    }

    if new_account_id.is_sub_account_of(&signer_account_id) {
        let mut actions: Vec<Action> = Vec::new();
        actions.push(Action::CreateAccount);
        actions.push(Action::Transfer { deposit: initial_balance.to_yoctonear() });
        actions.push(
            Action::AddKey {
                public_key,
                access_key: AccessKey {
                    nonce: 0,
                    permission: AccessKeyPermission::FullAccess,
                },
            },
        );
        Ok(PrepopulatedTransaction {
            signer_id: signer_account_id,
            receiver_id: new_account_id,
            actions,
        })
    } else {
        let args = json_object_two(
            "new_account_id",
            new_account_id.as_str(),
            "new_public_key",
            public_key.as_str(),
        );
        match &network_config.linkdrop_account_id {
            Some(linkdrop_account_id) => {
                if new_account_id.is_sub_account_of(linkdrop_account_id)
                    || new_account_id.is_top_level() {
                    let mut actions: Vec<Action> = Vec::new();
                    actions.push(
                        Action::FunctionCall {
                            method_name: String::from_str("create_account"),
                            args,
                            gas: CREATE_ACCOUNT_FUNCTION_CALL_GAS,
                            deposit: initial_balance.to_yoctonear(),
                        },
                    );
                    Ok(PrepopulatedTransaction {
                        signer_id: signer_account_id,
                        receiver_id: linkdrop_account_id.clone(),
                        actions,
                    })
                } else {
                    Err(
                        CliError::CreateAccountPermissionDenied {
                            signer_id: signer_account_id,
                            new_account_id,
                        },
                    )
                }
            },
            None => Err(
                CliError::LinkdropAccountNotConfigured {
                    new_account_id,
                    network_name: network_config.network_name.clone(),
                },
            ),
        }
    }
}

/// A direct sub-account of a valid, existing signer is created directly:
/// the outcome is exactly the three actions `CreateAccount`, `Transfer` of
/// the initial balance and `AddKey` with full access, in that order,
/// addressed to the new account — on every network and whatever the
/// linkdrop configuration.
pub proof fn lemma_direct_sub_account_creation(
    signer: Seq<char>,
    new_account: Seq<char>,
    initial_balance: u128,
    public_key: Seq<char>,
    network_name: Seq<char>,
    linkdrop: Option<Seq<char>>,
    r: Result<PrepopulatedTransaction, CliError>,
)
    requires
        create_account_routing_spec(
            signer,
            new_account,
            initial_balance,
            public_key,
            network_name,
            linkdrop,
            AccountQueryOutcome::Exists,
            AccountQueryOutcome::NotFound,
            r,
        ),
        spec_is_sub_account_of(new_account, signer),
    ensures
        r matches Ok(t) && direct_creation_tx(t, signer, new_account, initial_balance, public_key),
{
    assert(new_account[new_account.len() - signer.len() - 1] == '.');
    assert(!spec_is_top_level(new_account));
}

/// A top-level name shorter than the minimum length is refused with a
/// permission error naming the account, regardless of the network
/// configuration and of whether the name is taken; only the signer check
/// stands before this one.
pub proof fn lemma_short_top_level_name_rejected(
    signer: Seq<char>,
    new_account: Seq<char>,
    initial_balance: u128,
    public_key: Seq<char>,
    network_name: Seq<char>,
    linkdrop: Option<Seq<char>>,
    new_account_query: AccountQueryOutcome,
    r: Result<PrepopulatedTransaction, CliError>,
)
    requires
        create_account_routing_spec(
            signer,
            new_account,
            initial_balance,
            public_key,
            network_name,
            linkdrop,
            AccountQueryOutcome::Exists,
            new_account_query,
            r,
        ),
        new_account.len() < MIN_ALLOWED_TOP_LEVEL_ACCOUNT_LENGTH,
        spec_is_top_level(new_account),
    ensures
        r matches Err(e) && is_too_short_err(e, new_account),
        r matches Err(e) && is_permission_denied(e),
{
}

/// A name that already exists on the selected network is refused with an
/// already-exists error naming the account and the network, and no
/// transaction is produced.
pub proof fn lemma_existing_account_rejected(
    signer: Seq<char>,
    new_account: Seq<char>,
    initial_balance: u128,
    public_key: Seq<char>,
    network_name: Seq<char>,
    linkdrop: Option<Seq<char>>,
    r: Result<PrepopulatedTransaction, CliError>,
)
    requires
        create_account_routing_spec(
            signer,
            new_account,
            initial_balance,
            public_key,
            network_name,
            linkdrop,
            AccountQueryOutcome::Exists,
            AccountQueryOutcome::Exists,
            r,
        ),
        !(new_account.len() < MIN_ALLOWED_TOP_LEVEL_ACCOUNT_LENGTH && spec_is_top_level(
            new_account,
        )),
    ensures
        r matches Err(e) && is_already_exists_err(e, new_account, network_name),
{
}

/// A signer unknown on the selected network fails the run with an error
/// naming the signer and the network, before any routing logic runs:
/// whatever the new account, the queries about it and the linkdrop
/// configuration, the outcome is the same error.
pub proof fn lemma_missing_signer_rejected(
    signer: Seq<char>,
    new_account: Seq<char>,
    initial_balance: u128,
    public_key: Seq<char>,
    network_name: Seq<char>,
    linkdrop: Option<Seq<char>>,
    new_account_query: AccountQueryOutcome,
    r: Result<PrepopulatedTransaction, CliError>,
)
    requires
        create_account_routing_spec(
            signer,
            new_account,
            initial_balance,
            public_key,
            network_name,
            linkdrop,
            AccountQueryOutcome::NotFound,
            new_account_query,
            r,
        ),
    ensures
        r matches Err(e) && is_signer_missing_err(e, signer, network_name),
{
}

} // verus!
