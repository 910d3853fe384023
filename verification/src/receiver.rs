//! The step-by-step transaction chain: a receiver and a singly linked list
//! of actions, terminated by exactly one skip node.
//!
//! Every node is satisfiable either from pre-supplied structured arguments
//! (the `Cli*` shapes, converted by `from_cli`) or interactively; the
//! interactive path builds the same nodes through the constructors below.

use vstd::prelude::*;
use crate::actions::{AccessKey, AccessKeyPermission, Action, ActionView, Transaction};
use crate::types::{CliError, NearBalance, PublicKey};

verus! {

/// The signing step selected at the tail of the chain. Its own stages are
/// outside this pipeline; the chain only carries the choice forward.
#[derive(Debug, Clone, Copy, PartialEq, Eq, Structural)]
pub struct SignTransaction {}

/// The receiver of the transaction under construction, and the first chain
/// node.
#[derive(Debug)]
pub struct Receiver {
    pub receiver_account_id: String,
    pub action: NextAction,
}

/// One position in the chain: add one more action, or stop.
#[derive(Debug)]
pub enum NextAction {
    AddAction(SelectAction),
    Skip(SkipAction),
}

/// The wrapper around the selected action kind.
#[derive(Debug)]
pub struct SelectAction {
    pub transaction_subcommand: ActionSubcommand,
}

/// The closed set of action kinds offered at each position. `CallFunction`
/// and `StakeNEARTokens` are not supported in this mode: selecting one is a
/// construction-time error.
#[derive(Debug)]
pub enum ActionSubcommand {
    TransferNEARTokens(TransferNEARTokensAction),
    CallFunction,
    StakeNEARTokens,
    CreateAccount(CreateAccountAction),
    DeleteAccount(DeleteAccountAction),
    AddAccessKey(AddAccessKeyAction),
    DeleteAccessKey(DeleteAccessKeyAction),
}

/// The terminal node: stop accepting actions and carry the signing choice.
#[derive(Debug)]
pub struct SkipAction {
    pub sign_option: SignTransaction,
}

#[derive(Debug)]
pub struct TransferNEARTokensAction {
    pub amount: NearBalance,
    pub next_action: Box<NextAction>,
}

#[derive(Debug)]
pub struct CreateAccountAction {
    pub next_action: Box<NextAction>,
}

#[derive(Debug)]
pub struct DeleteAccountAction {
    pub beneficiary_id: String,
    pub next_action: Box<NextAction>,
}

#[derive(Debug)]
pub struct AddAccessKeyAction {
    pub public_key: String,
    pub nonce: u64,
    pub permission: AccessKeyPermission,
    pub next_action: Box<NextAction>,
}

#[derive(Debug)]
pub struct DeleteAccessKeyAction {
    pub public_key: String,
    pub next_action: Box<NextAction>,
}

/// No unsupported action kind stands anywhere in the chain.
pub open spec fn spec_supported(n: NextAction) -> bool
    decreases n,
{
    match n {
        NextAction::Skip(_) => true,
        NextAction::AddAction(sa) => match sa.transaction_subcommand {
            ActionSubcommand::TransferNEARTokens(a) => spec_supported(*a.next_action),
            ActionSubcommand::CallFunction => false,
            ActionSubcommand::StakeNEARTokens => false,
            ActionSubcommand::CreateAccount(a) => spec_supported(*a.next_action),
            ActionSubcommand::DeleteAccount(a) => spec_supported(*a.next_action),
            ActionSubcommand::AddAccessKey(a) => spec_supported(*a.next_action),
            ActionSubcommand::DeleteAccessKey(a) => spec_supported(*a.next_action),
        },
    }
}

/// How many terminal nodes the chain holds.
pub open spec fn spec_terminal_count(n: NextAction) -> nat
    decreases n,
{
    match n {
        NextAction::Skip(_) => 1,
        NextAction::AddAction(sa) => match sa.transaction_subcommand {
            ActionSubcommand::TransferNEARTokens(a) => spec_terminal_count(*a.next_action),
            ActionSubcommand::CallFunction => 0,
            ActionSubcommand::StakeNEARTokens => 0,
            ActionSubcommand::CreateAccount(a) => spec_terminal_count(*a.next_action),
            ActionSubcommand::DeleteAccount(a) => spec_terminal_count(*a.next_action),
            ActionSubcommand::AddAccessKey(a) => spec_terminal_count(*a.next_action),
            ActionSubcommand::DeleteAccessKey(a) => spec_terminal_count(*a.next_action),
        },
    }
}

/// Every chain without unsupported nodes is finite (it is an owned recursive
/// value) and carries exactly one terminal node, at its tail.
pub proof fn lemma_chain_has_one_terminal(n: NextAction)
    requires
        spec_supported(n),
    ensures
        spec_terminal_count(n) == 1,
    decreases n,
{
    match n {
        NextAction::Skip(_) => {},
        NextAction::AddAction(sa) => match sa.transaction_subcommand {
            ActionSubcommand::TransferNEARTokens(a) => lemma_chain_has_one_terminal(*a.next_action),
            ActionSubcommand::CallFunction => {},
            ActionSubcommand::StakeNEARTokens => {},
            ActionSubcommand::CreateAccount(a) => lemma_chain_has_one_terminal(*a.next_action),
            ActionSubcommand::DeleteAccount(a) => lemma_chain_has_one_terminal(*a.next_action),
            ActionSubcommand::AddAccessKey(a) => lemma_chain_has_one_terminal(*a.next_action),
            ActionSubcommand::DeleteAccessKey(a) => lemma_chain_has_one_terminal(*a.next_action),
        },
    }
}

/// The actions of the chain, in construction order.
pub open spec fn spec_chain_actions(n: NextAction) -> Seq<ActionView>
    decreases n,
{
    match n {
        NextAction::Skip(_) => Seq::empty(),
        NextAction::AddAction(sa) => match sa.transaction_subcommand {
            ActionSubcommand::TransferNEARTokens(a) => seq![
                ActionView::Transfer { deposit: a.amount.yoctonear },
            ] + spec_chain_actions(*a.next_action),
            ActionSubcommand::CallFunction => Seq::empty(),
            ActionSubcommand::StakeNEARTokens => Seq::empty(),
            ActionSubcommand::CreateAccount(a) => seq![ActionView::CreateAccount]
                + spec_chain_actions(*a.next_action),
            ActionSubcommand::DeleteAccount(a) => seq![
                ActionView::DeleteAccount { beneficiary_id: a.beneficiary_id@ },
            ] + spec_chain_actions(*a.next_action),
            ActionSubcommand::AddAccessKey(a) => seq![
                ActionView::AddKey {
                    public_key: a.public_key@,
                    access_key: AccessKey { nonce: a.nonce, permission: a.permission },
                },
            ] + spec_chain_actions(*a.next_action),
            ActionSubcommand::DeleteAccessKey(a) => seq![
                ActionView::DeleteKey { public_key: a.public_key@ },
            ] + spec_chain_actions(*a.next_action),
        },
    }
}

/// The signing choice at the tail of the chain.
pub open spec fn spec_chain_sign_option(n: NextAction) -> Option<SignTransaction>
    decreases n,
{
    match n {
        NextAction::Skip(sk) => Some(sk.sign_option),
        NextAction::AddAction(sa) => match sa.transaction_subcommand {
            ActionSubcommand::TransferNEARTokens(a) => spec_chain_sign_option(*a.next_action),
            ActionSubcommand::CallFunction => None,
            ActionSubcommand::StakeNEARTokens => None,
            ActionSubcommand::CreateAccount(a) => spec_chain_sign_option(*a.next_action),
            ActionSubcommand::DeleteAccount(a) => spec_chain_sign_option(*a.next_action),
            ActionSubcommand::AddAccessKey(a) => spec_chain_sign_option(*a.next_action),
            ActionSubcommand::DeleteAccessKey(a) => spec_chain_sign_option(*a.next_action),
        },
    }
}

/// The views of a transaction's actions.
pub open spec fn spec_action_views(actions: Seq<Action>) -> Seq<ActionView> {
    actions.map_values(|a: Action| a@)
}

/// The fields of `t` that the chain never touches are those of `start`.
pub open spec fn spec_header_unchanged(t: Transaction, start: Transaction) -> bool {
    &&& t.signer_id == start.signer_id
    &&& t.public_key == start.public_key
    &&& t.nonce == start.nonce
    &&& t.block_hash == start.block_hash
}

impl NextAction {
    /// Walks the rest of the chain, appending each node's action; fails on
    /// an unsupported node and otherwise ends at the terminal node, handing
    /// back the accumulated transaction and the signing choice.
    pub fn process(self, prepopulated_unsigned_transaction: Transaction) -> (r: Result<
        (Transaction, SignTransaction),
        CliError,
    >)
        ensures
            r is Ok <==> spec_supported(self),
            !spec_supported(self) ==> r == Err::<(Transaction, SignTransaction), CliError>(
                CliError::UnsupportedAction,
            ),
            r matches Ok((t, sign)) ==> {
                &&& spec_header_unchanged(t, prepopulated_unsigned_transaction)
                &&& t.receiver_id == prepopulated_unsigned_transaction.receiver_id
                &&& spec_action_views(t.actions@) == spec_action_views(
                    prepopulated_unsigned_transaction.actions@,
                ) + spec_chain_actions(self)
                &&& Some(sign) == spec_chain_sign_option(self)
            },
        decreases self,
    {
        match self {
            NextAction::AddAction(select_action) => select_action.process(
                prepopulated_unsigned_transaction,
            ),
            NextAction::Skip(skip_action) => skip_action.process(prepopulated_unsigned_transaction),
        }
    }
}

impl SelectAction {
    /// Dispatches on the selected action kind.
    pub fn process(self, prepopulated_unsigned_transaction: Transaction) -> (r: Result<
        (Transaction, SignTransaction),
        CliError,
    >)
        ensures
            r is Ok <==> spec_supported(NextAction::AddAction(self)),
            !spec_supported(NextAction::AddAction(self)) ==> r == Err::<
                (Transaction, SignTransaction),
                CliError,
            >(CliError::UnsupportedAction),
            r matches Ok((t, sign)) ==> {
                &&& spec_header_unchanged(t, prepopulated_unsigned_transaction)
                &&& t.receiver_id == prepopulated_unsigned_transaction.receiver_id
                &&& spec_action_views(t.actions@) == spec_action_views(
                    prepopulated_unsigned_transaction.actions@,
                ) + spec_chain_actions(NextAction::AddAction(self))
                &&& Some(sign) == spec_chain_sign_option(NextAction::AddAction(self))
            },
        decreases self,
    {
        self.transaction_subcommand.process(prepopulated_unsigned_transaction)
    }
}

impl ActionSubcommand {
    /// Appends this node's action to the transaction and walks on; selecting
    /// an unsupported kind fails here, at construction time.
    pub fn process(self, prepopulated_unsigned_transaction: Transaction) -> (r: Result<
        (Transaction, SignTransaction),
        CliError,
    >)
        ensures
            r is Ok <==> spec_supported(
                NextAction::AddAction(SelectAction { transaction_subcommand: self }),
            ),
            !spec_supported(NextAction::AddAction(SelectAction { transaction_subcommand: self }))
                ==> r == Err::<(Transaction, SignTransaction), CliError>(
                CliError::UnsupportedAction,
            ),
            r matches Ok((t, sign)) ==> {
                &&& spec_header_unchanged(t, prepopulated_unsigned_transaction)
                &&& t.receiver_id == prepopulated_unsigned_transaction.receiver_id
                &&& spec_action_views(t.actions@) == spec_action_views(
                    prepopulated_unsigned_transaction.actions@,
                ) + spec_chain_actions(
                    NextAction::AddAction(SelectAction { transaction_subcommand: self }),
                )
                &&& Some(sign) == spec_chain_sign_option(
                    NextAction::AddAction(SelectAction { transaction_subcommand: self }),
                )
            },
        decreases self,
    {
        let ghost tx0 = prepopulated_unsigned_transaction;
        let mut transaction = prepopulated_unsigned_transaction;
        match self {
            ActionSubcommand::TransferNEARTokens(args_transfer) => {
                let action = Action::Transfer { deposit: args_transfer.amount.to_yoctonear() };
                transaction.actions.push(action);
                proof {
                    lemma_action_views_push(tx0.actions@, transaction.actions@.last());
                    assert(spec_action_views(transaction.actions@) =~= spec_action_views(
                        tx0.actions@,
                    ) + seq![ActionView::Transfer { deposit: args_transfer.amount.yoctonear }]);
                }
                let r = args_transfer.next_action.process(transaction);
                proof {
                    lemma_chain_prepend(
                        spec_action_views(tx0.actions@),
                        seq![ActionView::Transfer { deposit: args_transfer.amount.yoctonear }],
                        spec_chain_actions(*args_transfer.next_action),
                    );
                }
                r
            },
            ActionSubcommand::CallFunction => Err(CliError::UnsupportedAction),
            ActionSubcommand::StakeNEARTokens => Err(CliError::UnsupportedAction),
            ActionSubcommand::CreateAccount(args_create_account) => {
                transaction.actions.push(Action::CreateAccount);
                proof {
                    lemma_action_views_push(tx0.actions@, transaction.actions@.last());
                    assert(spec_action_views(transaction.actions@) =~= spec_action_views(
                        tx0.actions@,
                    ) + seq![ActionView::CreateAccount]);
                }
                let r = args_create_account.next_action.process(transaction);
                proof {
                    lemma_chain_prepend(
                        spec_action_views(tx0.actions@),
                        seq![ActionView::CreateAccount],
                        spec_chain_actions(*args_create_account.next_action),
                    );
                }
                r
            },
            ActionSubcommand::DeleteAccount(args_delete_account) => {
                let ghost b = args_delete_account.beneficiary_id@;
                let action = Action::DeleteAccount {
                    beneficiary_id: args_delete_account.beneficiary_id,
                };
                transaction.actions.push(action);
                proof {
                    lemma_action_views_push(tx0.actions@, transaction.actions@.last());
                    assert(spec_action_views(transaction.actions@) =~= spec_action_views(
                        tx0.actions@,
                    ) + seq![ActionView::DeleteAccount { beneficiary_id: b }]);
                }
                let r = args_delete_account.next_action.process(transaction);
                proof {
                    lemma_chain_prepend(
                        spec_action_views(tx0.actions@),
                        seq![ActionView::DeleteAccount { beneficiary_id: b }],
                        spec_chain_actions(*args_delete_account.next_action),
                    );
                }
                r
            },
            ActionSubcommand::AddAccessKey(args_add_access_key) => {
                let ghost pk = args_add_access_key.public_key@;
                let ghost ak = AccessKey {
                    nonce: args_add_access_key.nonce,
                    permission: args_add_access_key.permission,
                };
                let action = Action::AddKey {
                    public_key: PublicKey::from_repr(args_add_access_key.public_key),
                    access_key: AccessKey {
                        nonce: args_add_access_key.nonce,
                        permission: args_add_access_key.permission,
                    },
                };
                transaction.actions.push(action);
                proof {
                    lemma_action_views_push(tx0.actions@, transaction.actions@.last());
                    assert(spec_action_views(transaction.actions@) =~= spec_action_views(
                        tx0.actions@,
                    ) + seq![ActionView::AddKey { public_key: pk, access_key: ak }]);
                }
                let r = args_add_access_key.next_action.process(transaction);
                proof {
                    lemma_chain_prepend(
                        spec_action_views(tx0.actions@),
                        seq![ActionView::AddKey { public_key: pk, access_key: ak }],
                        spec_chain_actions(*args_add_access_key.next_action),
                    );
                }
                r
            },
            ActionSubcommand::DeleteAccessKey(args_delete_access_key) => {
                let ghost pk = args_delete_access_key.public_key@;
                let action = Action::DeleteKey {
                    public_key: PublicKey::from_repr(args_delete_access_key.public_key),
                };
                transaction.actions.push(action);
                proof {
                    lemma_action_views_push(tx0.actions@, transaction.actions@.last());
                    assert(spec_action_views(transaction.actions@) =~= spec_action_views(
                        tx0.actions@,
                    ) + seq![ActionView::DeleteKey { public_key: pk }]);
                }
                let r = args_delete_access_key.next_action.process(transaction);
                proof {
                    lemma_chain_prepend(
                        spec_action_views(tx0.actions@),
                        seq![ActionView::DeleteKey { public_key: pk }],
                        spec_chain_actions(*args_delete_access_key.next_action),
                    );
                }
                r
            },
        }
    }
}

/// Pushing one action extends the views by that action's view.
proof fn lemma_action_views_push(s: Seq<Action>, a: Action)
    ensures
        spec_action_views(s.push(a)) =~= spec_action_views(s) + seq![a@],
{
}

/// Appending is associative over the accumulated action views.
proof fn lemma_chain_prepend(base: Seq<ActionView>, own: Seq<ActionView>, rest: Seq<ActionView>)
    ensures
        (base + own) + rest =~= base + (own + rest),
{
}

impl SkipAction {
    /// The terminal node: nothing more is appended; the transaction and the
    /// signing choice go to the signing stages.
    pub fn process(self, prepopulated_unsigned_transaction: Transaction) -> (r: Result<
        (Transaction, SignTransaction),
        CliError,
    >)
        ensures
            r is Ok,
            r matches Ok((t, sign)) ==> t == prepopulated_unsigned_transaction && sign
                == self.sign_option,
    {
        Ok((prepopulated_unsigned_transaction, self.sign_option))
    }
}

impl Receiver {
    /// Sets the receiver on the transaction under construction and walks the
    /// chain.
    pub fn process(self, prepopulated_unsigned_transaction: Transaction) -> (r: Result<
        (Transaction, SignTransaction),
        CliError,
    >)
        ensures
            r is Ok <==> spec_supported(self.action),
            !spec_supported(self.action) ==> r == Err::<(Transaction, SignTransaction), CliError>(
                CliError::UnsupportedAction,
            ),
            r matches Ok((t, sign)) ==> {
                &&& spec_header_unchanged(t, prepopulated_unsigned_transaction)
                &&& t.receiver_id == self.receiver_account_id
                &&& spec_action_views(t.actions@) == spec_action_views(
                    prepopulated_unsigned_transaction.actions@,
                ) + spec_chain_actions(self.action)
                &&& Some(sign) == spec_chain_sign_option(self.action)
            },
    {
        let Transaction { signer_id, public_key, nonce, receiver_id: _, block_hash, actions } =
            prepopulated_unsigned_transaction;
        let unsigned_transaction = Transaction {
            signer_id,
            public_key,
            nonce,
            receiver_id: self.receiver_account_id,
            block_hash,
            actions,
        };
        self.action.process(unsigned_transaction)
    }
}


/// The chain as structured arguments: every field optional, to be satisfied
/// either here or by a prompt.
#[derive(Debug)]
pub struct CliReceiver {
    pub receiver_account_id: Option<String>,
    pub action: Option<CliNextAction>,
}

#[derive(Debug)]
pub enum CliNextAction {
    AddAction(CliSelectAction),
    Skip(CliSkipAction),
}

#[derive(Debug)]
pub struct CliSelectAction {
    pub transaction_subcommand: Option<CliActionSubcommand>,
}

#[derive(Debug)]
pub enum CliActionSubcommand {
    TransferNEARTokens(CliTransferNEARTokensAction),
    CallFunction,
    StakeNEARTokens,
    CreateAccount(CliCreateAccountAction),
    DeleteAccount(CliDeleteAccountAction),
    AddAccessKey(CliAddAccessKeyAction),
    DeleteAccessKey(CliDeleteAccessKeyAction),
}

#[derive(Debug)]
pub enum CliSkipNextAction {
    Skip(CliSkipAction),
}

#[derive(Debug)]
pub struct CliSkipAction {
    pub sign_option: Option<CliSignTransaction>,
}

#[derive(Debug, Clone, Copy, PartialEq, Eq, Structural)]
pub struct CliSignTransaction {}

#[derive(Debug)]
pub struct CliTransferNEARTokensAction {
    pub amount: Option<NearBalance>,
    pub next_action: Option<Box<CliNextAction>>,
}

#[derive(Debug)]
pub struct CliCreateAccountAction {
    pub next_action: Option<Box<CliNextAction>>,
}

#[derive(Debug)]
pub struct CliDeleteAccountAction {
    pub beneficiary_id: Option<String>,
    pub next_action: Option<Box<CliNextAction>>,
}

#[derive(Debug)]
pub struct CliAddAccessKeyAction {
    pub public_key: Option<String>,
    pub nonce: Option<u64>,
    pub permission: Option<AccessKeyPermission>,
    pub next_action: Option<Box<CliNextAction>>,
}

#[derive(Debug)]
pub struct CliDeleteAccessKeyAction {
    pub public_key: Option<String>,
    pub next_action: Option<Box<CliNextAction>>,
}

/// What converting structured arguments finds first along the chain:
/// everything supplied (`COMPLETE`), a missing field that a prompt must fill
/// (`NEEDS_PROMPT`), or an unsupported action kind (`UNSUPPORTED`).
pub open spec fn spec_cli_next_status(c: CliNextAction) -> u32
    decreases c,
{
    match c {
        CliNextAction::Skip(sk) => if sk.sign_option is Some {
            COMPLETE
        } else {
            NEEDS_PROMPT
        },
        CliNextAction::AddAction(sa) => match sa.transaction_subcommand {
            Some(sub) => spec_cli_sub_status(sub),
            None => NEEDS_PROMPT,
        },
    }
}

pub open spec fn spec_cli_sub_status(c: CliActionSubcommand) -> u32
    decreases c,
{
    match c {
        CliActionSubcommand::CallFunction => UNSUPPORTED,
        CliActionSubcommand::StakeNEARTokens => UNSUPPORTED,
        CliActionSubcommand::TransferNEARTokens(a) => if a.amount is None {
            NEEDS_PROMPT
        } else {
            spec_cli_rest_status(a.next_action)
        },
        CliActionSubcommand::CreateAccount(a) => spec_cli_rest_status(a.next_action),
        CliActionSubcommand::DeleteAccount(a) => if a.beneficiary_id is None {
            NEEDS_PROMPT
        } else {
            spec_cli_rest_status(a.next_action)
        },
        CliActionSubcommand::AddAccessKey(a) => if a.public_key is None || a.nonce is None
            || a.permission is None {
            NEEDS_PROMPT
        } else {
            spec_cli_rest_status(a.next_action)
        },
        CliActionSubcommand::DeleteAccessKey(a) => if a.public_key is None {
            NEEDS_PROMPT
        } else {
            spec_cli_rest_status(a.next_action)
        },
    }
}

pub open spec fn spec_cli_rest_status(c: Option<Box<CliNextAction>>) -> u32
    decreases c,
{
    match c {
        Some(n) => spec_cli_next_status(*n),
        None => NEEDS_PROMPT,
    }
}

pub const COMPLETE: u32 = 0;

pub const NEEDS_PROMPT: u32 = 1;

pub const UNSUPPORTED: u32 = 2;

/// The chain `n` is exactly what the structured arguments `c` describe.
pub open spec fn spec_cli_next_matches(c: CliNextAction, n: NextAction) -> bool
    decreases c,
{
    match (c, n) {
        (CliNextAction::Skip(csk), NextAction::Skip(_)) => csk.sign_option is Some,
        (CliNextAction::AddAction(csa), NextAction::AddAction(sa)) => match csa
            .transaction_subcommand {
            Some(csub) => spec_cli_sub_matches(csub, sa.transaction_subcommand),
            None => false,
        },
        _ => false,
    }
}

pub open spec fn spec_cli_sub_matches(c: CliActionSubcommand, s: ActionSubcommand) -> bool
    decreases c,
{
    match (c, s) {
        (
            CliActionSubcommand::TransferNEARTokens(ca),
            ActionSubcommand::TransferNEARTokens(a),
        ) => ca.amount == Some(a.amount) && spec_cli_rest_matches(ca.next_action, *a.next_action),
        (CliActionSubcommand::CreateAccount(ca), ActionSubcommand::CreateAccount(a)) =>
            spec_cli_rest_matches(ca.next_action, *a.next_action),
        (CliActionSubcommand::DeleteAccount(ca), ActionSubcommand::DeleteAccount(a)) => ca
            .beneficiary_id == Some(a.beneficiary_id) && spec_cli_rest_matches(
            ca.next_action,
            *a.next_action,
        ),
        (CliActionSubcommand::AddAccessKey(ca), ActionSubcommand::AddAccessKey(a)) => ca.public_key
            == Some(a.public_key) && ca.nonce == Some(a.nonce) && ca.permission == Some(
            a.permission,
        ) && spec_cli_rest_matches(ca.next_action, *a.next_action),
        (CliActionSubcommand::DeleteAccessKey(ca), ActionSubcommand::DeleteAccessKey(a)) => ca
            .public_key == Some(a.public_key) && spec_cli_rest_matches(
            ca.next_action,
            *a.next_action,
        ),
        _ => false,
    }
}

pub open spec fn spec_cli_rest_matches(c: Option<Box<CliNextAction>>, n: NextAction) -> bool
    decreases c,
{
    match c {
        Some(cn) => spec_cli_next_matches(*cn, n),
        None => false,
    }
}

impl SignTransaction {
    /// The signing choice is its own subcommand; here it only has to exist.
    pub fn from_cli(item: CliSignTransaction) -> (r: SignTransaction) {
        SignTransaction {  }
    }
}

impl SkipAction {
    /// Converts the terminal node, when its signing choice is supplied.
    pub fn from_cli(item: CliSkipAction) -> (r: Option<SkipAction>)
        ensures
            r is Some <==> item.sign_option is Some,
    {
        match item.sign_option {
            Some(cli_sign_transaction) => Some(
                SkipAction { sign_option: SignTransaction::from_cli(cli_sign_transaction) },
            ),
            None => None,
        }
    }
}

impl NextAction {
    /// Converts the rest of the chain from structured arguments. `Ok(None)`
    /// asks the caller to resolve the first missing field interactively;
    /// an unsupported action kind is a construction-time error.
    pub fn from_cli(item: CliNextAction) -> (r: Result<Option<NextAction>, CliError>)
        ensures
            spec_cli_next_status(item) == COMPLETE <==> (r matches Ok(o) && o is Some),
            spec_cli_next_status(item) == NEEDS_PROMPT <==> (r matches Ok(o) && o is None),
            spec_cli_next_status(item) == UNSUPPORTED <==> r == Err::<
                Option<NextAction>,
                CliError,
            >(CliError::UnsupportedAction),
            r is Err ==> r == Err::<Option<NextAction>, CliError>(CliError::UnsupportedAction),
            r matches Ok(Some(n)) ==> spec_cli_next_matches(item, n) && spec_supported(n),
        decreases item,
    {
        match item {
            CliNextAction::AddAction(cli_select_action) => match SelectAction::from_cli(
                cli_select_action,
            ) {
                Ok(Some(select_action)) => Ok(Some(NextAction::AddAction(select_action))),
                Ok(None) => Ok(None),
                Err(e) => Err(e),
            },
            CliNextAction::Skip(cli_skip_action) => match SkipAction::from_cli(cli_skip_action) {
                Some(skip_action) => Ok(Some(NextAction::Skip(skip_action))),
                None => Ok(None),
            },
        }
    }

    /// Converts the finalize-only argument shape.
    pub fn from_cli_skip_next_action(item: CliSkipNextAction) -> (r: Option<NextAction>)
        ensures
            match item {
                CliSkipNextAction::Skip(sk) => {
                    &&& r is Some <==> sk.sign_option is Some
                    &&& r matches Some(n) ==> n matches NextAction::Skip(_)
                },
            },
    {
        match item {
            CliSkipNextAction::Skip(cli_skip_action) => match SkipAction::from_cli(
                cli_skip_action,
            ) {
                Some(skip_action) => Some(NextAction::Skip(skip_action)),
                None => None,
            },
        }
    }
}

impl SelectAction {
    /// Converts one chain position, when the action kind is supplied.
    pub fn from_cli(item: CliSelectAction) -> (r: Result<Option<SelectAction>, CliError>)
        ensures
            ({
                let status = match item.transaction_subcommand {
                    Some(sub) => spec_cli_sub_status(sub),
                    None => NEEDS_PROMPT,
                };
                &&& status == COMPLETE <==> (r matches Ok(o) && o is Some)
                &&& status == NEEDS_PROMPT <==> (r matches Ok(o) && o is None)
                &&& status == UNSUPPORTED <==> r == Err::<Option<SelectAction>, CliError>(
                    CliError::UnsupportedAction,
                )
                &&& r is Err ==> r == Err::<Option<SelectAction>, CliError>(
                    CliError::UnsupportedAction,
                )
            }),
            r matches Ok(Some(sa)) ==> (item.transaction_subcommand matches Some(csub)
                && spec_cli_sub_matches(csub, sa.transaction_subcommand) && spec_supported(
                NextAction::AddAction(sa),
            )),
        decreases item,
    {
        match item.transaction_subcommand {
            Some(cli_transaction_subcommand) => match ActionSubcommand::from_cli(
                cli_transaction_subcommand,
            ) {
                Ok(Some(transaction_subcommand)) => Ok(
                    Some(SelectAction { transaction_subcommand }),
                ),
                Ok(None) => Ok(None),
                Err(e) => Err(e),
            },
            None => Ok(None),
        }
    }
}

impl ActionSubcommand {
    /// Converts the selected action kind and its fields; `CallFunction` and
    /// `StakeNEARTokens` cannot be selected in this mode.
    pub fn from_cli(item: CliActionSubcommand) -> (r: Result<Option<ActionSubcommand>, CliError>)
        ensures
            spec_cli_sub_status(item) == COMPLETE <==> (r matches Ok(o) && o is Some),
            spec_cli_sub_status(item) == NEEDS_PROMPT <==> (r matches Ok(o) && o is None),
            spec_cli_sub_status(item) == UNSUPPORTED <==> r == Err::<
                Option<ActionSubcommand>,
                CliError,
            >(CliError::UnsupportedAction),
            r is Err ==> r == Err::<Option<ActionSubcommand>, CliError>(
                CliError::UnsupportedAction,
            ),
            r matches Ok(Some(s)) ==> spec_cli_sub_matches(item, s) && spec_supported(
                NextAction::AddAction(SelectAction { transaction_subcommand: s }),
            ),
        decreases item,
    {
        match item {
            CliActionSubcommand::CallFunction => Err(CliError::UnsupportedAction),
            CliActionSubcommand::StakeNEARTokens => Err(CliError::UnsupportedAction),
            CliActionSubcommand::TransferNEARTokens(ca) => match ca.amount {
                None => Ok(None),
                Some(amount) => match Self::rest_from_cli(ca.next_action) {
                    Ok(Some(next_action)) => Ok(
                        Some(
                            ActionSubcommand::TransferNEARTokens(
                                TransferNEARTokensAction { amount, next_action },
                            ),
                        ),
                    ),
                    Ok(None) => Ok(None),
                    Err(e) => Err(e),
                },
            },
            CliActionSubcommand::CreateAccount(ca) => match Self::rest_from_cli(ca.next_action) {
                Ok(Some(next_action)) => Ok(
                    Some(ActionSubcommand::CreateAccount(CreateAccountAction { next_action })),
                ),
                Ok(None) => Ok(None),
                Err(e) => Err(e),
            },
            CliActionSubcommand::DeleteAccount(ca) => match ca.beneficiary_id {
                None => Ok(None),
                Some(beneficiary_id) => match Self::rest_from_cli(ca.next_action) {
                    Ok(Some(next_action)) => Ok(
                        Some(
                            ActionSubcommand::DeleteAccount(
                                DeleteAccountAction { beneficiary_id, next_action },
                            ),
                        ),
                    ),
                    Ok(None) => Ok(None),
                    Err(e) => Err(e),
                },
            },
            CliActionSubcommand::AddAccessKey(ca) => {
                if ca.public_key.is_none() || ca.nonce.is_none() || ca.permission.is_none() {
                    return Ok(None);
                }
                let public_key = ca.public_key.unwrap();
                let nonce = ca.nonce.unwrap();
                let permission = ca.permission.unwrap();
                match Self::rest_from_cli(ca.next_action) {
                    Ok(Some(next_action)) => Ok(
                        Some(
                            ActionSubcommand::AddAccessKey(
                                AddAccessKeyAction { public_key, nonce, permission, next_action },
                            ),
                        ),
                    ),
                    Ok(None) => Ok(None),
                    Err(e) => Err(e),
                }
            },
            CliActionSubcommand::DeleteAccessKey(ca) => match ca.public_key {
                None => Ok(None),
                Some(public_key) => match Self::rest_from_cli(ca.next_action) {
                    Ok(Some(next_action)) => Ok(
                        Some(
                            ActionSubcommand::DeleteAccessKey(
                                DeleteAccessKeyAction { public_key, next_action },
                            ),
                        ),
                    ),
                    Ok(None) => Ok(None),
                    Err(e) => Err(e),
                },
            },
        }
    }

    /// Converts the successor of a node, which must be supplied too.
    fn rest_from_cli(rest: Option<Box<CliNextAction>>) -> (r: Result<
        Option<Box<NextAction>>,
        CliError,
    >)
        ensures
            spec_cli_rest_status(rest) == COMPLETE <==> (r matches Ok(o) && o is Some),
            spec_cli_rest_status(rest) == NEEDS_PROMPT <==> (r matches Ok(o) && o is None),
            spec_cli_rest_status(rest) == UNSUPPORTED <==> r == Err::<
                Option<Box<NextAction>>,
                CliError,
            >(CliError::UnsupportedAction),
            r is Err ==> r == Err::<Option<Box<NextAction>>, CliError>(
                CliError::UnsupportedAction,
            ),
            r matches Ok(Some(n)) ==> spec_cli_rest_matches(rest, *n) && spec_supported(*n),
        decreases rest,
    {
        match rest {
            None => Ok(None),
            Some(cli_next_action) => match NextAction::from_cli(*cli_next_action) {
                Ok(Some(next_action)) => Ok(Some(Box::new(next_action))),
                Ok(None) => Ok(None),
                Err(e) => Err(e),
            },
        }
    }
}

impl Receiver {
    /// Converts the whole chain entry, when the receiver itself is supplied.
    pub fn from_cli(item: CliReceiver) -> (r: Result<Option<Receiver>, CliError>)
        ensures
            r matches Ok(Some(receiver)) ==> {
                &&& item.receiver_account_id == Some(receiver.receiver_account_id)
                &&& item.action matches Some(ca) && spec_cli_next_matches(ca, receiver.action)
                &&& spec_supported(receiver.action)
            },
            (r matches Ok(o) && o is Some) <==> (item.receiver_account_id is Some && (
            item.action matches Some(ca) && spec_cli_next_status(ca) == COMPLETE)),
            r is Err <==> (item.receiver_account_id is Some && (item.action matches Some(ca)
                && spec_cli_next_status(ca) == UNSUPPORTED)),
            r is Err ==> r == Err::<Option<Receiver>, CliError>(CliError::UnsupportedAction),
    {
        match item.receiver_account_id {
            None => Ok(None),
            Some(receiver_account_id) => match item.action {
                None => Ok(None),
                Some(cli_next_action) => match NextAction::from_cli(cli_next_action) {
                    Ok(Some(action)) => Ok(Some(Receiver { receiver_account_id, action })),
                    Ok(None) => Ok(None),
                    Err(e) => Err(e),
                },
            },
        }
    }
}

/// The action kinds in the order the interactive menu offers them.
#[derive(Debug, Clone, Copy, PartialEq, Eq, Structural)]
pub enum ActionSubcommandKind {
    TransferNEARTokens,
    CallFunction,
    StakeNEARTokens,
    CreateAccount,
    DeleteAccount,
    AddAccessKey,
    DeleteAccessKey,
}

/// The menu decision of the action-selection prompt: which kind the chosen
/// index stands for.
pub fn action_subcommand_kind_at(index: usize) -> (r: Option<ActionSubcommandKind>)
    ensures
        index == 0 ==> r == Some(ActionSubcommandKind::TransferNEARTokens),
        index == 1 ==> r == Some(ActionSubcommandKind::CallFunction),
        index == 2 ==> r == Some(ActionSubcommandKind::StakeNEARTokens),
        index == 3 ==> r == Some(ActionSubcommandKind::CreateAccount),
        index == 4 ==> r == Some(ActionSubcommandKind::DeleteAccount),
        index == 5 ==> r == Some(ActionSubcommandKind::AddAccessKey),
        index == 6 ==> r == Some(ActionSubcommandKind::DeleteAccessKey),
        index > 6 ==> r is None,
{
    if index == 0 {
        Some(ActionSubcommandKind::TransferNEARTokens)
    } else if index == 1 {
        Some(ActionSubcommandKind::CallFunction)
    } else if index == 2 {
        Some(ActionSubcommandKind::StakeNEARTokens)
    } else if index == 3 {
        Some(ActionSubcommandKind::CreateAccount)
    } else if index == 4 {
        Some(ActionSubcommandKind::DeleteAccount)
    } else if index == 5 {
        Some(ActionSubcommandKind::AddAccessKey)
    } else if index == 6 {
        Some(ActionSubcommandKind::DeleteAccessKey)
    } else {
        None
    }
}

/// The menu decision of the continue-or-finish prompt: index zero adds an
/// action, index one finishes the chain.
pub fn next_action_keeps_adding(index: usize) -> (r: bool)
    ensures
        r <==> index == 0,
{
    index == 0
}

} // verus!
