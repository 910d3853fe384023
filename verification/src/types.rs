//! Plain data carried through the pipeline: balances, public keys, network
//! parameters, query outcomes and the error taxonomy.

use vstd::prelude::*;
use crate::account_id::AccountId;

verus! {

/// Only an account this long or longer may be created as a top-level name by
/// an ordinary signer; shorter top-level names are reserved to the registrar.
pub const MIN_ALLOWED_TOP_LEVEL_ACCOUNT_LENGTH: usize = 32;

/// Gas budget attached to the account-creation function call.
pub const CREATE_ACCOUNT_FUNCTION_CALL_GAS: u64 = 30_000_000_000_000;

/// An amount of tokens, kept in the smallest indivisible unit.
#[derive(Debug, Clone, Copy, PartialEq, Eq, Structural)]
pub struct NearBalance {
    pub yoctonear: u128,
}

impl NearBalance {
    pub fn from_yoctonear(yoctonear: u128) -> (r: NearBalance)
        ensures
            r.yoctonear == yoctonear,
    {
        NearBalance { yoctonear }
    }

    pub fn to_yoctonear(&self) -> (r: u128)
        ensures
            r == self.yoctonear,
    {
        self.yoctonear
    }
}

/// A public key, held as its textual representation (`<scheme>:<data>`); the
/// pipeline never looks inside it.
#[derive(Debug, PartialEq, Eq)]
pub struct PublicKey {
    repr: String,
}

impl View for PublicKey {
    type V = Seq<char>;

    closed spec fn view(&self) -> Seq<char> {
        self.repr@
    }
}

impl Clone for PublicKey {
    fn clone(&self) -> (r: Self)
        ensures
            r@ == self@,
    {
        PublicKey { repr: self.repr.clone() }
    }
}

impl PublicKey {
    pub fn from_repr(repr: String) -> (r: PublicKey)
        ensures
            r@ == repr@,
    {
        PublicKey { repr }
    }

    pub fn as_str(&self) -> (r: &str)
        ensures
            r@ == self@,
    {
        self.repr.as_str()
    }

    /// The all-zero key: the placeholder a blank transaction starts from.
    pub fn empty() -> (r: PublicKey)
        ensures
            r@ == "ed25519:11111111111111111111111111111111"@,
    {
        PublicKey { repr: String::from_str("ed25519:11111111111111111111111111111111") }
    }
}

/// Connection parameters of one network, as the network selector resolves
/// them.
#[derive(Debug)]
pub struct NetworkConfig {
    pub network_name: String,
    pub rpc_url: String,
    /// The intermediary contract that creates accounts which are not direct
    /// sub-accounts of the signer; absent on networks without one.
    pub linkdrop_account_id: Option<AccountId>,
}

impl Clone for NetworkConfig {
    fn clone(&self) -> (r: Self)
        ensures
            r.network_name@ == self.network_name@,
            r.rpc_url@ == self.rpc_url@,
            r.linkdrop_account_id is Some <==> self.linkdrop_account_id is Some,
            r.linkdrop_account_id is Some ==> r.linkdrop_account_id.unwrap()@
                == self.linkdrop_account_id.unwrap()@,
    {
        NetworkConfig {
            network_name: self.network_name.clone(),
            rpc_url: self.rpc_url.clone(),
            linkdrop_account_id: match &self.linkdrop_account_id {
                Some(a) => Some(a.clone()),
                None => None,
            },
        }
    }
}

/// The operator's configuration: the catalog of networks a transaction may be
/// sent to.
#[derive(Debug)]
pub struct Config {
    pub network_connections: Vec<NetworkConfig>,
}

/// The context every pipeline starts from: the configuration alone.
#[derive(Debug)]
pub struct GlobalContext(pub Config);

/// What an account-state query against a network returned. `NotFound` is an
/// expected branch, distinguished from every other failure of the transport
/// or the server.
#[derive(Debug, Clone, PartialEq, Eq)]
pub enum AccountQueryOutcome {
    /// The account exists on the queried network.
    Exists,
    /// The network answered: no such account.
    NotFound,
    /// The transport or the server failed in some other way.
    RpcError { message: String },
}

/// Everything that can end a run, with the data needed to report it.
#[derive(Debug, PartialEq, Eq)]
pub enum CliError {
    /// A pre-supplied value failed its field's validity predicate.
    InvalidInput { value: String },
    /// The signer is unknown on the selected network.
    SignerAccountDoesNotExist { signer_id: AccountId, network_name: String },
    /// An account to be created already exists on the selected network.
    AccountAlreadyExists { account_id: AccountId, network_name: String },
    /// A top-level name shorter than the minimum length: only the registrar
    /// may create it.
    TopLevelAccountTooShort { account_id: AccountId },
    /// The signer may not create the requested account on this network.
    CreateAccountPermissionDenied { signer_id: AccountId, new_account_id: AccountId },
    /// The network has no linkdrop account configured, so only direct
    /// sub-accounts of the signer can be created.
    LinkdropAccountNotConfigured { new_account_id: AccountId, network_name: String },
    /// The transport or the server failed; the message is passed on verbatim.
    RpcFailure { message: String },
    /// The external signer refused or failed; the message is passed on
    /// verbatim.
    SigningFailed { message: String },
    /// The action kind cannot be used in the current mode.
    UnsupportedAction,
    /// Fetched contract code that cannot be read as a module; names the
    /// contract account it was fetched for.
    InvalidContractCode { account_id: AccountId, message: String },
    /// A programming defect: a context or chain that violates a construction
    /// invariant.
    ConstructionInvariantViolation,
}

/// The permission-denied class of errors: routing and permission violations.
pub open spec fn is_permission_denied(e: CliError) -> bool {
    ||| e is TopLevelAccountTooShort
    ||| e is CreateAccountPermissionDenied
    ||| e is LinkdropAccountNotConfigured
}

/// `e` reports that `signer` does not exist on the named network.
pub open spec fn is_signer_missing_err(e: CliError, signer: Seq<char>, network: Seq<char>) -> bool {
    &&& e matches CliError::SignerAccountDoesNotExist { signer_id, network_name }
        && signer_id@ == signer && network_name@ == network
}

/// `e` reports that `account` already exists on the named network.
pub open spec fn is_already_exists_err(e: CliError, account: Seq<char>, network: Seq<char>) -> bool {
    &&& e matches CliError::AccountAlreadyExists { account_id, network_name } && account_id@
        == account && network_name@ == network
}

/// `e` reports that `account` is a too-short top-level name.
pub open spec fn is_too_short_err(e: CliError, account: Seq<char>) -> bool {
    &&& e matches CliError::TopLevelAccountTooShort { account_id } && account_id@ == account
}

/// `e` reports that `signer` may not create `new_account`.
pub open spec fn is_create_permission_err(
    e: CliError,
    signer: Seq<char>,
    new_account: Seq<char>,
) -> bool {
    &&& e matches CliError::CreateAccountPermissionDenied { signer_id, new_account_id }
        && signer_id@ == signer && new_account_id@ == new_account
}

/// `e` reports that the named network has no linkdrop account configured.
pub open spec fn is_linkdrop_missing_err(
    e: CliError,
    new_account: Seq<char>,
    network: Seq<char>,
) -> bool {
    &&& e matches CliError::LinkdropAccountNotConfigured { new_account_id, network_name }
        && new_account_id@ == new_account && network_name@ == network
}

/// `e` passes an RPC failure on verbatim.
pub open spec fn is_rpc_failure_err(e: CliError, msg: Seq<char>) -> bool {
    &&& e matches CliError::RpcFailure { message } && message@ == msg
}

} // verus!
