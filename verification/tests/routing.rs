use near_cli::account_id::AccountId;
use near_cli::actions::{AccessKeyPermission, Action};
use near_cli::create_account::{create_account_routing, AccountProperties};
use near_cli::types::{
    AccountQueryOutcome, CliError, NearBalance, NetworkConfig, PublicKey,
    CREATE_ACCOUNT_FUNCTION_CALL_GAS,
};

const ONE_TOKEN: u128 = 1_000_000_000_000_000_000_000_000;
const KEY: &str = "ed25519:6E8sCci9badyRkXb3JoRpBj5p8C6Tw41ELDZoiihKEtp";

fn acct(s: &str) -> AccountId {
    AccountId::parse(s.to_string()).unwrap()
}

fn testnet() -> NetworkConfig {
    NetworkConfig {
        network_name: "testnet".to_string(),
        rpc_url: "https://rpc.testnet.near.org".to_string(),
        linkdrop_account_id: Some(acct("testnet")),
    }
}

fn props(new_account: &str, balance: u128) -> AccountProperties {
    AccountProperties {
        new_account_id: acct(new_account),
        initial_balance: NearBalance::from_yoctonear(balance),
        public_key: PublicKey::from_repr(KEY.to_string()),
    }
}

#[test]
fn direct_sub_account_gets_three_actions() {
    let r = create_account_routing(
        acct("alice.testnet"),
        props("bob.alice.testnet", ONE_TOKEN),
        &testnet(),
        &AccountQueryOutcome::Exists,
        &AccountQueryOutcome::NotFound,
    )
    .unwrap();
    assert_eq!(r.signer_id, acct("alice.testnet"));
    assert_eq!(r.receiver_id, acct("bob.alice.testnet"));
    assert_eq!(r.actions.len(), 3);
    assert!(matches!(r.actions[0], Action::CreateAccount));
    match &r.actions[1] {
        Action::Transfer { deposit } => assert_eq!(*deposit, ONE_TOKEN),
        other => panic!("expected a transfer, got {:?}", other),
    }
    match &r.actions[2] {
        Action::AddKey {
            public_key,
            access_key,
        } => {
            assert_eq!(public_key, &PublicKey::from_repr(KEY.to_string()));
            assert_eq!(access_key.nonce, 0);
            assert_eq!(access_key.permission, AccessKeyPermission::FullAccess);
        }
        other => panic!("expected an added key, got {:?}", other),
    }
}

#[test]
fn short_top_level_name_is_rejected_before_routing() {
    // eight characters, no dot: a top-level name below the threshold
    let r = create_account_routing(
        acct("alice.testnet"),
        props("newname1", ONE_TOKEN),
        &testnet(),
        &AccountQueryOutcome::Exists,
        &AccountQueryOutcome::NotFound,
    );
    assert_eq!(
        r.unwrap_err(),
        CliError::TopLevelAccountTooShort {
            account_id: acct("newname1")
        }
    );
}

#[test]
fn short_top_level_name_is_rejected_on_every_network() {
    let no_linkdrop = NetworkConfig {
        network_name: "mainnet".to_string(),
        rpc_url: "https://rpc.mainnet.near.org".to_string(),
        linkdrop_account_id: None,
    };
    let r = create_account_routing(
        acct("alice.near"),
        props("newname1", ONE_TOKEN),
        &no_linkdrop,
        &AccountQueryOutcome::Exists,
        &AccountQueryOutcome::NotFound,
    );
    assert!(matches!(
        r.unwrap_err(),
        CliError::TopLevelAccountTooShort { .. }
    ));
}

#[test]
fn existing_account_is_rejected() {
    let r = create_account_routing(
        acct("alice.testnet"),
        props("bob.alice.testnet", ONE_TOKEN),
        &testnet(),
        &AccountQueryOutcome::Exists,
        &AccountQueryOutcome::Exists,
    );
    assert_eq!(
        r.unwrap_err(),
        CliError::AccountAlreadyExists {
            account_id: acct("bob.alice.testnet"),
            network_name: "testnet".to_string(),
        }
    );
}

#[test]
fn missing_signer_is_rejected_before_routing() {
    let r = create_account_routing(
        acct("alice.testnet"),
        props("bob.alice.testnet", ONE_TOKEN),
        &testnet(),
        &AccountQueryOutcome::NotFound,
        &AccountQueryOutcome::Exists,
    );
    assert_eq!(
        r.unwrap_err(),
        CliError::SignerAccountDoesNotExist {
            signer_id: acct("alice.testnet"),
            network_name: "testnet".to_string(),
        }
    );
}

#[test]
fn rpc_failure_is_passed_on_verbatim() {
    let r = create_account_routing(
        acct("alice.testnet"),
        props("bob.alice.testnet", ONE_TOKEN),
        &testnet(),
        &AccountQueryOutcome::RpcError {
            message: "timeout".to_string(),
        },
        &AccountQueryOutcome::NotFound,
    );
    assert_eq!(
        r.unwrap_err(),
        CliError::RpcFailure {
            message: "timeout".to_string()
        }
    );
}

#[test]
fn other_names_route_through_the_linkdrop_account() {
    // a sub-account of the linkdrop account, not of the signer
    let r = create_account_routing(
        acct("alice.testnet"),
        props("newname.testnet", ONE_TOKEN),
        &testnet(),
        &AccountQueryOutcome::Exists,
        &AccountQueryOutcome::NotFound,
    )
    .unwrap();
    assert_eq!(r.signer_id, acct("alice.testnet"));
    assert_eq!(r.receiver_id, acct("testnet"));
    assert_eq!(r.actions.len(), 1);
    match &r.actions[0] {
        Action::FunctionCall {
            method_name,
            args,
            gas,
            deposit,
        } => {
            assert_eq!(method_name, "create_account");
            assert_eq!(*gas, CREATE_ACCOUNT_FUNCTION_CALL_GAS);
            assert_eq!(*deposit, ONE_TOKEN);
            // the arguments must be the JSON the linkdrop contract expects,
            // not the raw inputs
            let mut object = serde_json::Map::new();
            object.insert(
                "new_account_id".to_string(),
                serde_json::Value::String("newname.testnet".to_string()),
            );
            object.insert(
                "new_public_key".to_string(),
                serde_json::Value::String(KEY.to_string()),
            );
            let expected = serde_json::Value::Object(object).to_string().into_bytes();
            assert_eq!(args, &expected);
        }
        other => panic!("expected a function call, got {:?}", other),
    }
}

#[test]
fn unrelated_sub_account_is_permission_denied() {
    let r = create_account_routing(
        acct("alice.testnet"),
        props("bob.carol.testnet", ONE_TOKEN),
        &testnet(),
        &AccountQueryOutcome::Exists,
        &AccountQueryOutcome::NotFound,
    );
    assert_eq!(
        r.unwrap_err(),
        CliError::CreateAccountPermissionDenied {
            signer_id: acct("alice.testnet"),
            new_account_id: acct("bob.carol.testnet"),
        }
    );
}

#[test]
fn long_top_level_name_needs_a_linkdrop_account() {
    let no_linkdrop = NetworkConfig {
        network_name: "localnet".to_string(),
        rpc_url: "http://localhost:3030".to_string(),
        linkdrop_account_id: None,
    };
    let long_name = "a".repeat(32);
    let r = create_account_routing(
        acct("alice.near"),
        props(&long_name, ONE_TOKEN),
        &no_linkdrop,
        &AccountQueryOutcome::Exists,
        &AccountQueryOutcome::NotFound,
    );
    assert_eq!(
        r.unwrap_err(),
        CliError::LinkdropAccountNotConfigured {
            new_account_id: acct(&long_name),
            network_name: "localnet".to_string(),
        }
    );
}

#[test]
fn long_top_level_name_routes_through_linkdrop_when_present() {
    let long_name = "a".repeat(32);
    let r = create_account_routing(
        acct("alice.testnet"),
        props(&long_name, ONE_TOKEN),
        &testnet(),
        &AccountQueryOutcome::Exists,
        &AccountQueryOutcome::NotFound,
    )
    .unwrap();
    assert_eq!(r.receiver_id, acct("testnet"));
    assert_eq!(r.actions.len(), 1);
    assert!(matches!(r.actions[0], Action::FunctionCall { .. }));
}
