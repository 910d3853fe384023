use near_cli::account_id::AccountId;
use near_cli::actions::blank_transaction;
use near_cli::cli::{
    args_command_kind_at, ArgsCommand, ArgsCommandKind, CliCommand, CliOperationMode, CliUtils,
    Mode, OperationMode, Util, Utils,
};
use near_cli::fields::{
    accept_prompted_account_id, accept_signer_parent, resolve_account_id_from_supplied,
    signer_parent_candidate, FieldSource, PromptDecision, Resolution,
};
use near_cli::inspect::{
    run_after_getting_block_reference_callback, select_function_names,
    wasm_exported_function_names, ContractAccount, ContractAccountContext, ExportKind,
    InspectContract, InspectContractContext, OnAfterGettingBlockReferenceCallback,
};
use near_cli::types::{AccountQueryOutcome, CliError, Config, GlobalContext, NetworkConfig};
use near_cli::validators::ValidatorsArgs;

fn acct(s: &str) -> AccountId {
    AccountId::parse(s.to_string()).unwrap()
}

#[test]
fn supplied_valid_value_never_reaches_the_prompt() {
    match resolve_account_id_from_supplied(Some("alice.testnet".to_string())) {
        Resolution::Resolved(f) => {
            assert_eq!(f.value, acct("alice.testnet"));
            assert_eq!(f.source, FieldSource::Supplied);
        }
        Resolution::MustPrompt => panic!("a valid supplied value must not be prompted for"),
    }
}

#[test]
fn invalid_or_missing_supplied_value_falls_back_to_the_prompt() {
    assert!(matches!(
        resolve_account_id_from_supplied(Some("Not Valid".to_string())),
        Resolution::MustPrompt
    ));
    assert!(matches!(
        resolve_account_id_from_supplied(None),
        Resolution::MustPrompt
    ));
}

#[test]
fn prompted_values_are_validated_and_confirmed() {
    // an invalid candidate is always re-prompted
    assert!(matches!(
        accept_prompted_account_id("Not Valid".to_string(), None, false),
        PromptDecision::Reprompt
    ));
    // a valid name that is missing on-chain is kept only on confirmation
    assert!(matches!(
        accept_prompted_account_id("ghost.testnet".to_string(), Some(false), false),
        PromptDecision::Reprompt
    ));
    match accept_prompted_account_id("ghost.testnet".to_string(), Some(false), true) {
        PromptDecision::Accept(f) => {
            assert_eq!(f.value, acct("ghost.testnet"));
            assert_eq!(f.source, FieldSource::Interactive);
        }
        PromptDecision::Reprompt => panic!("a confirmed name must be accepted"),
    }
    // a name that exists is accepted outright
    assert!(matches!(
        accept_prompted_account_id("alice.testnet".to_string(), Some(true), false),
        PromptDecision::Accept(_)
    ));
}

#[test]
fn derived_signer_is_used_only_when_it_exists() {
    match accept_signer_parent(acct("alice.testnet"), &AccountQueryOutcome::Exists) {
        Resolution::Resolved(f) => {
            assert_eq!(f.value, acct("alice.testnet"));
            assert_eq!(f.source, FieldSource::Interactive);
        }
        Resolution::MustPrompt => panic!("an existing parent must be used as the default"),
    }
    assert!(matches!(
        accept_signer_parent(acct("alice.testnet"), &AccountQueryOutcome::NotFound),
        Resolution::MustPrompt
    ));
    assert!(matches!(
        accept_signer_parent(
            acct("alice.testnet"),
            &AccountQueryOutcome::RpcError {
                message: "timeout".to_string()
            }
        ),
        Resolution::MustPrompt
    ));
}

#[test]
fn signer_default_derives_from_the_sub_account_parent() {
    assert_eq!(
        signer_parent_candidate(&acct("bob.alice.testnet")),
        Some(acct("alice.testnet"))
    );
    // a top-level parent cannot be looked up as a signer default
    assert_eq!(signer_parent_candidate(&acct("frank.testnet")), None);
    // no dot: no parent to derive
    assert_eq!(signer_parent_candidate(&acct("alice")), None);
}

#[test]
fn blank_transaction_is_all_zeroes() {
    let t = blank_transaction();
    assert_eq!(t.signer_id, "");
    assert_eq!(t.receiver_id, "");
    assert_eq!(t.nonce, 0);
    assert_eq!(t.block_hash, vec![0u8; 32]);
    assert!(t.actions.is_empty());
    assert_eq!(
        t.public_key.as_str(),
        "ed25519:11111111111111111111111111111111"
    );
}

#[test]
fn top_level_command_converts_when_supplied() {
    let r = ArgsCommand::from_cli(CliCommand::ConstructTransaction(CliOperationMode {
        mode: Some(Mode::Network),
    }));
    assert_eq!(
        r,
        Some(ArgsCommand::ConstructTransaction(OperationMode {
            mode: Mode::Network
        }))
    );
    let r = ArgsCommand::from_cli(CliCommand::Utils(CliUtils {
        util: Some(Util::GenerateKeypair),
    }));
    assert_eq!(r, Some(ArgsCommand::Utils(Utils { util: Util::GenerateKeypair })));
    let r = ArgsCommand::from_cli(CliCommand::ConstructTransaction(CliOperationMode {
        mode: None,
    }));
    assert_eq!(r, None);
}

#[test]
fn opening_menu_order_is_fixed() {
    assert_eq!(
        args_command_kind_at(0),
        Some(ArgsCommandKind::ConstructTransaction)
    );
    assert_eq!(args_command_kind_at(1), Some(ArgsCommandKind::Utils));
    assert_eq!(args_command_kind_at(2), None);
}

#[test]
fn validators_args_keep_what_they_were_given() {
    let v = ValidatorsArgs::new(
        "latest".to_string(),
        vec!["--network-id".to_string(), "testnet".to_string()],
    );
    assert_eq!(v.epoch, "latest");
    assert_eq!(v.unknown_args.len(), 2);
}

#[test]
fn function_exports_are_selected_in_order() {
    let pairs = vec![
        ("memory".to_string(), ExportKind::Memory),
        ("main".to_string(), ExportKind::Func),
        ("table".to_string(), ExportKind::Table),
        ("helper".to_string(), ExportKind::Func),
    ];
    assert_eq!(
        select_function_names(pairs),
        vec!["main".to_string(), "helper".to_string()]
    );
}

#[test]
fn empty_module_exports_nothing() {
    // just the magic number and the version: a module without sections
    let module = vec![0x00, 0x61, 0x73, 0x6d, 0x01, 0x00, 0x00, 0x00];
    assert_eq!(wasm_exported_function_names(&module).unwrap(), Vec::<String>::new());
}

#[test]
fn module_with_an_exported_function_lists_it() {
    let module = vec![
        0x00, 0x61, 0x73, 0x6d, 0x01, 0x00, 0x00, 0x00, // magic, version
        0x01, 0x04, 0x01, 0x60, 0x00, 0x00, // type section: () -> ()
        0x03, 0x02, 0x01, 0x00, // function section: one function of type 0
        0x07, 0x08, 0x01, 0x04, 0x6d, 0x61, 0x69, 0x6e, 0x00, 0x00, // export "main" func 0
        0x0a, 0x04, 0x01, 0x02, 0x00, 0x0b, // code section: empty body
    ];
    assert_eq!(
        wasm_exported_function_names(&module).unwrap(),
        vec!["main".to_string()]
    );
}

#[test]
fn unreadable_code_fails_with_the_reader_message() {
    let garbage = vec![0x00, 0x61, 0x73, 0x6d, 0x01, 0x00, 0x00, 0x00, 0x07, 0x02, 0x01];
    let message = wasm_exported_function_names(&garbage).unwrap_err();
    assert!(!message.is_empty());
}

#[test]
fn inspection_callback_lists_functions_of_good_code() {
    let module = vec![
        0x00, 0x61, 0x73, 0x6d, 0x01, 0x00, 0x00, 0x00, // magic, version
        0x01, 0x04, 0x01, 0x60, 0x00, 0x00, // type section: () -> ()
        0x03, 0x02, 0x01, 0x00, // function section: one function of type 0
        0x07, 0x08, 0x01, 0x04, 0x6d, 0x61, 0x69, 0x6e, 0x00, 0x00, // export "main" func 0
        0x0a, 0x04, 0x01, 0x02, 0x00, 0x0b, // code section: empty body
    ];
    let callback = OnAfterGettingBlockReferenceCallback::InspectContract {
        account_id: acct("counter.testnet"),
    };
    let names = run_after_getting_block_reference_callback(callback, &module).unwrap();
    assert_eq!(names, vec!["main".to_string()]);
}

#[test]
fn inspection_callback_error_names_the_contract_account() {
    let garbage = vec![0x00, 0x61, 0x73, 0x6d, 0x01, 0x00, 0x00, 0x00, 0x07, 0x02, 0x01];
    let callback = OnAfterGettingBlockReferenceCallback::InspectContract {
        account_id: acct("counter.testnet"),
    };
    let error = run_after_getting_block_reference_callback(callback, &garbage).unwrap_err();
    match error {
        CliError::InvalidContractCode {
            account_id,
            message,
        } => {
            assert_eq!(account_id, acct("counter.testnet"));
            assert!(!message.is_empty());
        }
        other => panic!("expected an invalid-contract error, got {:?}", other),
    }
}

#[test]
fn inspection_stages_carry_the_account_into_the_callback() {
    let cfg = Config {
        network_connections: vec![NetworkConfig {
            network_name: "testnet".to_string(),
            rpc_url: "https://rpc.testnet.near.org".to_string(),
            linkdrop_account_id: Some(acct("testnet")),
        }],
    };
    let first = ContractAccountContext::from_previous_context(
        GlobalContext(cfg),
        &ContractAccount {
            account_id: acct("counter.testnet"),
        },
    )
    .unwrap();
    assert_eq!(first.account_id, acct("counter.testnet"));
    assert_eq!(first.config.network_connections.len(), 1);

    let view = InspectContractContext::from_previous_context(
        first,
        &InspectContract {
            folder_path: "/tmp/contracts".to_string(),
        },
    )
    .unwrap()
    .into_args_for_view_context();
    // the configuration is carried over and the callback captured the account
    assert_eq!(view.config.network_connections.len(), 1);
    let OnAfterGettingBlockReferenceCallback::InspectContract { account_id } =
        view.on_after_getting_block_reference_callback;
    assert_eq!(account_id, acct("counter.testnet"));
}
