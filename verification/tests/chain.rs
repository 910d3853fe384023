use near_cli::actions::{blank_transaction, Action};
use near_cli::receiver::{
    action_subcommand_kind_at, next_action_keeps_adding, ActionSubcommand, ActionSubcommandKind,
    CliActionSubcommand, CliNextAction, CliReceiver, CliSelectAction, CliSignTransaction,
    CliSkipAction, CliSkipNextAction, CliTransferNEARTokensAction, CreateAccountAction,
    NextAction, Receiver, SelectAction, SignTransaction, SkipAction, TransferNEARTokensAction,
};
use near_cli::types::{CliError, NearBalance};

const ONE_TOKEN: u128 = 1_000_000_000_000_000_000_000_000;

fn skip() -> NextAction {
    NextAction::Skip(SkipAction {
        sign_option: SignTransaction {},
    })
}

fn transfer_then_create() -> Receiver {
    Receiver {
        receiver_account_id: "carol.testnet".to_string(),
        action: NextAction::AddAction(SelectAction {
            transaction_subcommand: ActionSubcommand::TransferNEARTokens(
                TransferNEARTokensAction {
                    amount: NearBalance::from_yoctonear(ONE_TOKEN),
                    next_action: Box::new(NextAction::AddAction(SelectAction {
                        transaction_subcommand: ActionSubcommand::CreateAccount(
                            CreateAccountAction {
                                next_action: Box::new(skip()),
                            },
                        ),
                    })),
                },
            ),
        }),
    }
}

#[test]
fn chain_appends_actions_in_construction_order() {
    let (t, _sign) = transfer_then_create().process(blank_transaction()).unwrap();
    assert_eq!(t.receiver_id, "carol.testnet");
    assert_eq!(t.actions.len(), 2);
    match &t.actions[0] {
        Action::Transfer { deposit } => assert_eq!(*deposit, ONE_TOKEN),
        other => panic!("expected a transfer, got {:?}", other),
    }
    assert!(matches!(t.actions[1], Action::CreateAccount));
    // the untouched header fields survive the walk
    assert_eq!(t.signer_id, "");
    assert_eq!(t.nonce, 0);
}

#[test]
fn chain_tail_is_the_single_terminal() {
    // the terminal node ends the walk and hands back the signing choice
    let (t, sign) = skip().process(blank_transaction()).unwrap();
    assert_eq!(t.actions.len(), 0);
    assert_eq!(sign, SignTransaction {});
}

#[test]
fn unsupported_kind_fails_at_construction() {
    let chain = NextAction::AddAction(SelectAction {
        transaction_subcommand: ActionSubcommand::CallFunction,
    });
    let r = chain.process(blank_transaction());
    assert_eq!(r.unwrap_err(), CliError::UnsupportedAction);
}

#[test]
fn from_cli_converts_a_complete_chain() {
    let cli = CliReceiver {
        receiver_account_id: Some("carol.testnet".to_string()),
        action: Some(CliNextAction::AddAction(CliSelectAction {
            transaction_subcommand: Some(CliActionSubcommand::TransferNEARTokens(
                CliTransferNEARTokensAction {
                    amount: Some(NearBalance::from_yoctonear(ONE_TOKEN)),
                    next_action: Some(Box::new(CliNextAction::Skip(CliSkipAction {
                        sign_option: Some(CliSignTransaction {}),
                    }))),
                },
            )),
        })),
    };
    let receiver = Receiver::from_cli(cli).unwrap().unwrap();
    assert_eq!(receiver.receiver_account_id, "carol.testnet");
    let (t, _sign) = receiver.process(blank_transaction()).unwrap();
    assert_eq!(t.actions.len(), 1);
    assert!(matches!(t.actions[0], Action::Transfer { .. }));
}

#[test]
fn from_cli_asks_for_a_prompt_when_a_field_is_missing() {
    let cli = CliReceiver {
        receiver_account_id: Some("carol.testnet".to_string()),
        action: Some(CliNextAction::AddAction(CliSelectAction {
            transaction_subcommand: Some(CliActionSubcommand::TransferNEARTokens(
                CliTransferNEARTokensAction {
                    amount: None,
                    next_action: None,
                },
            )),
        })),
    };
    assert!(Receiver::from_cli(cli).unwrap().is_none());
}

#[test]
fn from_cli_rejects_an_unsupported_kind() {
    let r = ActionSubcommand::from_cli(CliActionSubcommand::StakeNEARTokens);
    assert_eq!(r.unwrap_err(), CliError::UnsupportedAction);
}

#[test]
fn from_cli_skip_next_action_needs_the_sign_option() {
    let some = NextAction::from_cli_skip_next_action(CliSkipNextAction::Skip(CliSkipAction {
        sign_option: Some(CliSignTransaction {}),
    }));
    assert!(matches!(some, Some(NextAction::Skip(_))));
    let none = NextAction::from_cli_skip_next_action(CliSkipNextAction::Skip(CliSkipAction {
        sign_option: None,
    }));
    assert!(none.is_none());
}

#[test]
fn action_menu_order_is_fixed() {
    assert_eq!(
        action_subcommand_kind_at(0),
        Some(ActionSubcommandKind::TransferNEARTokens)
    );
    assert_eq!(
        action_subcommand_kind_at(3),
        Some(ActionSubcommandKind::CreateAccount)
    );
    assert_eq!(
        action_subcommand_kind_at(6),
        Some(ActionSubcommandKind::DeleteAccessKey)
    );
    assert_eq!(action_subcommand_kind_at(7), None);
    assert!(next_action_keeps_adding(0));
    assert!(!next_action_keeps_adding(1));
}
