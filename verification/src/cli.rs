//! The top-level command surface: what the operator chose to do, either
//! from structured arguments or from the opening menu.

use vstd::prelude::*;

verus! {

/// How the transaction-construction pipeline talks to the network.
#[derive(Debug, Clone, Copy, PartialEq, Eq, Structural)]
pub enum Mode {
    /// Query the network while constructing.
    Network,
    /// Construct everything offline.
    Offline,
}

/// The resolved operation mode of the construction pipeline.
#[derive(Debug, Clone, Copy, PartialEq, Eq, Structural)]
pub struct OperationMode {
    pub mode: Mode,
}

/// The operation mode as a structured argument.
#[derive(Debug, Clone, Copy, PartialEq, Eq, Structural)]
pub struct CliOperationMode {
    pub mode: Option<Mode>,
}

/// The helper utilities beside transaction construction.
#[derive(Debug, Clone, Copy, PartialEq, Eq, Structural)]
pub enum Util {
    GenerateKeypair,
}

/// The resolved helper selection.
#[derive(Debug, Clone, Copy, PartialEq, Eq, Structural)]
pub struct Utils {
    pub util: Util,
}

/// The helper selection as a structured argument.
#[derive(Debug, Clone, Copy, PartialEq, Eq, Structural)]
pub struct CliUtils {
    pub util: Option<Util>,
}

/// The top-level command as structured arguments.
#[derive(Debug, Clone, Copy, PartialEq, Eq, Structural)]
pub enum CliCommand {
    ConstructTransaction(CliOperationMode),
    Utils(CliUtils),
}

/// The resolved top-level command.
#[derive(Debug, Clone, Copy, PartialEq, Eq, Structural)]
pub enum ArgsCommand {
    ConstructTransaction(OperationMode),
    Utils(Utils),
}

impl ArgsCommand {
    /// Converts the top-level command when its inner choice is supplied;
    /// a missing choice falls back to the opening menu.
    pub fn from_cli(item: CliCommand) -> (r: Option<ArgsCommand>)
        ensures
            match item {
                CliCommand::ConstructTransaction(c) => match c.mode {
                    Some(mode) => r == Some(
                        ArgsCommand::ConstructTransaction(OperationMode { mode }),
                    ),
                    None => r is None,
                },
                CliCommand::Utils(c) => match c.util {
                    Some(util) => r == Some(ArgsCommand::Utils(Utils { util })),
                    None => r is None,
                },
            },
    {
        match item {
            CliCommand::ConstructTransaction(cli_operation_mode) => match cli_operation_mode
                .mode {
                Some(mode) => Some(ArgsCommand::ConstructTransaction(OperationMode { mode })),
                None => None,
            },
            CliCommand::Utils(cli_utils) => match cli_utils.util {
                Some(util) => Some(ArgsCommand::Utils(Utils { util })),
                None => None,
            },
        }
    }
}

/// The top-level commands in the order the opening menu offers them.
#[derive(Debug, Clone, Copy, PartialEq, Eq, Structural)]
pub enum ArgsCommandKind {
    ConstructTransaction,
    Utils,
}

/// The menu decision of the opening prompt: which command the chosen index
/// stands for.
pub fn args_command_kind_at(index: usize) -> (r: Option<ArgsCommandKind>)
    ensures
        index == 0 ==> r == Some(ArgsCommandKind::ConstructTransaction),
        index == 1 ==> r == Some(ArgsCommandKind::Utils),
        index > 1 ==> r is None,
{
    if index == 0 {
        Some(ArgsCommandKind::ConstructTransaction)
    } else if index == 1 {
        Some(ArgsCommandKind::Utils)
    } else {
        None
    }
}

} // verus!
