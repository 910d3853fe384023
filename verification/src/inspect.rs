//! The contract-inspection stages: pick the contract account and the folder,
//! and defer the work on the fetched contract code until the network and the
//! block reference are known.
//!
//! Fetching the code is the shell's business; what the deferred callback
//! itself contributes is reading the exported function names out of the
//! code: `wasmparser` drains the export entries behind one trusted item
//! whose outcome is named, and the selection of the function-kind entries
//! is verified.

use vstd::prelude::*;
use wasmparser::ExternalKind;
use crate::account_id::AccountId;
use crate::types::{CliError, Config, GlobalContext};

verus! {

/// The first inspection stage's input: which contract account to inspect.
#[derive(Debug)]
pub struct ContractAccount {
    pub account_id: AccountId,
}

/// The context after the contract account is chosen.
#[derive(Debug)]
pub struct ContractAccountContext {
    pub config: Config,
    pub account_id: AccountId,
}

impl ContractAccountContext {
    /// Appends the chosen contract account to the global configuration.
    pub fn from_previous_context(
        previous_context: GlobalContext,
        scope: &ContractAccount,
    ) -> (r: Result<Self, CliError>)
        ensures
            r is Ok,
            r matches Ok(c) ==> c.config == previous_context.0 && c.account_id@
                == scope.account_id@,
    {
        Ok(ContractAccountContext {
            config: previous_context.0,
            account_id: scope.account_id.clone(),
        })
    }
}

/// The second inspection stage's input: where to put the downloaded code.
#[derive(Debug)]
pub struct InspectContract {
    pub folder_path: String,
}

/// The context of the network-view pipeline: the configuration plus the
/// deferred callback to run once a block reference is resolved.
#[derive(Debug)]
pub struct ArgsForViewContext {
    pub config: Config,
    pub on_after_getting_block_reference_callback: OnAfterGettingBlockReferenceCallback,
}

/// The deferred unit of the view pipeline, capturing by value what its
/// originating stage needs.
#[derive(Debug)]
pub enum OnAfterGettingBlockReferenceCallback {
    /// Registered by the inspection stage: list the exported functions of
    /// the fetched contract code.
    InspectContract { account_id: AccountId },
}

/// The final context of the inspection chain.
#[derive(Debug)]
pub struct InspectContractContext(pub ArgsForViewContext);

impl InspectContractContext {
    /// Registers the inspection callback; the configuration is carried over
    /// unchanged and the chosen folder does not change what is inspected.
    pub fn from_previous_context(
        previous_context: ContractAccountContext,
        scope: &InspectContract,
    ) -> (r: Result<Self, CliError>)
        ensures
            r is Ok,
            r matches Ok(c) ==> {
                &&& c.0.config == previous_context.config
                &&& c.0.on_after_getting_block_reference_callback
                    matches OnAfterGettingBlockReferenceCallback::InspectContract { account_id }
                    && account_id@ == previous_context.account_id@
            },
    {
        let account_id = previous_context.account_id;
        Ok(InspectContractContext(
            ArgsForViewContext {
                config: previous_context.config,
                on_after_getting_block_reference_callback:
                    OnAfterGettingBlockReferenceCallback::InspectContract { account_id },
            },
        ))
    }

    /// Unwraps the view-pipeline context the driver consumes.
    pub fn into_args_for_view_context(self) -> (r: ArgsForViewContext)
        ensures
            r == self.0,
    {
        self.0
    }
}

/// The kind of one export of a contract, as the library reads it.
#[derive(Debug, Clone, Copy, PartialEq, Eq, Structural)]
pub enum ExportKind {
    Func,
    Table,
    Memory,
    Global,
    Tag,
    FuncExact,
}

/// What reading the export entries of a module yields: every export's name
/// and kind, in section order, or the reader's message on code that cannot
/// be read. The outcome depends on the code bytes alone.
pub uninterp spec fn wasm_export_entries_of(code: Seq<u8>) -> Result<
    Seq<(Seq<char>, ExportKind)>,
    Seq<char>,
>;

/// The mathematical shape of drained export entries.
pub open spec fn spec_entry_views(entries: Seq<(String, ExportKind)>) -> Seq<
    (Seq<char>, ExportKind),
> {
    entries.map_values(|p: (String, ExportKind)| (p.0@, p.1))
}

/// Relies on `wasmparser::Parser::parse_all` and the export-section reader:
/// drains every export's name and kind in section order, stopping at the
/// reader's first error. The walk reads the code bytes from offset zero and
/// depends on them alone.
#[verifier::external_body]
fn wasm_export_entries(code: &Vec<u8>) -> (r: Result<Vec<(String, ExportKind)>, String>)
    ensures
        r is Ok <==> wasm_export_entries_of(code@) is Ok,
        r matches Ok(entries) ==> (wasm_export_entries_of(code@) matches Ok(s)
            && spec_entry_views(entries@) == s),
        r matches Err(message) ==> (wasm_export_entries_of(code@) matches Err(m) && message@
            == m),
{
    let mut entries: Vec<(String, ExportKind)> = Vec::new();
    for payload in wasmparser::Parser::new(0).parse_all(code) {
        if let wasmparser::Payload::ExportSection(s) = payload.map_err(|e| e.message().to_string())? {
            for export in s {
                let e = export.map_err(|e| e.message().to_string())?;
                entries.push((e.name.to_string(), match e.kind {
                    ExternalKind::Func => ExportKind::Func, ExternalKind::FuncExact => ExportKind::FuncExact,
                    ExternalKind::Table => ExportKind::Table, ExternalKind::Memory => ExportKind::Memory,
                    ExternalKind::Global => ExportKind::Global, ExternalKind::Tag => ExportKind::Tag,
                }));
            }
        }
    }
    Ok(entries)
}

/// The names among `exports` whose kind is `Func`, in order.
pub open spec fn spec_function_names(exports: Seq<(Seq<char>, ExportKind)>) -> Seq<Seq<char>>
    decreases exports.len(),
{
    if exports.len() == 0 {
        Seq::empty()
    } else {
        spec_function_names(exports.drop_last()) + if exports.last().1 is Func {
            seq![exports.last().0]
        } else {
            Seq::empty()
        }
    }
}

/// Keeps exactly the exported functions, in the order the section lists
/// them.
pub fn select_function_names(exports: Vec<(String, ExportKind)>) -> (r: Vec<String>)
    ensures
        r@.map_values(|n: String| n@) == spec_function_names(spec_entry_views(exports@)),
{
    let mut names: Vec<String> = Vec::new();
    let mut i: usize = 0;
    while i < exports.len()
        invariant
            i <= exports@.len(),
            names@.map_values(|n: String| n@) == spec_function_names(
                spec_entry_views(exports@).take(i as int),
            ),
        decreases exports@.len() - i,
    {
        let (name, kind) = &exports[i];
        if *kind == ExportKind::Func {
            names.push(name.clone());
        }
        proof {
            assert(spec_entry_views(exports@)[i as int] == (
                exports@[i as int].0@,
                exports@[i as int].1,
            ));
            assert(spec_entry_views(exports@).take(i + 1).drop_last() =~= spec_entry_views(
                exports@,
            ).take(i as int));
            assert(spec_entry_views(exports@).take(i + 1).last() == spec_entry_views(
                exports@,
            )[i as int]);
            assert(names@.map_values(|n: String| n@) =~= spec_function_names(
                spec_entry_views(exports@).take(i + 1),
            ));
        }
        i += 1;
    }
    proof {
        assert(spec_entry_views(exports@).take(exports@.len() as int) =~= spec_entry_views(
            exports@,
        ));
    }
    names
}

/// The exported function names of the module `code`: the trusted walk reads
/// every export entry, the verified selection keeps the function-kind ones,
/// in order. Fails exactly when the reader fails, with its message.
pub fn wasm_exported_function_names(code: &Vec<u8>) -> (r: Result<Vec<String>, String>)
    ensures
        r is Ok <==> wasm_export_entries_of(code@) is Ok,
        r matches Ok(names) ==> (wasm_export_entries_of(code@) matches Ok(entries) && names@
            .map_values(|n: String| n@) == spec_function_names(entries)),
        r matches Err(message) ==> (wasm_export_entries_of(code@) matches Err(m) && message@
            == m),
{
    match wasm_export_entries(code) {
        Ok(entries) => Ok(select_function_names(entries)),
        Err(message) => Err(message),
    }
}

/// Evaluates the deferred inspection: lists the exported functions of the
/// code fetched for the captured contract account; on unreadable code the
/// error names that account and carries the reader's message.
pub fn run_after_getting_block_reference_callback(
    callback: OnAfterGettingBlockReferenceCallback,
    code: &Vec<u8>,
) -> (r: Result<Vec<String>, CliError>)
    ensures
        callback matches OnAfterGettingBlockReferenceCallback::InspectContract { account_id }
            ==> {
            &&& r is Ok <==> wasm_export_entries_of(code@) is Ok
            &&& r matches Ok(names) ==> (wasm_export_entries_of(code@) matches Ok(entries)
                && names@.map_values(|n: String| n@) == spec_function_names(entries))
            &&& r matches Err(e) ==> (e matches CliError::InvalidContractCode {
                account_id: reported,
                message,
            } && reported@ == account_id@ && (wasm_export_entries_of(code@) matches Err(m)
                && message@ == m))
        },
{
    match callback {
        OnAfterGettingBlockReferenceCallback::InspectContract { account_id } => {
            match wasm_exported_function_names(code) {
                Ok(names) => Ok(names),
                Err(message) => Err(CliError::InvalidContractCode { account_id, message }),
            }
        },
    }
}

} // verus!
