//! The field resolver: one configuration value, resolved either from a
//! pre-supplied value or by an interactive prompt with a retry loop.
//!
//! The prompt itself is the caller's business; the decisions — whether a
//! prompt is needed at all, and whether a prompted value is acceptable —
//! are taken here, so that both paths share one validity check.

use vstd::prelude::*;
use crate::account_id::{AccountId, is_valid_account_id, spec_is_top_level, spec_parent_of};
use crate::types::AccountQueryOutcome;

verus! {

/// Where a resolved field came from.
#[derive(Debug, Clone, Copy, PartialEq, Eq, Structural)]
pub enum FieldSource {
    /// Supplied as a structured argument.
    Supplied,
    /// Resolved through the interactive prompt.
    Interactive,
}

/// A resolved configuration value: only validated values are ever wrapped.
#[derive(Debug)]
pub struct Field<T> {
    pub value: T,
    pub source: FieldSource,
}

/// The outcome of trying to resolve a field without prompting.
#[derive(Debug)]
pub enum Resolution<T> {
    /// The field is settled; no prompt will run.
    Resolved(Field<T>),
    /// The caller must prompt: nothing was supplied, or what was supplied
    /// failed validation and is never silently accepted.
    MustPrompt,
}

/// The outcome of judging one prompted candidate.
#[derive(Debug)]
pub enum PromptDecision<T> {
    /// The candidate is accepted and the retry loop ends.
    Accept(Field<T>),
    /// The candidate is rejected; the caller prompts again.
    Reprompt,
}

/// Resolves an account-identifier field from a pre-supplied value. A valid
/// pre-supplied value is resolved on the spot — the interactive path is
/// never taken for it; an invalid or missing one falls back to the prompt.
pub fn resolve_account_id_from_supplied(supplied: Option<String>) -> (r: Resolution<AccountId>)
    ensures
        match supplied {
            Some(s) => if is_valid_account_id(s@) {
                r matches Resolution::Resolved(f) && f.value@ == s@ && f.source
                    == FieldSource::Supplied
            } else {
                r is MustPrompt
            },
            None => r is MustPrompt,
        },
{
    match supplied {
        Some(s) => match AccountId::parse(s) {
            Some(value) => Resolution::Resolved(
                Field { value, source: FieldSource::Supplied },
            ),
            None => Resolution::MustPrompt,
        },
        None => Resolution::MustPrompt,
    }
}

/// Judges one prompted candidate for an account-identifier field. An
/// invalid name is always re-prompted. A valid name that is known to be
/// missing on-chain is recoverable ambiguity: it is accepted only when the
/// operator confirmed keeping it; a name whose existence was not checked,
/// or that exists, is accepted outright.
pub fn accept_prompted_account_id(
    candidate: String,
    exists_on_network: Option<bool>,
    keep_unknown_account: bool,
) -> (r: PromptDecision<AccountId>)
    ensures
        !is_valid_account_id(candidate@) ==> r is Reprompt,
        is_valid_account_id(candidate@) ==> match exists_on_network {
            Some(false) => if keep_unknown_account {
                r matches PromptDecision::Accept(f) && f.value@ == candidate@ && f.source
                    == FieldSource::Interactive
            } else {
                r is Reprompt
            },
            _ => r matches PromptDecision::Accept(f) && f.value@ == candidate@ && f.source
                == FieldSource::Interactive,
        },
{
    match AccountId::parse(candidate) {
        None => PromptDecision::Reprompt,
        Some(value) => match exists_on_network {
            Some(false) => if keep_unknown_account {
                PromptDecision::Accept(Field { value, source: FieldSource::Interactive })
            } else {
                PromptDecision::Reprompt
            },
            _ => PromptDecision::Accept(Field { value, source: FieldSource::Interactive }),
        },
    }
}

/// The cheap default for the signer of an account creation: the parent of
/// the new account, when the new account is a sub-account whose parent
/// could itself be looked up on-chain. The caller verifies the candidate's
/// existence before settling on it.
pub fn signer_parent_candidate(new_account_id: &AccountId) -> (r: Option<AccountId>)
    ensures
        r matches Some(p) ==> p@ == spec_parent_of(new_account_id@) && !spec_is_top_level(p@),
        r is None ==> (new_account_id@ == spec_parent_of(new_account_id@) || !is_valid_account_id(
            spec_parent_of(new_account_id@),
        ) || spec_is_top_level(spec_parent_of(new_account_id@))),
{
    match new_account_id.parent_account_id() {
        Some(parent) => {
            if parent.is_top_level() {
                None
            } else {
                Some(parent)
            }
        },
        None => None,
    }
}


/// Settles the derived signer default: the parent candidate stands only
/// when the network confirms it exists; any other query outcome sends the
/// caller to the prompt. The accepted value resolves on the interactive
/// path without a prompt having run.
pub fn accept_signer_parent(candidate: AccountId, query: &AccountQueryOutcome) -> (r: Resolution<
    AccountId,
>)
    ensures
        query is Exists ==> (r matches Resolution::Resolved(f) && f.value@ == candidate@
            && f.source == FieldSource::Interactive),
        !(query is Exists) ==> r is MustPrompt,
{
    match query {
        AccountQueryOutcome::Exists => Resolution::Resolved(
            Field { value: candidate, source: FieldSource::Interactive },
        ),
        _ => Resolution::MustPrompt,
    }
}

} // verus!
