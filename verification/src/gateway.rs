//! Resolution of the fixed remote-service addresses.
//!
//! The model endpoint and the ledger live behind well-known principals,
//! written here in their textual form and resolved through the host
//! platform's encoding library.  The transport itself — sending a request
//! and awaiting the reply — is the surrounding application's business; the
//! library only resolves the constant addresses it is to call.
use vstd::prelude::*;

verus! {

#[verifier::external_type_specification]
#[verifier::external_body]
pub struct ExPrincipal(candid::Principal);

/// Whether a piece of text is a valid textual representation of a
/// principal, as the host platform's parser has it.
pub uninterp spec fn text_is_principal(s: Seq<char>) -> bool;

/// Relies on `candid::Principal::from_text`: the parse is a pure function
/// of the text alone (base32 decoding, checksum and canonical-grouping
/// checks), it never panics, and it succeeds exactly when the text is a
/// valid principal representation.
#[verifier::external_body]
fn principal_from_text(s: &str) -> (r: Option<candid::Principal>)
    ensures
        r is Some <==> text_is_principal(s@),
{
    candid::Principal::from_text(s).ok()
}

/// The textual principal of the model-serving endpoint.
pub open spec fn llm_canister_text() -> Seq<char> {
    "w36hm-eqaaa-aaaal-qr76a-cai"@
}

/// The textual principal of the ledger service that answers balance
/// queries.
pub open spec fn ledger_canister_text() -> Seq<char> {
    "ryjl3-tyaaa-aaaaa-aaaba-cai"@
}

/// Resolves the model endpoint's principal from its fixed textual form.
/// `None` only if that constant text were no valid principal.
pub fn llm_canister_id() -> (r: Option<candid::Principal>)
    ensures
        r is Some <==> text_is_principal(llm_canister_text()),
{
    principal_from_text("w36hm-eqaaa-aaaal-qr76a-cai")
}

/// Resolves the ledger's principal from its fixed textual form.  `None`
/// only if that constant text were no valid principal.
pub fn ledger_canister_id() -> (r: Option<candid::Principal>)
    ensures
        r is Some <==> text_is_principal(ledger_canister_text()),
{
    principal_from_text("ryjl3-tyaaa-aaaaa-aaaba-cai")
}

} // verus!
