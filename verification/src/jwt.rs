//! Decoding and validating signed tokens with `wascap`.
//!
//! What `wascap` decodes from a raw token is a function of the token alone, and
//! is given a name here. So is what its validator finds of the signature. What
//! the validator reports of the token's dates depends on the clock as well, so
//! nothing is claimed of that. Nothing is proved of `wascap` itself.

use vstd::prelude::*;

use crate::protocol::catalog::TokenValidation;
use crate::text::views;

verus! {

/// The subject of the claims that `wascap` decodes from `raw`, read under the
/// schema of operator claims; `None` where `raw` does not decode.
pub uninterp spec fn jwt_subject(raw: Seq<char>) -> Option<Seq<char>>;

/// The claims that `wascap` decodes from `raw` under the schema of operator
/// claims, as `serde_json` writes them; `None` where `raw` does not decode.
pub uninterp spec fn operator_json(raw: Seq<char>) -> Option<Seq<char>>;

/// The claims that `wascap` decodes from `raw` under the schema of account
/// claims, as `serde_json` writes them; `None` where `raw` does not decode.
pub uninterp spec fn account_json(raw: Seq<char>) -> Option<Seq<char>>;

/// The claims that `wascap` decodes from `raw` under the schema of the claims
/// of a module, as `serde_json` writes them; `None` where `raw` does not decode.
pub uninterp spec fn actor_json(raw: Seq<char>) -> Option<Seq<char>>;

/// Whether `wascap` finds `raw`, validated as the token of an operator, signed
/// by its issuer; `None` where the validator reports an error.
pub uninterp spec fn operator_signature(raw: Seq<char>) -> Option<bool>;

/// Whether `wascap` finds `raw`, validated as the token of an account, signed
/// by its issuer; `None` where the validator reports an error.
pub uninterp spec fn account_signature(raw: Seq<char>) -> Option<bool>;

/// Whether `wascap` finds `raw`, validated as the token of a module, signed by
/// its issuer; `None` where the validator reports an error.
pub uninterp spec fn actor_signature(raw: Seq<char>) -> Option<bool>;

/// The public keys that the claims of `raw`, read under the schema of operator
/// claims, name as valid signers; `None` where `raw` does not decode or names
/// none.
pub uninterp spec fn jwt_signers(raw: Seq<char>) -> Option<Seq<Seq<char>>>;

/// The subject of the claims that `wascap` finds embedded in the bytes of a
/// module: `None` where it reports an error, `Some(None)` where the module
/// holds no claims.
pub uninterp spec fn module_subject(module: Seq<u8>) -> Option<Option<Seq<char>>>;

/// The views of a list of strings that may be missing.
pub open spec fn texts_view(list: Option<Vec<String>>) -> Option<Seq<Seq<char>>> {
    match list {
        Some(l) => Some(views(l@)),
        None => None,
    }
}

/// The view of a subject that may be missing in two ways.
pub open spec fn found_view(found: Option<Option<String>>) -> Option<Option<Seq<char>>> {
    match found {
        Some(Some(s)) => Some(Some(s@)),
        Some(None) => Some(None),
        None => None,
    }
}

/// Calls `wascap::jwt::Claims::<Operator>::decode` and picks the subject. The
/// decoder splits the token at its dots, decodes the middle segment from
/// base64 and parses it as JSON; it reports malformed input as an error,
/// which is `None` here. The contract only names the result.
#[verifier::external_body]
pub(crate) fn peek_subject(raw: &str) -> (r: Option<String>)
    ensures
        r.is_some() == jwt_subject(raw@).is_some(),
        r.is_some() ==> r.unwrap()@ == jwt_subject(raw@).unwrap(),
{
    wascap::jwt::Claims::<wascap::jwt::Operator>::decode(raw).ok().map(|claims| claims.subject)
}

/// Calls `wascap::jwt::Claims::<Operator>::decode` and writes the claims out
/// with `serde_json::to_string`. An error of either is `None`. The contract
/// only names the result.
#[verifier::external_body]
pub(crate) fn operator_claims_json(raw: &str) -> (r: Option<String>)
    ensures
        r.is_some() == operator_json(raw@).is_some(),
        r.is_some() ==> r.unwrap()@ == operator_json(raw@).unwrap(),
{
    let claims = wascap::jwt::Claims::<wascap::jwt::Operator>::decode(raw).ok()?;
    serde_json::to_string(&claims).ok()
}

/// Calls `wascap::jwt::Claims::<Account>::decode` and writes the claims out
/// with `serde_json::to_string`. An error of either is `None`. The contract
/// only names the result.
#[verifier::external_body]
pub(crate) fn account_claims_json(raw: &str) -> (r: Option<String>)
    ensures
        r.is_some() == account_json(raw@).is_some(),
        r.is_some() ==> r.unwrap()@ == account_json(raw@).unwrap(),
{
    let claims = wascap::jwt::Claims::<wascap::jwt::Account>::decode(raw).ok()?;
    serde_json::to_string(&claims).ok()
}

/// Calls `wascap::jwt::Claims::<Component>::decode`, the schema of the claims
/// of a module, and writes the claims out with `serde_json::to_string`. An
/// error of either is `None`. The contract only names the result.
#[verifier::external_body]
pub(crate) fn actor_claims_json(raw: &str) -> (r: Option<String>)
    ensures
        r.is_some() == actor_json(raw@).is_some(),
        r.is_some() ==> r.unwrap()@ == actor_json(raw@).unwrap(),
{
    let claims = wascap::jwt::Claims::<wascap::jwt::Component>::decode(raw).ok()?;
    serde_json::to_string(&claims).ok()
}

/// Calls `wascap::jwt::Claims::<Operator>::decode` and picks the list of valid
/// signers out of the operator's metadata; `None` where the decoder reports an
/// error, or the claims hold no metadata or no such list. The contract only
/// names the result.
#[verifier::external_body]
pub(crate) fn valid_signers(raw: &str) -> (r: Option<Vec<String>>)
    ensures
        texts_view(r) == jwt_signers(raw@),
{
    wascap::jwt::Claims::<wascap::jwt::Operator>::decode(raw).ok()?.metadata?.valid_signers
}

/// Calls `wascap::wasm::extract_claims` on the bytes of a module and picks the
/// subject of the claims found. It hashes the module without its signature
/// and reads the token from the module's custom section; an error, as one of
/// a hash that does not match, is `None`, and a module without a token is
/// `Some(None)`. The contract only names the result.
#[verifier::external_body]
pub(crate) fn embedded_subject(module: &[u8]) -> (r: Option<Option<String>>)
    ensures
        found_view(r) == module_subject(module@),
{
    wascap::wasm::extract_claims(module).ok().map(|found| found.map(|token| token.claims.subject))
}

/// Calls `wascap::jwt::validate_token::<Operator>` and copies the report
/// field by field; `None` where the validator reports an error. The
/// validator checks the shape of the token and verifies the signature over its
/// first two segments with the issuer's key: whether it reports an error, and
/// what it finds of the signature, depends on the token alone, and the
/// contract names that. The other fields compare the token's dates with the
/// system clock, and the contract claims nothing of them. The validator
/// panics only where the clock stands before 1970.
#[verifier::external_body]
pub(crate) fn validate_operator(raw: &str) -> (r: Option<TokenValidation>)
    ensures
        r.is_some() == operator_signature(raw@).is_some(),
        r.is_some() ==> r.unwrap().signature_valid == operator_signature(raw@).unwrap(),
{
    let report = wascap::jwt::validate_token::<wascap::jwt::Operator>(raw).ok()?;
    Some(
        TokenValidation {
            expired: report.expired,
            expires_human: report.expires_human,
            not_before_human: report.not_before_human,
            cannot_use_yet: report.cannot_use_yet,
            signature_valid: report.signature_valid,
        },
    )
}

/// Calls `wascap::jwt::validate_token::<Account>` and copies the report
/// field by field; `None` where the validator reports an error. The
/// validator checks the shape of the token and verifies the signature over its
/// first two segments with the issuer's key: whether it reports an error, and
/// what it finds of the signature, depends on the token alone, and the
/// contract names that. The other fields compare the token's dates with the
/// system clock, and the contract claims nothing of them. The validator
/// panics only where the clock stands before 1970.
#[verifier::external_body]
pub(crate) fn validate_account(raw: &str) -> (r: Option<TokenValidation>)
    ensures
        r.is_some() == account_signature(raw@).is_some(),
        r.is_some() ==> r.unwrap().signature_valid == account_signature(raw@).unwrap(),
{
    let report = wascap::jwt::validate_token::<wascap::jwt::Account>(raw).ok()?;
    Some(
        TokenValidation {
            expired: report.expired,
            expires_human: report.expires_human,
            not_before_human: report.not_before_human,
            cannot_use_yet: report.cannot_use_yet,
            signature_valid: report.signature_valid,
        },
    )
}

/// Calls `wascap::jwt::validate_token::<Component>`, with the schema of the
/// claims of a module, and copies the report field by field; `None` where the
/// validator reports an error. The validator checks the shape of the token and
/// verifies the signature over its first two segments with the issuer's key:
/// whether it reports an error, and what it finds of the signature, depends
/// on the token alone, and the contract names that. The other fields compare
/// the token's dates with the system clock, and the contract claims nothing
/// of them. The validator panics only where the clock stands before 1970.
#[verifier::external_body]
pub(crate) fn validate_actor(raw: &str) -> (r: Option<TokenValidation>)
    ensures
        r.is_some() == actor_signature(raw@).is_some(),
        r.is_some() ==> r.unwrap().signature_valid == actor_signature(raw@).unwrap(),
{
    let report = wascap::jwt::validate_token::<wascap::jwt::Component>(raw).ok()?;
    Some(
        TokenValidation {
            expired: report.expired,
            expires_human: report.expires_human,
            not_before_human: report.not_before_human,
            cannot_use_yet: report.cannot_use_yet,
            signature_valid: report.signature_valid,
        },
    )
}

} // verus!
