//! The middleware that stands before the catalog: it opens the signed token of
//! every put, validates it, and hands the catalog an augmented copy.
//!
//! The augmented token keeps the raw signed string, and carries the decoded
//! claims as JSON and the validator's report. A token that cannot be decoded is
//! an error, and the catalog never sees it. A token with a bad signature is no
//! error here: the report says so, and the catalog refuses it.

use vstd::prelude::*;

use crate::envelope::BrokerMessage;
use crate::envelope::Invocation;
use crate::envelope::InvocationResponse;
use crate::envelope::OP_DELIVER_MESSAGE;
use crate::errors::ErrorKind;
use crate::json::text_view;
use crate::jwt::account_claims_json;
use crate::jwt::account_json;
use crate::jwt::account_signature;
use crate::jwt::actor_claims_json;
use crate::jwt::actor_json;
use crate::jwt::actor_signature;
use crate::jwt::jwt_subject;
use crate::jwt::operator_claims_json;
use crate::jwt::operator_json;
use crate::jwt::operator_signature;
use crate::jwt::peek_subject;
use crate::jwt::validate_account;
use crate::jwt::validate_actor;
use crate::jwt::validate_operator;
use crate::keyspace::variant_of;
use crate::protocol::catalog::Token;
use crate::protocol::catalog::TokenValidation;
use crate::protocol::catalog::TokenValidationView;
use crate::protocol::catalog::TokenView;
use crate::protocol::catalog::SUBJECT_CATALOG_PUT_TOKEN;
use crate::protocol::token::TokenType;
use crate::text::starts_with_char;
use crate::text::text_eq;

verus! {

/// The schema under which the claims of a subject are decoded and validated:
/// that of an operator for a subject that begins with `O`, that of an account
/// for one that begins with `A`, and that of an actor for every other.
pub open spec fn schema_of(subject: Seq<char>) -> TokenType {
    if subject.len() > 0 && subject[0] == 'O' {
        TokenType::Operator
    } else if subject.len() > 0 && subject[0] == 'A' {
        TokenType::Account
    } else {
        TokenType::Actor
    }
}

/// The claims of `raw` as JSON, decoded under the given schema.
pub open spec fn schema_json(raw: Seq<char>, schema: TokenType) -> Option<Seq<char>> {
    match schema {
        TokenType::Operator => operator_json(raw),
        TokenType::Account => account_json(raw),
        TokenType::Actor => actor_json(raw),
    }
}

/// The decoded claims of `raw` as JSON: the subject is read first, and the
/// claims are then decoded under the schema that the subject selects.
pub open spec fn canonical_json(raw: Seq<char>) -> Option<Seq<char>> {
    match jwt_subject(raw) {
        Some(subject) => schema_json(raw, schema_of(subject)),
        None => None,
    }
}

/// What the validator finds of the signature of `raw` under the given schema;
/// `None` where it reports an error.
pub open spec fn schema_signature(raw: Seq<char>, schema: TokenType) -> Option<bool> {
    match schema {
        TokenType::Operator => operator_signature(raw),
        TokenType::Account => account_signature(raw),
        TokenType::Actor => actor_signature(raw),
    }
}

/// What the validator finds of the signature of `raw`, under the schema that
/// the subject of `raw` selects; `None` where the subject cannot be read or
/// the validator reports an error.
pub open spec fn checked_signature(raw: Seq<char>) -> Option<bool> {
    match jwt_subject(raw) {
        Some(subject) => schema_signature(raw, schema_of(subject)),
        None => None,
    }
}

/// Whether the middleware can augment a token with the raw string `raw`: its
/// claims decode, and the validator reports no error.
pub open spec fn augmentable(raw: Seq<char>) -> bool {
    canonical_json(raw) is Some && checked_signature(raw) is Some
}

/// The view of a validation report that may be missing.
pub open spec fn report_view(report: Option<TokenValidation>) -> Option<TokenValidationView> {
    match report {
        Some(r) => Some(r@),
        None => None,
    }
}

/// The view of the outcome of an augmentation.
pub open spec fn token_outcome_view(outcome: Result<Token, ErrorKind>) -> Result<
    TokenView,
    ErrorKind,
> {
    match outcome {
        Ok(token) => Ok(token@),
        Err(e) => Err(e),
    }
}

/// The augmented copy of `token`, given its decoded claims as JSON and the
/// validator's report: the raw token unchanged, with the two beside it. Where
/// either is missing the token is invalid.
pub open spec fn augmented(
    token: TokenView,
    claims_json: Option<Seq<char>>,
    report: Option<TokenValidationView>,
) -> Result<TokenView, ErrorKind> {
    match (claims_json, report) {
        (Some(json), Some(report)) => Ok(
            TokenView {
                raw_token: token.raw_token,
                decoded_token_json: json,
                validation_result: Some(report),
            },
        ),
        _ => Err(ErrorKind::InvalidToken),
    }
}

/// What the middleware makes of `token` where the validator reports `report`
/// of its raw string.
pub open spec fn augmentation(token: TokenView, report: Option<TokenValidationView>) -> Result<
    TokenView,
    ErrorKind,
> {
    augmented(token, canonical_json(token.raw_token), report)
}

/// The augmentation of a token looks at its raw string only: two tokens with
/// the same raw string are augmented alike.
pub proof fn lemma_augmentation_reads_raw_only(
    first: TokenView,
    second: TokenView,
    report: Option<TokenValidationView>,
)
    requires
        first.raw_token == second.raw_token,
    ensures
        augmentation(first, report) == augmentation(second, report),
{
}

/// Augmenting an augmented token again gives the same token, as long as the
/// validator reports the same of it.
pub proof fn lemma_augmentation_idempotent(token: TokenView, report: Option<TokenValidationView>)
    requires
        augmentation(token, report) is Ok,
    ensures
        augmentation(augmentation(token, report)->Ok_0, report) == augmentation(token, report),
{
}

/// A subject that the catalog files under a variant is decoded under the
/// schema of that variant.
pub proof fn lemma_schema_agrees_with_variant(subject: Seq<char>, kind: TokenType)
    requires
        variant_of(subject) == Some(kind),
    ensures
        schema_of(subject) == kind,
{
}

/// Selects the schema for a subject.
pub fn claims_schema(subject: &str) -> (r: TokenType)
    ensures
        r == schema_of(subject@),
{
    if starts_with_char(subject, 'O') {
        TokenType::Operator
    } else if starts_with_char(subject, 'A') {
        TokenType::Account
    } else {
        TokenType::Actor
    }
}

/// Builds the augmented copy of `token` from its decoded claims and the
/// validator's report; `None` stands for a decoder or a validator that failed.
pub fn augment_with(
    token: Token,
    claims_json: Option<String>,
    report: Option<TokenValidation>,
) -> (r: Result<Token, ErrorKind>)
    ensures
        token_outcome_view(r) == augmented(token@, text_view(claims_json), report_view(report)),
{
    match claims_json {
        Some(json) => match report {
            Some(report) => Ok(
                Token {
                    raw_token: token.raw_token,
                    decoded_token_json: json,
                    validation_result: Some(report),
                },
            ),
            None => Err(ErrorKind::InvalidToken),
        },
        None => Err(ErrorKind::InvalidToken),
    }
}

/// Decodes the claims of a raw token under the given schema, and writes them
/// out as JSON.
pub fn claims_json_under(raw: &str, schema: TokenType) -> (r: Option<String>)
    ensures
        text_view(r) == schema_json(raw@, schema),
{
    match schema {
        TokenType::Operator => operator_claims_json(raw),
        TokenType::Account => account_claims_json(raw),
        TokenType::Actor => actor_claims_json(raw),
    }
}

/// Decodes the claims of a raw token under the schema that its subject
/// selects, and writes them out as JSON.
pub fn decode_claims_json(raw: &str) -> (r: Option<String>)
    ensures
        text_view(r) == canonical_json(raw@),
{
    match peek_subject(raw) {
        None => None,
        Some(subject) => claims_json_under(raw, claims_schema(subject.as_str())),
    }
}

/// Validates a raw token under the given schema. What the report says of the
/// token's dates depends on the time of the call.
fn validate(raw: &str, schema: TokenType) -> (r: Option<TokenValidation>)
    ensures
        r.is_some() == schema_signature(raw@, schema).is_some(),
        r.is_some() ==> r.unwrap().signature_valid == schema_signature(raw@, schema).unwrap(),
{
    match schema {
        TokenType::Operator => validate_operator(raw),
        TokenType::Account => validate_account(raw),
        TokenType::Actor => validate_actor(raw),
    }
}

/// Opens and validates a token, and gives its augmented copy.
///
/// The token is augmented where its claims decode and the validator reports
/// no error, and is invalid otherwise. The copy keeps the raw string, carries
/// the decoded claims, and carries the validator's report: what the report
/// says of the signature is told by the raw string, what it says of the
/// token's dates by the time of the call.
pub fn augment_token(token: Token) -> (r: Result<Token, ErrorKind>)
    ensures
        r is Ok <==> augmentable(token.raw_token@),
        r matches Ok(t) ==> {
            &&& augmentation(token@, t@.validation_result) == Ok::<TokenView, ErrorKind>(t@)
            &&& t.validation_result matches Some(report)
            &&& Some(report.signature_valid) == checked_signature(token.raw_token@)
        },
        r matches Err(e) ==> e == ErrorKind::InvalidToken,
{
    let subject: String = match peek_subject(token.raw_token.as_str()) {
        Some(subject) => subject,
        None => {
            return Err(ErrorKind::InvalidToken);
        },
    };
    let schema: TokenType = claims_schema(subject.as_str());
    let claims_json: Option<String> = claims_json_under(token.raw_token.as_str(), schema);
    if claims_json.is_none() {
        return Err(ErrorKind::InvalidToken);
    }
    let report: Option<TokenValidation> = validate(token.raw_token.as_str(), schema);
    augment_with(token, claims_json, report)
}

/// A put on its way to the catalog, with the augmented token in place of the
/// one that came in. It is still to be encoded: first the token, as the body of
/// a broker message with the reply subject and the subject given here, then
/// that message, as the argument of an invocation with the origin and the
/// operation given here.
#[derive(Debug, PartialEq)]
pub struct AugmentedPut {
    pub token: Token,
    pub reply_to: String,
    pub subject: String,
    pub origin: String,
    pub operation: String,
}

/// An augmented put as mathematical data.
pub struct AugmentedPutView {
    pub token: TokenView,
    pub reply_to: Seq<char>,
    pub subject: Seq<char>,
    pub origin: Seq<char>,
    pub operation: Seq<char>,
}

impl View for AugmentedPut {
    type V = AugmentedPutView;

    open spec fn view(&self) -> AugmentedPutView {
        AugmentedPutView {
            token: self.token@,
            reply_to: self.reply_to@,
            subject: self.subject@,
            origin: self.origin@,
            operation: self.operation@,
        }
    }
}

/// Wraps an augmented token again as it came: the reply subject and the
/// subject of the message, the origin and the operation of the invocation are
/// kept as they are.
pub fn rewrap(
    token: Token,
    reply_to: String,
    subject: String,
    inv: &Invocation,
) -> (r: AugmentedPut)
    ensures
        r@ == (AugmentedPutView {
            token: token@,
            reply_to: reply_to@,
            subject: subject@,
            origin: inv.origin@,
            operation: inv.operation@,
        }),
{
    AugmentedPut {
        token,
        reply_to,
        subject,
        origin: inv.origin.clone(),
        operation: inv.operation.clone(),
    }
}

/// Augments the token of a put and wraps it again for the catalog.
///
/// `token` is the token that the body of the delivered message decodes to,
/// `reply_to` and `subject` are those of the message, and `inv` is the
/// invocation that delivered it.
pub fn augment_token_message(
    token: Token,
    reply_to: String,
    subject: String,
    inv: &Invocation,
) -> (r: Result<AugmentedPut, ErrorKind>)
    ensures
        r is Ok <==> augmentable(token.raw_token@),
        r matches Ok(put) ==> {
            &&& augmentation(token@, put.token@.validation_result) == Ok::<TokenView, ErrorKind>(
                put.token@,
            )
            &&& put.token.validation_result matches Some(report)
            &&& Some(report.signature_valid) == checked_signature(token.raw_token@)
            &&& put.reply_to@ == reply_to@
            &&& put.subject@ == subject@
            &&& put.origin@ == inv.origin@
            &&& put.operation@ == inv.operation@
        },
        r matches Err(e) ==> e == ErrorKind::InvalidToken,
{
    match augment_token(token) {
        Ok(new_token) => Ok(rewrap(new_token, reply_to, subject, inv)),
        Err(e) => Err(e),
    }
}

/// What the middleware does with an invocation before a service sees it.
#[derive(Debug, PartialEq, Eq, Clone, Copy, Structural)]
pub enum PreInvoke {
    /// Hand the invocation on as it is.
    Forward,
    /// Augment the token in the body of the delivered message first.
    Augment,
}

/// Whether the invocation delivers a put to the catalog: its operation
/// delivers a broker message, and the message was published on the subject of
/// puts.
pub open spec fn delivers_put(operation: Seq<char>, subject: Option<Seq<char>>) -> bool {
    operation == OP_DELIVER_MESSAGE@ && subject == Some(SUBJECT_CATALOG_PUT_TOKEN@)
}

/// The middleware that decodes and validates the tokens of puts.
pub struct JWTDecoder {}

impl JWTDecoder {
    /// A middleware, ready to be put before the catalog.
    pub fn new() -> (r: Self)
        ensures
            r == (JWTDecoder {  }),
    {
        JWTDecoder {  }
    }

    /// Whether the invocation's argument is a broker message, which
    /// `actor_pre_invoke` wants decoded.
    pub fn delivers_message(&self, inv: &Invocation) -> (r: bool)
        ensures
            r == (inv.operation@ == OP_DELIVER_MESSAGE@),
    {
        text_eq(inv.operation.as_str(), OP_DELIVER_MESSAGE)
    }

    /// Decides what to do with an invocation on its way to an actor.
    /// `message` is the broker message that the invocation delivers, if it
    /// delivers one. Only a put to the catalog is augmented.
    pub fn actor_pre_invoke(
        &self,
        inv: &Invocation,
        message: Option<&BrokerMessage>,
    ) -> (r: PreInvoke)
        ensures
            r == (if delivers_put(
                inv.operation@,
                match message {
                    Some(m) => Some(m.subject@),
                    None => None,
                },
            ) {
                PreInvoke::Augment
            } else {
                PreInvoke::Forward
            }),
    {
        if self.delivers_message(inv) {
            match message {
                Some(m) => {
                    if text_eq(m.subject.as_str(), SUBJECT_CATALOG_PUT_TOKEN) {
                        return PreInvoke::Augment;
                    }
                },
                None => {},
            }
        }
        PreInvoke::Forward
    }

    /// Hands the answer of an actor on as it is.
    pub fn actor_post_invoke(&self, response: InvocationResponse) -> (r: InvocationResponse)
        ensures
            r == response,
    {
        response
    }

    /// Hands an invocation on its way to a capability on as it is.
    pub fn capability_pre_invoke(&self, inv: Invocation) -> (r: Invocation)
        ensures
            r == inv,
    {
        inv
    }

    /// Hands the answer of a capability on as it is.
    pub fn capability_post_invoke(&self, response: InvocationResponse) -> (r: InvocationResponse)
        ensures
            r == response,
    {
        response
    }
}

} // verus!
