//! The catalog service: it stores validated tokens and answers queries.
//!
//! The service never touches the key-value store or the broker itself. A put
//! yields the writes to make and the reply to publish; a query is answered from
//! the rows that were read for it.

use vstd::prelude::*;

use crate::errors::ErrorKind;
use crate::json::json_document;
use crate::json::nested_text_at;
use crate::json::nested_text_member;
use crate::json::nested_unsigned_at;
use crate::json::nested_unsigned_member;
use crate::json::parse;
use crate::json::text_at;
use crate::json::text_member;
use crate::json::text_view;
use crate::keyspace::apply_all;
use crate::keyspace::consistent;
use crate::keyspace::lemma_four_writes;
use crate::keyspace::lemma_put_keeps_consistent;
use crate::keyspace::lemma_put_stores_token;
use crate::keyspace::lemma_raw_key_is_no_token_key;
use crate::keyspace::lemma_token_key_injective;
use crate::keyspace::lemma_value_keys_differ;
use crate::keyspace::members;
use crate::keyspace::put_writes;
use crate::keyspace::Store;
use crate::keyspace::op_views;
use crate::keyspace::revisions_key;
use crate::keyspace::token_key;
use crate::keyspace::token_key_of;
use crate::keyspace::token_raw_key;
use crate::keyspace::token_type;
use crate::keyspace::variant_key;
use crate::keyspace::variant_key_of;
use crate::keyspace::variant_of;
use crate::keyspace::KvOp;
use crate::keyspace::KvOpView;
use crate::protocol::catalog::CatalogQuery;
use crate::protocol::catalog::CatalogQueryResult;
use crate::protocol::catalog::CatalogQueryResultView;
use crate::protocol::catalog::CatalogQueryResults;
use crate::protocol::catalog::CatalogQueryView;
use crate::protocol::catalog::Token;
use crate::protocol::catalog::TokenView;
use crate::protocol::catalog::SUBJECT_CATALOG_PUT_TOKEN;
use crate::protocol::catalog::SUBJECT_CATALOG_QUERY;
use crate::text::comma;
use crate::text::decimal_string;
use crate::text::owned;
use crate::text::split;
use crate::text::split_commas;
use crate::text::text_eq;
use crate::text::views;

verus! {

/// What the catalog reads out of a token's decoded claims.
#[derive(Debug, PartialEq)]
pub struct Claims {
    /// The member `sub`: the public key that the token is about.
    pub subject: Option<String>,
    /// The member `iss`: the public key that signed the token.
    pub issuer: Option<String>,
    /// The member `name` of the member `wascap`.
    pub name: Option<String>,
    /// The member `revision` of the member `metadata`.
    pub revision: Option<u64>,
}

/// Claims as mathematical data.
pub struct ClaimsView {
    pub subject: Option<Seq<char>>,
    pub issuer: Option<Seq<char>>,
    pub name: Option<Seq<char>>,
    pub revision: Option<u64>,
}

impl View for Claims {
    type V = ClaimsView;

    open spec fn view(&self) -> ClaimsView {
        ClaimsView {
            subject: text_view(self.subject),
            issuer: text_view(self.issuer),
            name: text_view(self.name),
            revision: self.revision,
        }
    }
}

/// The view of claims that may be missing.
pub open spec fn claims_view(claims: Option<Claims>) -> Option<ClaimsView> {
    match claims {
        Some(c) => Some(c@),
        None => None,
    }
}

/// The claims that a parsed document holds.
pub open spec fn claims_in(doc: serde_json::Value) -> ClaimsView {
    ClaimsView {
        subject: text_member(doc, "sub"@),
        issuer: text_member(doc, "iss"@),
        name: nested_text_member(doc, "wascap"@, "name"@),
        revision: nested_unsigned_member(doc, "metadata"@, "revision"@),
    }
}

/// The claims that a JSON text holds; none where the text is not JSON.
pub open spec fn claims_of(text: Seq<char>) -> Option<ClaimsView> {
    match json_document(text) {
        Some(doc) => Some(claims_in(doc)),
        None => None,
    }
}

/// The revision that claims speak of: 0 where they name none.
pub open spec fn revision_of(claims: ClaimsView) -> u64 {
    match claims.revision {
        Some(n) => n,
        None => 0,
    }
}

/// The text that stands for a field that could not be read.
pub open spec fn unknown() -> Seq<char> {
    "??"@
}

/// The text itself, or `fallback` where there is none.
pub open spec fn text_or(text: Option<Seq<char>>, fallback: Seq<char>) -> Seq<char> {
    match text {
        Some(t) => t,
        None => fallback,
    }
}

/// Reads the claims out of a parsed document.
pub fn read_claims(doc: &serde_json::Value) -> (r: Claims)
    ensures
        r@ == claims_in(*doc),
{
    Claims {
        subject: text_at(doc, "sub"),
        issuer: text_at(doc, "iss"),
        name: nested_text_at(doc, "wascap", "name"),
        revision: nested_unsigned_at(doc, "metadata", "revision"),
    }
}

/// Parses a JSON text and reads the claims out of it.
pub fn decode_claims(text: &str) -> (r: Option<Claims>)
    ensures
        claims_view(r) == claims_of(text@),
{
    match parse(text) {
        Some(doc) => Some(read_claims(&doc)),
        None => None,
    }
}

/// The revision that the claims speak of, 0 where they name none.
pub fn revision(claims: &Claims) -> (r: u64)
    ensures
        r == revision_of(claims@),
{
    match claims.revision {
        Some(n) => n,
        None => 0,
    }
}

fn text_or_else(text: &Option<String>, fallback: &str) -> (r: String)
    ensures
        r@ == text_or(text_view(*text), fallback@),
{
    match text {
        Some(t) => t.clone(),
        None => owned(fallback),
    }
}

/// What the catalog does for a put: the writes to make, in order, and the
/// reply to publish once they are made.
#[derive(Debug, PartialEq)]
pub struct PutPlan {
    pub writes: Vec<KvOp>,
    pub reply: CatalogQueryResult,
}

/// A put plan as mathematical data.
pub struct PutPlanView {
    pub writes: Seq<KvOpView>,
    pub reply: CatalogQueryResultView,
}

impl View for PutPlan {
    type V = PutPlanView;

    open spec fn view(&self) -> PutPlanView {
        PutPlanView { writes: op_views(self.writes@), reply: self.reply@ }
    }
}

/// The view of the outcome of a put.
pub open spec fn outcome_view(outcome: Result<PutPlan, ErrorKind>) -> Result<
    PutPlanView,
    ErrorKind,
> {
    match outcome {
        Ok(plan) => Ok(plan@),
        Err(e) => Err(e),
    }
}

/// Whether the catalog stores the token: it has been validated, its signature
/// is valid and it has not expired.
pub open spec fn storable(token: TokenView) -> bool {
    match token.validation_result {
        Some(v) => v.signature_valid && !v.expired,
        None => false,
    }
}

/// The reply to a put.
pub open spec fn put_reply(claims: ClaimsView) -> CatalogQueryResultView {
    CatalogQueryResultView {
        subject: text_or(claims.subject, unknown()),
        issuer: text_or(claims.issuer, unknown()),
        name: text_or(claims.name, "Anonymous"@),
        actor: None,
    }
}

/// What storing `token` under `subject` comes to. The token is refused where
/// it is not storable or the subject is of no variant. Otherwise the writes
/// are those of `put_writes` for the revision that the claims name.
pub open spec fn write_outcome(subject: Seq<char>, token: TokenView, claims: ClaimsView) -> Result<
    PutPlanView,
    ErrorKind,
> {
    if !storable(token) {
        Err(ErrorKind::InvalidToken)
    } else {
        match variant_of(subject) {
            None => Err(ErrorKind::InvalidToken),
            Some(kind) => Ok(
                PutPlanView {
                    writes: put_writes(
                        subject,
                        revision_of(claims),
                        kind,
                        token.decoded_token_json,
                        token.raw_token,
                    ),
                    reply: put_reply(claims),
                },
            ),
        }
    }
}

/// What a put comes to, given the claims read from the token's decoded JSON.
/// The token is refused where that JSON could not be read or names no subject;
/// otherwise it is stored under the subject that the claims name.
pub open spec fn put_outcome(token: TokenView, claims: Option<ClaimsView>) -> Result<
    PutPlanView,
    ErrorKind,
> {
    match claims {
        None => Err(ErrorKind::InvalidToken),
        Some(c) => match c.subject {
            None => Err(ErrorKind::InvalidToken),
            Some(subject) => write_outcome(subject, token, c),
        },
    }
}

/// The writes that the catalog plans for a token keep a consistent store
/// consistent, and so does every beginning of them: whichever write is the last
/// to succeed, every subject in a variant set still has a revision on file, and
/// no subject is in two variant sets.
pub proof fn lemma_planned_writes_keep_consistent(
    store: Store,
    subject: Seq<char>,
    token: TokenView,
    claims: ClaimsView,
    made: int,
)
    requires
        consistent(store),
        write_outcome(subject, token, claims) is Ok,
        0 <= made <= write_outcome(subject, token, claims)->Ok_0.writes.len(),
    ensures
        consistent(apply_all(store, write_outcome(subject, token, claims)->Ok_0.writes.take(made))),
{
    let kind = variant_of(subject)->Some_0;
    lemma_put_keeps_consistent(
        store,
        subject,
        revision_of(claims),
        kind,
        token.decoded_token_json,
        token.raw_token,
        made,
    );
}

/// Plans the storing of `token` under `subject`:
/// the decoded claims under `gantry:tokens:{subject}:{revision}`,
/// the raw token under `gantry:tokens:{subject}:{revision}:raw`,
/// the revision into `gantry:tokens:{subject}:revisions`,
/// and the subject into `gantry:actors`, `gantry:operators` or
/// `gantry:accounts`, as its first character tells.
pub fn write_token(
    subject: &str,
    token: &Token,
    claims: &Claims,
) -> (r: Result<PutPlan, ErrorKind>)
    ensures
        outcome_view(r) == write_outcome(subject@, token@, claims@),
{
    let valid: bool = match &token.validation_result {
        Some(v) => v.signature_valid && !v.expired,
        None => false,
    };
    if !valid {
        return Err(ErrorKind::InvalidToken);
    }
    let kind = match token_type(subject) {
        Some(kind) => kind,
        None => {
            return Err(ErrorKind::InvalidToken);
        },
    };
    let number: u64 = revision(claims);
    let mut writes: Vec<KvOp> = Vec::new();
    writes.push(
        KvOp::SetValue { key: token_key(subject, number), value: token.decoded_token_json.clone() },
    );
    writes.push(
        KvOp::SetValue { key: token_raw_key(subject, number), value: token.raw_token.clone() },
    );
    writes.push(KvOp::SetAdd { key: revisions_key(subject), member: decimal_string(number) });
    writes.push(KvOp::SetAdd { key: variant_key(kind), member: owned(subject) });
    let reply = CatalogQueryResult {
        subject: text_or_else(&claims.subject, "??"),
        issuer: text_or_else(&claims.issuer, "??"),
        name: text_or_else(&claims.name, "Anonymous"),
        actor: None,
    };
    proof {
        assert(op_views(writes@) =~= put_writes(
            subject@,
            revision_of(claims@),
            kind,
            token.decoded_token_json@,
            token.raw_token@,
        ));
    }
    Ok(PutPlan { writes, reply })
}

/// Plans a put, given the claims that were read from the token's decoded JSON;
/// `None` where that JSON could not be read.
pub fn put_claims(token: &Token, claims: Option<&Claims>) -> (r: Result<PutPlan, ErrorKind>)
    ensures
        outcome_view(r) == put_outcome(
            token@,
            match claims {
                Some(c) => Some(c@),
                None => None,
            },
        ),
{
    match claims {
        None => Err(ErrorKind::InvalidToken),
        Some(c) => match &c.subject {
            None => Err(ErrorKind::InvalidToken),
            Some(subject) => write_token(subject.as_str(), token, c),
        },
    }
}

/// Plans a put: reads the claims from the token's decoded JSON and plans the
/// storing of the token under the subject that they name.
pub fn put_token(token: &Token) -> (r: Result<PutPlan, ErrorKind>)
    ensures
        outcome_view(r) == put_outcome(token@, claims_of(token.decoded_token_json@)),
{
    let claims: Option<Claims> = decode_claims(token.decoded_token_json.as_str());
    put_claims(token, claims.as_ref())
}

/// What the store holds for one subject of the set that a query enumerates:
/// the record under the key of the subject's revision 0, if there is one.
#[derive(Debug, PartialEq)]
pub struct StoredToken {
    pub subject: String,
    pub record: Option<String>,
}

/// A stored token as mathematical data.
pub struct StoredTokenView {
    pub subject: Seq<char>,
    pub record: Option<Seq<char>>,
}

impl View for StoredToken {
    type V = StoredTokenView;

    open spec fn view(&self) -> StoredTokenView {
        StoredTokenView { subject: self.subject@, record: text_view(self.record) }
    }
}

/// The views of a list of stored tokens, in order.
pub open spec fn stored_views(rows: Seq<StoredToken>) -> Seq<StoredTokenView> {
    rows.map_values(|row: StoredToken| row@)
}

/// The key of the record that a query reads for `subject`: that of revision 0.
pub open spec fn row_key_of(subject: Seq<char>) -> Seq<char> {
    token_key_of(subject, 0)
}

/// The row that a query gives for `subject`, from the claims read of its
/// record. A field that could not be read shows as `??`.
pub open spec fn row_of(subject: Seq<char>, claims: Option<ClaimsView>) -> CatalogQueryResultView {
    CatalogQueryResultView {
        subject: subject,
        issuer: match claims {
            Some(c) => text_or(c.issuer, unknown()),
            None => unknown(),
        },
        name: match claims {
            Some(c) => text_or(c.name, unknown()),
            None => unknown(),
        },
        actor: None,
    }
}

/// The row that a query gives for a stored token: a record that is missing or
/// is not JSON gives a row of unknown fields.
pub open spec fn stored_row(row: StoredTokenView) -> CatalogQueryResultView {
    row_of(
        row.subject,
        match row.record {
            Some(text) => claims_of(text),
            None => None,
        },
    )
}

/// Whether a query keeps a row: every row where it names no issuer, else the
/// rows of that issuer.
pub open spec fn wanted(query: CatalogQueryView, row: CatalogQueryResultView) -> bool {
    match query.issuer {
        Some(issuer) => row.issuer == issuer,
        None => true,
    }
}

/// The rows of all stored tokens, in order.
pub open spec fn all_rows(rows: Seq<StoredTokenView>) -> Seq<CatalogQueryResultView> {
    rows.map_values(|row: StoredTokenView| stored_row(row))
}

/// The test by which a query keeps or drops a row.
pub open spec fn keeps(query: CatalogQueryView) -> spec_fn(CatalogQueryResultView) -> bool {
    |row: CatalogQueryResultView| wanted(query, row)
}

/// The answer to a query: the rows of the stored tokens that the query keeps,
/// in the order of the stored tokens.
pub open spec fn query_answer(query: CatalogQueryView, rows: Seq<StoredTokenView>) -> Seq<
    CatalogQueryResultView,
> {
    all_rows(rows).filter(keeps(query))
}

/// What a query reads of the store for one subject: the record of the
/// subject's revision 0, if it is on file.
pub open spec fn stored_token(store: Store, subject: Seq<char>) -> StoredTokenView {
    StoredTokenView {
        subject: subject,
        record: if store.values.dom().contains(row_key_of(subject)) {
            Some(store.values[row_key_of(subject)])
        } else {
            None
        },
    }
}

/// After a token was stored, a query finds its subject in the set of its
/// variant. Where the token was of revision 0, the query shows the subject
/// with the issuer and the name of the token's claims. Where it was of another
/// revision and no revision 0 was on file, the query shows the subject with
/// unknown fields: a query reads revision 0 and no other.
pub proof fn lemma_query_reads_first_revision(
    store: Store,
    subject: Seq<char>,
    token: TokenView,
    claims: ClaimsView,
)
    requires
        write_outcome(subject, token, claims) is Ok,
    ensures
        ({
            let plan = write_outcome(subject, token, claims)->Ok_0;
            let after = apply_all(store, plan.writes);
            let shown = stored_row(stored_token(after, subject));
            &&& members(after, variant_key_of(variant_of(subject)->Some_0)).contains(subject)
            &&& revision_of(claims) == 0 ==> shown == row_of(
                subject,
                claims_of(token.decoded_token_json),
            )
            &&& revision_of(claims) != 0 && !store.values.dom().contains(row_key_of(subject))
                ==> shown == row_of(subject, None)
        }),
{
    let plan = write_outcome(subject, token, claims)->Ok_0;
    let kind = variant_of(subject)->Some_0;
    let revision = revision_of(claims);
    lemma_four_writes(store, plan.writes);
    lemma_put_stores_token(
        store,
        subject,
        revision,
        kind,
        token.decoded_token_json,
        token.raw_token,
    );
    lemma_value_keys_differ(subject, revision);
    lemma_raw_key_is_no_token_key(subject, revision, subject, 0);
    if revision != 0 {
        if token_key_of(subject, revision) == token_key_of(subject, 0) {
            lemma_token_key_injective(subject, revision, subject, 0);
        }
    }
}

/// The key of the record that a query reads for `subject`.
pub fn row_key(subject: &str) -> (r: String)
    ensures
        r@ == row_key_of(subject@),
{
    token_key(subject, 0)
}

/// The row of `subject`, given the claims that were read of its record; `None`
/// where there was no record or it could not be read.
pub fn query_row(subject: &str, claims: Option<&Claims>) -> (r: CatalogQueryResult)
    ensures
        r@ == row_of(
            subject@,
            match claims {
                Some(c) => Some(c@),
                None => None,
            },
        ),
{
    match claims {
        Some(c) => CatalogQueryResult {
            subject: owned(subject),
            issuer: text_or_else(&c.issuer, "??"),
            name: text_or_else(&c.name, "??"),
            actor: None,
        },
        None => CatalogQueryResult {
            subject: owned(subject),
            issuer: owned("??"),
            name: owned("??"),
            actor: None,
        },
    }
}

/// The row of a stored token.
pub fn stored_token_row(row: &StoredToken) -> (r: CatalogQueryResult)
    ensures
        r@ == stored_row(row@),
{
    let claims: Option<Claims> = match &row.record {
        Some(text) => decode_claims(text.as_str()),
        None => None,
    };
    query_row(row.subject.as_str(), claims.as_ref())
}

/// Whether the query keeps the row.
pub fn query_keeps(query: &CatalogQuery, row: &CatalogQueryResult) -> (r: bool)
    ensures
        r == wanted(query@, row@),
{
    match &query.issuer {
        Some(issuer) => text_eq(row.issuer.as_str(), issuer.as_str()),
        None => true,
    }
}

/// Answers a query from the stored tokens of the subjects in the set that the
/// query enumerates. One bad record never fails the query.
pub fn query_catalog(query: &CatalogQuery, rows: &Vec<StoredToken>) -> (r: CatalogQueryResults)
    ensures
        r@ == query_answer(query@, stored_views(rows@)),
{
    let mut results: Vec<CatalogQueryResult> = Vec::new();
    let mut i: usize = 0;
    proof {
        reveal(Seq::filter);
        assert(stored_views(rows@).take(0) =~= Seq::<StoredTokenView>::empty());
        assert(all_rows(stored_views(rows@).take(0)) =~= Seq::<CatalogQueryResultView>::empty());
        assert(results@.map_values(|r: CatalogQueryResult| r@) =~= Seq::<
            CatalogQueryResultView,
        >::empty());
    }
    while i < rows.len()
        invariant
            i <= rows.len(),
            results@.map_values(|r: CatalogQueryResult| r@) == query_answer(
                query@,
                stored_views(rows@).take(i as int),
            ),
        decreases rows.len() - i,
    {
        let row: CatalogQueryResult = stored_token_row(&rows[i]);
        let keep: bool = query_keeps(query, &row);
        let ghost before = results@.map_values(|r: CatalogQueryResult| r@);
        let ghost seen = stored_views(rows@).take(i as int);
        let ghost next = stored_views(rows@).take(i + 1);
        proof {
            reveal(Seq::filter);
            assert(next =~= seen.push(rows@[i as int]@));
            assert(all_rows(next) =~= all_rows(seen).push(row@));
            assert(all_rows(next).drop_last() =~= all_rows(seen));
            assert(all_rows(next).last() == row@);
            assert(keeps(query@)(row@) == wanted(query@, row@));
        }
        if keep {
            results.push(row);
            proof {
                assert(results@.map_values(|r: CatalogQueryResult| r@) =~= before.push(row@));
            }
        }
        i += 1;
    }
    proof {
        assert(stored_views(rows@).take(rows.len() as int) =~= stored_views(rows@));
    }
    CatalogQueryResults { results }
}

/// What a message on a subject asks of the catalog.
#[derive(Debug, PartialEq, Eq, Clone, Copy, Structural)]
pub enum CatalogRequest {
    /// Store the token in the body.
    PutToken,
    /// Answer the query in the body.
    Query,
}

/// The request that a subject stands for.
pub open spec fn request_on(subject: Seq<char>) -> Result<CatalogRequest, ErrorKind> {
    if subject == SUBJECT_CATALOG_PUT_TOKEN@ {
        Ok(CatalogRequest::PutToken)
    } else if subject == SUBJECT_CATALOG_QUERY@ {
        Ok(CatalogRequest::Query)
    } else {
        Err(ErrorKind::UnknownSubject)
    }
}

/// Tells from its subject what a delivered message asks for.
pub fn handle_message(subject: &str) -> (r: Result<CatalogRequest, ErrorKind>)
    ensures
        r == request_on(subject@),
{
    if text_eq(subject, SUBJECT_CATALOG_PUT_TOKEN) {
        Ok(CatalogRequest::PutToken)
    } else if text_eq(subject, SUBJECT_CATALOG_QUERY) {
        Ok(CatalogRequest::Query)
    } else {
        Err(ErrorKind::UnknownSubject)
    }
}

/// The public keys that the catalog is configured with: the operator's, then
/// those of the comma-separated list of signers, in order.
pub open spec fn signers_of(operator: Seq<char>, signers: Seq<char>) -> Seq<Seq<char>> {
    seq![operator] + split(signers, comma())
}

/// Reads the catalog's configuration: the operator's public key and the
/// comma-separated list of the public keys of its signers.
pub fn handle_config(operator: &str, signers: &str) -> (r: Vec<String>)
    ensures
        views(r@) == signers_of(operator@, signers@),
{
    let mut keys: Vec<String> = Vec::new();
    keys.push(owned(operator));
    let mut rest: Vec<String> = split_commas(signers);
    let ghost first = views(keys@);
    let ghost others = views(rest@);
    keys.append(&mut rest);
    proof {
        assert(views(keys@) =~= first + others);
        assert(first =~= seq![operator@]);
    }
    keys
}

/// The answer to a health request: an empty body.
pub fn health() -> (r: Vec<u8>)
    ensures
        r@.len() == 0,
{
    Vec::new()
}

} // verus!
