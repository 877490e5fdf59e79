//! Records of the catalog: tokens, queries and their results.
//!
//! The catalog supports the following operations:
//! * `put` adds a token to the catalog
//! * `query` lists the tokens of one kind
//! * `delete` is reserved: it does not remove anything from storage

use vstd::prelude::*;

use crate::text::views;

verus! {

pub const SUBJECT_CATALOG_PUT_TOKEN: &'static str = "gantry.catalog.tokens.put";

pub const SUBJECT_CATALOG_DELETE_TOKEN: &'static str = "gantry.catalog.tokens.delete";

pub const SUBJECT_CATALOG_QUERY: &'static str = "gantry.catalog.tokens.query";

/// What a validator reported of a signed token.
#[derive(Debug, PartialEq)]
pub struct TokenValidation {
    pub expired: bool,
    pub expires_human: String,
    pub not_before_human: String,
    pub cannot_use_yet: bool,
    pub signature_valid: bool,
}

/// A validation report as mathematical data.
pub struct TokenValidationView {
    pub expired: bool,
    pub expires_human: Seq<char>,
    pub not_before_human: Seq<char>,
    pub cannot_use_yet: bool,
    pub signature_valid: bool,
}

impl View for TokenValidation {
    type V = TokenValidationView;

    open spec fn view(&self) -> TokenValidationView {
        TokenValidationView {
            expired: self.expired,
            expires_human: self.expires_human@,
            not_before_human: self.not_before_human@,
            cannot_use_yet: self.cannot_use_yet,
            signature_valid: self.signature_valid,
        }
    }
}

/// A signed token: the raw signed string, and, once the middleware has seen
/// it, the decoded claims as JSON and the validator's report. Actors, accounts
/// and operators are all identified by tokens.
#[derive(Debug, PartialEq)]
pub struct Token {
    pub raw_token: String,
    pub decoded_token_json: String,
    pub validation_result: Option<TokenValidation>,
}

/// A token as mathematical data.
pub struct TokenView {
    pub raw_token: Seq<char>,
    pub decoded_token_json: Seq<char>,
    pub validation_result: Option<TokenValidationView>,
}

impl View for Token {
    type V = TokenView;

    open spec fn view(&self) -> TokenView {
        TokenView {
            raw_token: self.raw_token@,
            decoded_token_json: self.decoded_token_json@,
            validation_result: match self.validation_result {
                Some(v) => Some(v@),
                None => None,
            },
        }
    }
}

/// The metadata on file for an actor: roughly what its signed token holds,
/// without the actor's bytes.
#[derive(Debug, PartialEq, Clone)]
pub struct ActorSummary {
    pub public_key: String,
    pub capabilities: Vec<String>,
    pub provider: bool,
    pub tags: Vec<String>,
    pub version: String,
    pub revision: u64,
    pub account: String,
    pub name: String,
}

/// An actor summary as mathematical data.
pub struct ActorSummaryView {
    pub public_key: Seq<char>,
    pub capabilities: Seq<Seq<char>>,
    pub provider: bool,
    pub tags: Seq<Seq<char>>,
    pub version: Seq<char>,
    pub revision: u64,
    pub account: Seq<char>,
    pub name: Seq<char>,
}

impl View for ActorSummary {
    type V = ActorSummaryView;

    open spec fn view(&self) -> ActorSummaryView {
        ActorSummaryView {
            public_key: self.public_key@,
            capabilities: views(self.capabilities@),
            provider: self.provider,
            tags: views(self.tags@),
            version: self.version@,
            revision: self.revision,
            account: self.account@,
            name: self.name@,
        }
    }
}

/// The metadata on file for an account.
#[derive(Debug, PartialEq)]
pub struct AccountSummary {
    pub public_key: String,
    pub name: String,
}

/// An account summary as mathematical data.
pub struct AccountSummaryView {
    pub public_key: Seq<char>,
    pub name: Seq<char>,
}

impl View for AccountSummary {
    type V = AccountSummaryView;

    open spec fn view(&self) -> AccountSummaryView {
        AccountSummaryView { public_key: self.public_key@, name: self.name@ }
    }
}

/// The kind of token that a query lists.
#[derive(Debug, PartialEq, Eq, Clone, Copy, Structural)]
pub enum QueryType {
    Actor,
    Account,
    Operator,
}

/// A query: the kind of token to list, and optionally the issuer to keep.
#[derive(Debug, PartialEq)]
pub struct CatalogQuery {
    pub query_type: QueryType,
    pub issuer: Option<String>,
}

/// A query as mathematical data.
pub struct CatalogQueryView {
    pub query_type: QueryType,
    pub issuer: Option<Seq<char>>,
}

impl View for CatalogQuery {
    type V = CatalogQueryView;

    open spec fn view(&self) -> CatalogQueryView {
        CatalogQueryView {
            query_type: self.query_type,
            issuer: match self.issuer {
                Some(s) => Some(s@),
                None => None,
            },
        }
    }
}

/// One row of a query's answer, and the answer to a put.
#[derive(Debug, PartialEq)]
pub struct CatalogQueryResult {
    pub subject: String,
    pub issuer: String,
    pub name: String,
    pub actor: Option<ActorSummary>,
}

/// A result row as mathematical data.
pub struct CatalogQueryResultView {
    pub subject: Seq<char>,
    pub issuer: Seq<char>,
    pub name: Seq<char>,
    pub actor: Option<ActorSummaryView>,
}

impl View for CatalogQueryResult {
    type V = CatalogQueryResultView;

    open spec fn view(&self) -> CatalogQueryResultView {
        CatalogQueryResultView {
            subject: self.subject@,
            issuer: self.issuer@,
            name: self.name@,
            actor: match self.actor {
                Some(a) => Some(a@),
                None => None,
            },
        }
    }
}

/// The answer to a query.
#[derive(Debug, PartialEq)]
pub struct CatalogQueryResults {
    pub results: Vec<CatalogQueryResult>,
}

impl View for CatalogQueryResults {
    type V = Seq<CatalogQueryResultView>;

    open spec fn view(&self) -> Seq<CatalogQueryResultView> {
        self.results@.map_values(|r: CatalogQueryResult| r@)
    }
}

} // verus!
