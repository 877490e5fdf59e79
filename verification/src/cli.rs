//! What the command line tool computes between reading its arguments and
//! talking to the registry.

use vstd::prelude::*;
use vstd::string::StringExecFns;

use crate::client::CHUNK_SIZE;
use crate::errors::ErrorKind;
use crate::jwt::embedded_subject;
use crate::jwt::module_subject;
use crate::protocol::catalog::CatalogQuery;
use crate::protocol::catalog::CatalogQueryResult;
use crate::protocol::catalog::QueryType;
use crate::protocol::catalog::Token;
use crate::protocol::catalog::TokenView;
use crate::protocol::stream::FileChunk;
use crate::protocol::stream::UploadRequest;
use crate::protocol::stream::UploadRequestView;
use crate::streams::chunk_len;
use crate::streams::lemma_short_last_chunk;
use crate::streams::total_chunks;
use crate::streams::whole_chunks;
use crate::text::comma;
use crate::text::glue;
use crate::text::lowercase;
use crate::text::remove_whitespace;
use crate::text::split;
use crate::text::split_commas;
use crate::text::text_eq;
use crate::text::to_lowercase;
use crate::text::views;
use crate::text::without_whitespace;

verus! {

/// The kind of token that the `get` command lists.
#[derive(Debug, PartialEq, Eq, Clone, Copy, Structural)]
pub enum TokenKind {
    /// Get the list of actors.
    Actor,
    /// Get the list of operators.
    Operator,
    /// Get the list of accounts.
    Account,
}

/// The kind that a lowercase word names.
pub open spec fn kind_named(word: Seq<char>) -> Option<TokenKind> {
    if word == "actor"@ {
        Some(TokenKind::Actor)
    } else if word == "operator"@ {
        Some(TokenKind::Operator)
    } else if word == "account"@ {
        Some(TokenKind::Account)
    } else {
        None
    }
}

impl TokenKind {
    /// The kind that a lowercase word names; `None` for any other word.
    pub fn named(word: &str) -> (r: Option<TokenKind>)
        ensures
            r == kind_named(word@),
    {
        if text_eq(word, "actor") {
            Some(TokenKind::Actor)
        } else if text_eq(word, "operator") {
            Some(TokenKind::Operator)
        } else if text_eq(word, "account") {
            Some(TokenKind::Account)
        } else {
            None
        }
    }

    /// Reads a kind from a word, in whatever case it is written; `None` for
    /// any other word.
    pub fn from_str(s: &str) -> (r: Option<TokenKind>)
        ensures
            r == kind_named(lowercase(s@)),
    {
        let word: String = to_lowercase(s);
        TokenKind::named(word.as_str())
    }
}

/// The type of query that lists tokens of a kind.
pub open spec fn query_type_of(kind: TokenKind) -> QueryType {
    match kind {
        TokenKind::Actor => QueryType::Actor,
        TokenKind::Operator => QueryType::Operator,
        TokenKind::Account => QueryType::Account,
    }
}

/// The type of query that lists tokens of a kind.
pub fn to_catalog_query_type(kind: TokenKind) -> (r: QueryType)
    ensures
        r == query_type_of(kind),
{
    match kind {
        TokenKind::Actor => QueryType::Actor,
        TokenKind::Operator => QueryType::Operator,
        TokenKind::Account => QueryType::Account,
    }
}

/// The query of the `get` command.
pub fn query(kind: TokenKind, issuer: Option<String>) -> (r: CatalogQuery)
    ensures
        r.query_type == query_type_of(kind),
        r.issuer == issuer,
{
    CatalogQuery { query_type: to_catalog_query_type(kind), issuer }
}

/// The cell that shows a result's subject and issuer: one above the other.
pub fn result_cell(res: &CatalogQueryResult) -> (r: String)
    ensures
        r@ == res.subject@ + "\n"@ + res.issuer@,
{
    let mut cell: String = glue(res.subject.as_str(), "\n");
    cell.append(res.issuer.as_str());
    cell
}

/// The token of the `put` command: the raw string as it was given, not yet
/// decoded or validated.
pub fn put(token: String) -> (r: Token)
    ensures
        r@ == (TokenView {
            raw_token: token@,
            decoded_token_json: Seq::<char>::empty(),
            validation_result: None,
        }),
{
    Token { raw_token: token, decoded_token_json: String::new(), validation_result: None }
}

/// The request to upload a module of `fsize` bytes for `actor`, in chunks of
/// the client's size.
pub fn upload(actor: String, fsize: u64) -> (r: UploadRequest)
    ensures
        r@ == (UploadRequestView {
            actor: actor@,
            total_bytes: fsize,
            chunk_size: CHUNK_SIZE,
            total_chunks: whole_chunks(fsize, CHUNK_SIZE),
        }),
{
    UploadRequest {
        actor,
        chunk_size: CHUNK_SIZE,
        total_bytes: fsize,
        total_chunks: total_chunks(fsize, CHUNK_SIZE),
    }
}

/// The request to upload a module, given the subject that was found embedded
/// in it. The module is invalid where its claims could not be read; where it
/// holds none there is nothing to request.
pub open spec fn module_upload(found: Option<Option<Seq<char>>>, len: nat) -> Result<
    Option<UploadRequestView>,
    ErrorKind,
> {
    match found {
        None => Err(ErrorKind::InvalidToken),
        Some(None) => Ok(None),
        Some(Some(actor)) => Ok(
            Some(
                UploadRequestView {
                    actor: actor,
                    total_bytes: len as u64,
                    chunk_size: CHUNK_SIZE,
                    total_chunks: whole_chunks(len as u64, CHUNK_SIZE),
                },
            ),
        ),
    }
}

/// The view of the outcome of `upload_module`.
pub open spec fn module_upload_view(outcome: Result<Option<UploadRequest>, ErrorKind>) -> Result<
    Option<UploadRequestView>,
    ErrorKind,
> {
    match outcome {
        Ok(Some(request)) => Ok(Some(request@)),
        Ok(None) => Ok(None),
        Err(e) => Err(e),
    }
}

/// The request to upload the module with the given bytes, for the actor whose
/// claims are embedded in it.
pub fn upload_module(module: &Vec<u8>) -> (r: Result<Option<UploadRequest>, ErrorKind>)
    ensures
        module_upload_view(r) == module_upload(module_subject(module@), module@.len()),
{
    match embedded_subject(module.as_slice()) {
        None => Err(ErrorKind::InvalidToken),
        Some(None) => Ok(None),
        Some(Some(actor)) => Ok(Some(upload(actor, module.len() as u64))),
    }
}

/// How far a transfer has come once the chunk at `sequence_no` is through:
/// the bytes of the chunks before it and its own. `None` where that number
/// does not fit 64 bits.
pub open spec fn position_after(sequence_no: u64, chunk_size: u64, chunk_len: nat) -> Option<u64> {
    if sequence_no * chunk_size + chunk_len <= u64::MAX {
        Some((sequence_no * chunk_size + chunk_len) as u64)
    } else {
        None
    }
}

/// With its last chunk, the one that bears the number of whole chunks, a
/// transfer whose bytes are no whole number of chunks has come as far as its
/// bytes go.
pub proof fn lemma_last_chunk_completes(total_bytes: u64, chunk_size: u64)
    requires
        chunk_size > 0,
        total_bytes % chunk_size != 0,
    ensures
        position_after(
            whole_chunks(total_bytes, chunk_size),
            chunk_size,
            chunk_len(total_bytes, chunk_size, whole_chunks(total_bytes, chunk_size)) as nat,
        ) == Some(total_bytes),
{
    lemma_short_last_chunk(total_bytes, chunk_size);
}

/// How far a transfer has come once the chunk at `sequence_no` is through.
pub fn progress(sequence_no: u64, chunk_size: u64, chunk_len: usize) -> (r: Option<u64>)
    ensures
        r == position_after(sequence_no, chunk_size, chunk_len as nat),
{
    match sequence_no.checked_mul(chunk_size) {
        Some(before) => before.checked_add(chunk_len as u64),
        None => None,
    }
}

/// Where a download stands after a chunk: how far it has come, and whether
/// the chunk was the last one, which bears the number of whole chunks as its
/// sequence number.
pub fn download(chunk: &FileChunk) -> (r: (Option<u64>, bool))
    ensures
        r.0 == position_after(chunk.sequence_no, chunk.chunk_size, chunk.chunk_bytes@.len()),
        r.1 == (chunk.sequence_no == chunk.total_chunks),
{
    (
        progress(chunk.sequence_no, chunk.chunk_size, chunk.chunk_bytes.len()),
        chunk.sequence_no == chunk.total_chunks,
    )
}

/// How a client connects: the addresses of the brokers and the user's
/// credentials.
#[derive(Debug, PartialEq)]
pub struct ConnectionConfiguration {
    pub server_urls: Vec<String>,
    pub user_jwt: String,
    pub user_seed: String,
}

/// The addresses in a comma-separated list, each without its whitespace.
pub open spec fn urls_in(list: Seq<char>) -> Seq<Seq<char>> {
    split(list, comma()).map_values(|url: Seq<char>| without_whitespace(url))
}

/// What the `login` command stores: the credentials as they were typed, and
/// the addresses of the comma-separated list, each without its whitespace.
pub fn login(jwt: String, seed: String, urls: &str) -> (r: ConnectionConfiguration)
    ensures
        r.user_jwt == jwt,
        r.user_seed == seed,
        views(r.server_urls@) == urls_in(urls@),
{
    let pieces: Vec<String> = split_commas(urls);
    let mut server_urls: Vec<String> = Vec::new();
    let mut i: usize = 0;
    while i < pieces.len()
        invariant
            i <= pieces.len(),
            views(pieces@) == split(urls@, comma()),
            views(server_urls@) == urls_in(urls@).take(i as int),
        decreases pieces.len() - i,
    {
        let ghost before = views(server_urls@);
        let url: String = remove_whitespace(pieces[i].as_str());
        server_urls.push(url);
        proof {
            assert(views(pieces@)[i as int] == pieces@[i as int]@);
            assert(views(server_urls@) =~= before.push(without_whitespace(pieces@[i as int]@)));
            assert(urls_in(urls@).take(i + 1) =~= urls_in(urls@).take(i as int).push(
                without_whitespace(pieces@[i as int]@),
            ));
        }
        i += 1;
    }
    proof {
        assert(urls_in(urls@).take(pieces.len() as int) =~= urls_in(urls@));
    }
    ConnectionConfiguration { server_urls, user_jwt: jwt, user_seed: seed }
}

} // verus!
