//! The client's side of the protocol: where each request goes, how long the
//! client waits for the reply, and what a client subscribes to before it asks
//! for a download.
//!
//! The connection to the broker is outside this crate. Each function here
//! yields what is to be sent.

use vstd::prelude::*;

use crate::protocol::catalog::SUBJECT_CATALOG_PUT_TOKEN;
use crate::protocol::catalog::SUBJECT_CATALOG_QUERY;
use crate::protocol::stream::DownloadRequest;
use crate::protocol::stream::FileChunk;
use crate::protocol::stream::FileChunkView;
use crate::protocol::stream::SUBJECT_STREAM_DOWNLOAD;
use crate::protocol::stream::SUBJECT_STREAM_UPLOAD;
use crate::streams::chunk_len;
use crate::streams::download_subject;
use crate::streams::download_subject_of;
use crate::streams::upload_subject;
use crate::streams::upload_subject_of;
use crate::text::owned;

verus! {

/// The size of the chunks in which a client uploads a module: 256 KiB.
pub const CHUNK_SIZE: u64 = 256 * 1024;

/// How long a client waits for the answer to a query, in milliseconds.
pub const QUERY_TIMEOUT_MS: u64 = 700;

/// How long a client waits for the answer to a put, in milliseconds.
pub const PUT_TIMEOUT_MS: u64 = 100;

/// How long a client waits for the acknowledgement of a transfer, in
/// milliseconds.
pub const TRANSFER_TIMEOUT_MS: u64 = 100;

/// How long a client waits for the acknowledgement of an uploaded chunk, in
/// milliseconds.
pub const CHUNK_TIMEOUT_MS: u64 = 2000;

/// The address of the broker that a client connects to where it is given none.
pub const DEFAULT_URL: &'static str = "nats://localhost:4222";

/// Where a request goes and how long the client waits for the reply.
#[derive(Debug, PartialEq)]
pub struct RequestPlan {
    pub subject: String,
    pub timeout_ms: u64,
}

/// A request plan as mathematical data.
pub struct RequestPlanView {
    pub subject: Seq<char>,
    pub timeout_ms: u64,
}

impl View for RequestPlan {
    type V = RequestPlanView;

    open spec fn view(&self) -> RequestPlanView {
        RequestPlanView { subject: self.subject@, timeout_ms: self.timeout_ms }
    }
}

/// How a query is sent. The reply is a `CatalogQueryResults`.
pub fn query() -> (r: RequestPlan)
    ensures
        r@ == (RequestPlanView { subject: SUBJECT_CATALOG_QUERY@, timeout_ms: 700 }),
{
    RequestPlan { subject: owned(SUBJECT_CATALOG_QUERY), timeout_ms: QUERY_TIMEOUT_MS }
}

/// How a token is put. The reply is a `CatalogQueryResult`.
pub fn put() -> (r: RequestPlan)
    ensures
        r@ == (RequestPlanView { subject: SUBJECT_CATALOG_PUT_TOKEN@, timeout_ms: 100 }),
{
    RequestPlan { subject: owned(SUBJECT_CATALOG_PUT_TOKEN), timeout_ms: PUT_TIMEOUT_MS }
}

/// How an upload is requested. The reply is a `TransferAck`.
pub fn start_upload() -> (r: RequestPlan)
    ensures
        r@ == (RequestPlanView { subject: SUBJECT_STREAM_UPLOAD@, timeout_ms: 100 }),
{
    RequestPlan { subject: owned(SUBJECT_STREAM_UPLOAD), timeout_ms: TRANSFER_TIMEOUT_MS }
}

/// How a download is requested: the client first subscribes to the subject on
/// which the chunks will arrive, and only then sends the request.
#[derive(Debug, PartialEq)]
pub struct DownloadPlan {
    /// The subject to subscribe to before the request is sent.
    pub subscribe_to: String,
    /// The request. The reply is a `TransferAck`.
    pub request: RequestPlan,
}

/// A download plan as mathematical data.
pub struct DownloadPlanView {
    pub subscribe_to: Seq<char>,
    pub request: RequestPlanView,
}

impl View for DownloadPlan {
    type V = DownloadPlanView;

    open spec fn view(&self) -> DownloadPlanView {
        DownloadPlanView { subscribe_to: self.subscribe_to@, request: self.request@ }
    }
}

/// How the download of an actor's module is requested.
pub fn request_download(req: &DownloadRequest) -> (r: DownloadPlan)
    ensures
        r@ == (DownloadPlanView {
            subscribe_to: download_subject_of(req.actor@),
            request: RequestPlanView { subject: SUBJECT_STREAM_DOWNLOAD@, timeout_ms: 100 },
        }),
{
    DownloadPlan {
        subscribe_to: download_subject(req.actor.as_str()),
        request: RequestPlan {
            subject: owned(SUBJECT_STREAM_DOWNLOAD),
            timeout_ms: TRANSFER_TIMEOUT_MS,
        },
    }
}

/// A chunk on its way to the service.
#[derive(Debug, PartialEq)]
pub struct ChunkUpload {
    pub chunk: FileChunk,
    pub request: RequestPlan,
}

/// A chunk upload as mathematical data.
pub struct ChunkUploadView {
    pub chunk: FileChunkView,
    pub request: RequestPlanView,
}

impl View for ChunkUpload {
    type V = ChunkUploadView;

    open spec fn view(&self) -> ChunkUploadView {
        ChunkUploadView { chunk: self.chunk@, request: self.request@ }
    }
}

/// How a chunk of an actor's module is uploaded: on the actor's upload
/// subject. The reply is a `ChunkAck`.
pub fn upload_chunk(
    sequence_no: u64,
    actor: &str,
    chunk_size: u64,
    total_bytes: u64,
    total_chunks: u64,
    bytes: Vec<u8>,
) -> (r: ChunkUpload)
    ensures
        r@ == (ChunkUploadView {
            chunk: FileChunkView {
                sequence_no: sequence_no,
                actor: actor@,
                total_bytes: total_bytes,
                chunk_size: chunk_size,
                total_chunks: total_chunks,
                chunk_bytes: bytes@,
            },
            request: RequestPlanView { subject: upload_subject_of(actor@), timeout_ms: 2000 },
        }),
{
    let chunk = FileChunk {
        actor: owned(actor),
        chunk_bytes: bytes,
        chunk_size,
        sequence_no,
        total_bytes,
        total_chunks,
    };
    ChunkUpload {
        chunk,
        request: RequestPlan { subject: upload_subject(actor), timeout_ms: CHUNK_TIMEOUT_MS },
    }
}

/// The number of chunks in which `total_bytes` bytes travel: the whole chunks,
/// and one more for what is left.
pub open spec fn chunks_needed(total_bytes: int, chunk_size: int) -> int {
    if total_bytes % chunk_size == 0 {
        total_bytes / chunk_size
    } else {
        total_bytes / chunk_size + 1
    }
}

/// Where the chunk at `index` begins among `len` bytes: at the end where there
/// are no bytes left for it.
pub open spec fn chunk_start(len: int, chunk_size: int, index: int) -> int {
    if index * chunk_size < len {
        index * chunk_size
    } else {
        len
    }
}

/// The bytes of the chunk at `index`.
pub open spec fn chunk_of(bytes: Seq<u8>, chunk_size: int, index: int) -> Seq<u8> {
    bytes.subrange(
        chunk_start(bytes.len() as int, chunk_size, index),
        chunk_start(bytes.len() as int, chunk_size, index + 1),
    )
}

/// The first `count` chunks, one after another.
pub open spec fn gathered(bytes: Seq<u8>, chunk_size: int, count: nat) -> Seq<u8>
    decreases count,
{
    if count == 0 {
        Seq::<u8>::empty()
    } else {
        gathered(bytes, chunk_size, (count - 1) as nat) + chunk_of(bytes, chunk_size, count - 1)
    }
}

/// The chunks begin one after another, none before the bytes and none behind
/// them.
pub proof fn lemma_chunk_starts(len: int, chunk_size: int, index: int)
    requires
        len >= 0,
        chunk_size > 0,
        index >= 0,
    ensures
        0 <= chunk_start(len, chunk_size, index) <= chunk_start(len, chunk_size, index + 1) <= len,
        chunk_start(len, chunk_size, index + 1) - chunk_start(len, chunk_size, index)
            <= chunk_size,
{
    assert((index + 1) * chunk_size == index * chunk_size + chunk_size) by (nonlinear_arith);
    assert(index * chunk_size >= 0) by (nonlinear_arith)
        requires
            index >= 0,
            chunk_size > 0,
    ;
}

/// The first chunks, put together, are the bytes up to where the next chunk
/// begins.
pub proof fn lemma_gathered_is_prefix(bytes: Seq<u8>, chunk_size: int, count: nat)
    requires
        chunk_size > 0,
    ensures
        gathered(bytes, chunk_size, count) == bytes.subrange(
            0,
            chunk_start(bytes.len() as int, chunk_size, count as int),
        ),
    decreases count,
{
    let len = bytes.len() as int;
    if count == 0 {
        assert(0 * chunk_size == 0) by (nonlinear_arith);
        assert(gathered(bytes, chunk_size, count) =~= bytes.subrange(0, 0));
    } else {
        lemma_gathered_is_prefix(bytes, chunk_size, (count - 1) as nat);
        lemma_chunk_starts(len, chunk_size, count - 1);
        let middle = chunk_start(len, chunk_size, count - 1);
        let end = chunk_start(len, chunk_size, count as int);
        assert(bytes.subrange(0, middle) + bytes.subrange(middle, end) =~= bytes.subrange(0, end));
    }
}

/// All the chunks that are needed, put together, are the bytes: nothing is
/// lost, doubled or out of place.
pub proof fn lemma_chunks_gather_all(bytes: Seq<u8>, chunk_size: int)
    requires
        chunk_size > 0,
    ensures
        chunks_needed(bytes.len() as int, chunk_size) >= 0,
        gathered(bytes, chunk_size, chunks_needed(bytes.len() as int, chunk_size) as nat)
            == bytes,
{
    let len = bytes.len() as int;
    let count = chunks_needed(len, chunk_size);
    assert(len == chunk_size * (len / chunk_size) + len % chunk_size && 0 <= len % chunk_size
        < chunk_size && len / chunk_size >= 0) by (nonlinear_arith)
        requires
            chunk_size > 0,
            len >= 0,
    ;
    assert(count * chunk_size >= len) by (nonlinear_arith)
        requires
            len == chunk_size * (len / chunk_size) + len % chunk_size,
            0 <= len % chunk_size < chunk_size,
            count == chunks_needed(len, chunk_size),
    ;
    lemma_gathered_is_prefix(bytes, chunk_size, count as nat);
    assert(bytes.subrange(0, len) =~= bytes);
}

/// The chunk at `sequence_no` is as long as the stream service counts it.
pub proof fn lemma_chunk_of_len(bytes: Seq<u8>, chunk_size: u64, sequence_no: u64)
    requires
        chunk_size > 0,
        bytes.len() <= u64::MAX,
    ensures
        chunk_of(bytes, chunk_size as int, sequence_no as int).len() == chunk_len(
            bytes.len() as u64,
            chunk_size,
            sequence_no,
        ),
{
    let size = chunk_size as int;
    let index = sequence_no as int;
    lemma_chunk_starts(bytes.len() as int, size, index);
    assert((index + 1) * size == index * size + size) by (nonlinear_arith);
}

/// The number of chunks in which `total_bytes` bytes travel.
pub fn chunk_count(total_bytes: u64, chunk_size: u64) -> (r: u64)
    requires
        chunk_size > 0,
    ensures
        r == chunks_needed(total_bytes as int, chunk_size as int),
{
    let whole: u64 = total_bytes / chunk_size;
    if total_bytes % chunk_size == 0 {
        whole
    } else {
        proof {
            // A chunk of one byte leaves nothing over, so the chunks are of two bytes at least.
            assert(chunk_size >= 2);
            assert(whole * 2 <= total_bytes) by (nonlinear_arith)
                requires
                    whole == total_bytes as int / chunk_size as int,
                    chunk_size >= 2,
                    total_bytes >= 0,
            ;
        }
        whole + 1
    }
}

fn start_of(len: usize, chunk_size: u64, index: u64) -> (r: usize)
    ensures
        r == chunk_start(len as int, chunk_size as int, index as int),
{
    match index.checked_mul(chunk_size) {
        Some(at) => {
            if at < len as u64 {
                at as usize
            } else {
                len
            }
        },
        None => len,
    }
}

/// The bytes of the chunk at `index`, copied out.
pub fn chunk_at(bytes: &Vec<u8>, chunk_size: u64, index: u64) -> (r: Vec<u8>)
    requires
        chunk_size > 0,
    ensures
        r@ == chunk_of(bytes@, chunk_size as int, index as int),
{
    let begin: usize = start_of(bytes.len(), chunk_size, index);
    let end: usize = match index.checked_add(1) {
        Some(next) => start_of(bytes.len(), chunk_size, next),
        None => {
            proof {
                assert((index + 1) * chunk_size >= bytes.len()) by (nonlinear_arith)
                    requires
                        index == u64::MAX,
                        chunk_size >= 1,
                        bytes.len() <= usize::MAX,
                ;
            }
            bytes.len()
        },
    };
    proof {
        lemma_chunk_starts(bytes.len() as int, chunk_size as int, index as int);
    }
    let mut out: Vec<u8> = Vec::new();
    let mut i: usize = begin;
    while i < end
        invariant
            begin <= i <= end <= bytes.len(),
            out@ == bytes@.subrange(begin as int, i as int),
        decreases end - i,
    {
        out.push(bytes[i]);
        proof {
            assert(out@ =~= bytes@.subrange(begin as int, i + 1));
        }
        i += 1;
    }
    out
}

/// How a client proves who it is to the broker.
#[derive(Debug, PartialEq)]
pub enum AuthenticationStyle {
    /// No proof.
    Anonymous,
    /// A user's signed token and the seed of its key.
    UserCredentials(String, String),
}

/// An authentication style as mathematical data.
pub enum AuthenticationStyleView {
    Anonymous,
    UserCredentials(Seq<char>, Seq<char>),
}

impl View for AuthenticationStyle {
    type V = AuthenticationStyleView;

    open spec fn view(&self) -> AuthenticationStyleView {
        match self {
            AuthenticationStyle::Anonymous => AuthenticationStyleView::Anonymous,
            AuthenticationStyle::UserCredentials(jwt, seed) => {
                AuthenticationStyleView::UserCredentials(jwt@, seed@)
            },
        }
    }
}

/// The authentication for the given credentials: that of a user where both
/// the token and the seed are there, anonymous otherwise.
pub open spec fn authentication_for(
    jwt: Option<Seq<char>>,
    seed: Option<Seq<char>>,
) -> AuthenticationStyleView {
    match (jwt, seed) {
        (Some(jwt), Some(seed)) => AuthenticationStyleView::UserCredentials(jwt, seed),
        _ => AuthenticationStyleView::Anonymous,
    }
}

/// The options with which a client connects to the broker.
#[derive(Debug, PartialEq)]
pub struct ConnectionPlan {
    pub cluster_uris: Vec<String>,
    pub authentication: AuthenticationStyle,
}

/// Chooses the options of a connection to the brokers at `nats_urls`.
pub fn get_client(
    nats_urls: Vec<String>,
    jwt: Option<&str>,
    seed: Option<&str>,
) -> (r: ConnectionPlan)
    ensures
        r.cluster_uris == nats_urls,
        r.authentication@ == authentication_for(
            match jwt {
                Some(j) => Some(j@),
                None => None,
            },
            match seed {
                Some(s) => Some(s@),
                None => None,
            },
        ),
{
    let authentication = match jwt {
        Some(j) => match seed {
            Some(s) => AuthenticationStyle::UserCredentials(owned(j), owned(s)),
            None => AuthenticationStyle::Anonymous,
        },
        None => AuthenticationStyle::Anonymous,
    };
    ConnectionPlan { cluster_uris: nats_urls, authentication }
}

} // verus!
