//! The stream service: it moves the bytes of a module between clients and the
//! blob store, in chunks.
//!
//! A transfer begins with a request that the service acknowledges once it has
//! found the actor in the catalog. The bytes then travel chunk by chunk on a
//! subject named after the actor. The service never touches the blob store or
//! the broker itself: each handler yields what is to be done.

use vstd::prelude::*;

use crate::envelope::reply_subject;
use crate::envelope::subject_view;
use crate::envelope::wanted_reply;
use crate::envelope::BrokerMessage;
use crate::envelope::BrokerMessageView;
use crate::errors::ErrorKind;
use crate::protocol::catalog::CatalogQuery;
use crate::protocol::catalog::CatalogQueryResultView;
use crate::protocol::catalog::CatalogQueryResults;
use crate::protocol::catalog::CatalogQueryView;
use crate::protocol::catalog::QueryType;
use crate::protocol::catalog::SUBJECT_CATALOG_QUERY;
use crate::protocol::stream::ChunkAck;
use crate::protocol::stream::DownloadRequest;
use crate::protocol::stream::FileChunk;
use crate::protocol::stream::FileChunkView;
use crate::protocol::stream::TransferAck;
use crate::protocol::stream::TransferAckView;
use crate::protocol::stream::UploadRequest;
use crate::protocol::stream::UploadRequestView;
use crate::protocol::stream::SUBJECT_STREAM_DOWNLOAD;
use crate::protocol::stream::SUBJECT_STREAM_DOWNLOAD_PREFIX;
use crate::protocol::stream::SUBJECT_STREAM_UPLOAD;
use crate::protocol::stream::SUBJECT_STREAM_UPLOAD_PREFIX;
use crate::text::glue;
use crate::text::contains_text;
use crate::text::has_prefix;
use crate::text::owned;
use crate::text::strip_last;
use crate::text::text_eq;
use crate::text::views;
use crate::text::without_last;

verus! {

/// The size of the chunks in which the service streams a blob: 256 KiB.
pub const CHUNK_SIZE: u64 = 256 * 1024;

/// The public key of the catalog service, which the stream service asks for
/// the registered actors.
pub const CATALOG_ACTOR: &'static str = "MCIXJVXAXKDX7UFYDFW2737SHVIRNZILS3ULODGEQOVCTWQ7HSGOHUY7";

/// The container of the blob store that holds the modules.
pub const CONTAINER: &'static str = "gantry";

/// The number of whole chunks of `chunk_size` bytes in `total_bytes` bytes. A
/// last, shorter chunk is not counted: it bears this number as its sequence
/// number.
pub open spec fn whole_chunks(total_bytes: u64, chunk_size: u64) -> u64
    recommends
        chunk_size > 0,
{
    (total_bytes / chunk_size) as u64
}

/// The identifier of the blob that holds an actor's module.
pub open spec fn blob_id_of(actor: Seq<char>) -> Seq<char> {
    actor + ".wasm"@
}

/// The actor whose module a blob holds: the blob's identifier without its
/// last five characters.
pub open spec fn actor_of(blob_id: Seq<char>) -> Seq<char> {
    without_last(blob_id, 5)
}

/// The subject on which the chunks of an actor's module are sent to a client.
pub open spec fn download_subject_of(actor: Seq<char>) -> Seq<char> {
    SUBJECT_STREAM_DOWNLOAD_PREFIX@ + actor
}

/// The subject on which a client sends the chunks of an actor's module.
pub open spec fn upload_subject_of(actor: Seq<char>) -> Seq<char> {
    SUBJECT_STREAM_UPLOAD_PREFIX@ + actor
}

/// The actor is found again in the identifier of its blob.
pub proof fn lemma_actor_of_blob_id(actor: Seq<char>)
    ensures
        actor_of(blob_id_of(actor)) == actor,
{
    reveal_strlit(".wasm");
    assert(actor_of(blob_id_of(actor)) =~= actor);
}

/// The number of bytes that the chunk at `sequence_no` carries, in a transfer
/// of `total_bytes` bytes in chunks of `chunk_size` bytes: a whole chunk, what
/// is left of the bytes, or nothing.
pub open spec fn chunk_len(total_bytes: u64, chunk_size: u64, sequence_no: u64) -> int {
    if (sequence_no + 1) * chunk_size <= total_bytes {
        chunk_size as int
    } else if sequence_no * chunk_size < total_bytes {
        total_bytes - sequence_no * chunk_size
    } else {
        0
    }
}

/// Where the bytes are no whole number of chunks, the chunks before the one
/// that bears the number of whole chunks are whole, that one is the last and
/// is shorter, and with it all bytes are through.
pub proof fn lemma_short_last_chunk(total_bytes: u64, chunk_size: u64)
    requires
        chunk_size > 0,
        total_bytes % chunk_size != 0,
    ensures
        ({
            let last = whole_chunks(total_bytes, chunk_size);
            &&& forall|k: u64| k < last ==> chunk_len(total_bytes, chunk_size, k) == chunk_size
            &&& 0 < chunk_len(total_bytes, chunk_size, last) < chunk_size
            &&& last * chunk_size + chunk_len(total_bytes, chunk_size, last) == total_bytes
            &&& forall|k: u64| k > last ==> chunk_len(total_bytes, chunk_size, k) == 0
        }),
{
    let last = whole_chunks(total_bytes, chunk_size);
    let size = chunk_size as int;
    let total = total_bytes as int;
    assert(total == size * (total / size) + total % size) by (nonlinear_arith)
        requires
            size > 0,
    ;
    assert(0 < total % size < size) by (nonlinear_arith)
        requires
            size > 0,
            total % size != 0,
    ;
    assert(last as int == total / size);
    assert(last * size + total % size == total && total < (last + 1) * size) by (nonlinear_arith)
        requires
            total == size * (total / size) + total % size,
            0 < total % size < size,
            last as int == total / size,
    ;
    assert(chunk_len(total_bytes, chunk_size, last) == total % size);
    assert forall|k: u64| k < last implies chunk_len(total_bytes, chunk_size, k) == chunk_size by {
        assert((k + 1) * size <= last * size) by (nonlinear_arith)
            requires
                k + 1 <= last,
                size > 0,
        ;
    }
    assert forall|k: u64| k > last implies chunk_len(total_bytes, chunk_size, k) == 0 by {
        assert(k * size >= (last + 1) * size) by (nonlinear_arith)
            requires
                k >= last + 1,
                size > 0,
        ;
        assert((k + 1) * size == k * size + size) by (nonlinear_arith);
    }
}

/// Where the bytes are a whole number of chunks, every chunk is whole, and no
/// chunk bears the number of whole chunks: the last one bears the number
/// before it.
pub proof fn lemma_no_short_chunk(total_bytes: u64, chunk_size: u64)
    requires
        chunk_size > 0,
        total_bytes % chunk_size == 0,
    ensures
        ({
            let count = whole_chunks(total_bytes, chunk_size);
            &&& forall|k: u64| k < count ==> chunk_len(total_bytes, chunk_size, k) == chunk_size
            &&& forall|k: u64| k >= count ==> chunk_len(total_bytes, chunk_size, k) == 0
            &&& count * chunk_size == total_bytes
        }),
{
    let count = whole_chunks(total_bytes, chunk_size);
    let size = chunk_size as int;
    let total = total_bytes as int;
    assert(total == size * (total / size) + total % size) by (nonlinear_arith)
        requires
            size > 0,
    ;
    assert(count as int == total / size);
    assert(count * size == total) by (nonlinear_arith)
        requires
            total == size * (total / size) + total % size,
            total % size == 0,
            count as int == total / size,
    ;
    assert forall|k: u64| k < count implies chunk_len(total_bytes, chunk_size, k) == chunk_size by {
        assert((k + 1) * size <= count * size) by (nonlinear_arith)
            requires
                k + 1 <= count,
                size > 0,
        ;
    }
    assert forall|k: u64| k >= count implies chunk_len(total_bytes, chunk_size, k) == 0 by {
        assert(k * size >= count * size) by (nonlinear_arith)
            requires
                k >= count,
                size > 0,
        ;
        assert((k + 1) * size == k * size + size) by (nonlinear_arith);
    }
}

/// The number of whole chunks of `chunk_size` bytes in `total_bytes` bytes.
pub fn total_chunks(total_bytes: u64, chunk_size: u64) -> (r: u64)
    requires
        chunk_size > 0,
    ensures
        r == whole_chunks(total_bytes, chunk_size),
        r == total_bytes as int / chunk_size as int,
{
    total_bytes / chunk_size
}

/// The identifier of the blob that holds an actor's module.
pub fn blob_id(actor: &str) -> (r: String)
    ensures
        r@ == blob_id_of(actor@),
{
    glue(actor, ".wasm")
}

/// The subject on which the chunks of an actor's module are sent to a client.
pub fn download_subject(actor: &str) -> (r: String)
    ensures
        r@ == download_subject_of(actor@),
{
    glue(SUBJECT_STREAM_DOWNLOAD_PREFIX, actor)
}

/// The subject on which a client sends the chunks of an actor's module.
pub fn upload_subject(actor: &str) -> (r: String)
    ensures
        r@ == upload_subject_of(actor@),
{
    glue(SUBJECT_STREAM_UPLOAD_PREFIX, actor)
}

/// An owned copy of a byte buffer.
pub fn copy_bytes(bytes: &Vec<u8>) -> (r: Vec<u8>)
    ensures
        r@ == bytes@,
{
    let mut out: Vec<u8> = Vec::new();
    let mut i: usize = 0;
    while i < bytes.len()
        invariant
            i <= bytes.len(),
            out@ == bytes@.take(i as int),
        decreases bytes.len() - i,
    {
        out.push(bytes[i]);
        proof {
            assert(out@ =~= bytes@.take(i + 1));
        }
        i += 1;
    }
    proof {
        assert(bytes@.take(bytes.len() as int) =~= bytes@);
    }
    out
}

/// A blob in the blob store.
#[derive(Debug, PartialEq)]
pub struct Blob {
    pub id: String,
    pub container: String,
    pub byte_size: u64,
}

/// A blob as mathematical data.
pub struct BlobView {
    pub id: Seq<char>,
    pub container: Seq<char>,
    pub byte_size: u64,
}

impl View for Blob {
    type V = BlobView;

    open spec fn view(&self) -> BlobView {
        BlobView { id: self.id@, container: self.container@, byte_size: self.byte_size }
    }
}

/// The view of a blob that may be missing.
pub open spec fn blob_view(blob: Option<Blob>) -> Option<BlobView> {
    match blob {
        Some(b) => Some(b@),
        None => None,
    }
}

/// A chunk as the blob store hands it out.
#[derive(Debug, PartialEq)]
pub struct BlobChunk {
    pub sequence_no: u64,
    pub container: String,
    pub id: String,
    pub total_bytes: u64,
    pub chunk_size: u64,
    pub chunk_bytes: Vec<u8>,
}

/// A chunk of the blob store as mathematical data.
pub struct BlobChunkView {
    pub sequence_no: u64,
    pub container: Seq<char>,
    pub id: Seq<char>,
    pub total_bytes: u64,
    pub chunk_size: u64,
    pub chunk_bytes: Seq<u8>,
}

impl View for BlobChunk {
    type V = BlobChunkView;

    open spec fn view(&self) -> BlobChunkView {
        BlobChunkView {
            sequence_no: self.sequence_no,
            container: self.container@,
            id: self.id@,
            total_bytes: self.total_bytes,
            chunk_size: self.chunk_size,
            chunk_bytes: self.chunk_bytes@,
        }
    }
}

/// An upload into the blob store, as the store wants it described with each
/// chunk.
#[derive(Debug, PartialEq)]
pub struct Transfer {
    pub blob_id: String,
    pub container: String,
    pub chunk_size: u64,
    pub total_size: u64,
    pub total_chunks: u64,
}

/// A transfer as mathematical data.
pub struct TransferView {
    pub blob_id: Seq<char>,
    pub container: Seq<char>,
    pub chunk_size: u64,
    pub total_size: u64,
    pub total_chunks: u64,
}

impl View for Transfer {
    type V = TransferView;

    open spec fn view(&self) -> TransferView {
        TransferView {
            blob_id: self.blob_id@,
            container: self.container@,
            chunk_size: self.chunk_size,
            total_size: self.total_size,
            total_chunks: self.total_chunks,
        }
    }
}

/// The chunk that a client receives for a chunk of the blob store: the same
/// bytes at the same place, named after the actor that the blob belongs to.
pub open spec fn converted(chunk: BlobChunkView) -> FileChunkView {
    FileChunkView {
        sequence_no: chunk.sequence_no,
        actor: actor_of(chunk.id),
        total_bytes: chunk.total_bytes,
        chunk_size: chunk.chunk_size,
        total_chunks: whole_chunks(chunk.total_bytes, chunk.chunk_size),
        chunk_bytes: chunk.chunk_bytes,
    }
}

/// Turns a chunk of the blob store into the chunk that a client receives.
pub fn convert_chunk(chunk: &BlobChunk) -> (r: FileChunk)
    requires
        chunk.id@.len() >= 5,
        chunk.chunk_size > 0,
    ensures
        r@ == converted(chunk@),
{
    FileChunk {
        sequence_no: chunk.sequence_no,
        actor: strip_last(chunk.id.as_str(), 5),
        chunk_size: chunk.chunk_size,
        total_bytes: chunk.total_bytes,
        total_chunks: total_chunks(chunk.total_bytes, chunk.chunk_size),
        chunk_bytes: copy_bytes(&chunk.chunk_bytes),
    }
}

/// A chunk on its way to a client: the subject to publish on and the chunk.
#[derive(Debug, PartialEq)]
pub struct ChunkDelivery {
    pub subject: String,
    pub chunk: FileChunk,
}

/// A chunk delivery as mathematical data.
pub struct ChunkDeliveryView {
    pub subject: Seq<char>,
    pub chunk: FileChunkView,
}

impl View for ChunkDelivery {
    type V = ChunkDeliveryView;

    open spec fn view(&self) -> ChunkDeliveryView {
        ChunkDeliveryView { subject: self.subject@, chunk: self.chunk@ }
    }
}

/// Handles a chunk that the blob store hands out: the chunk goes to the
/// download subject of the actor that the blob belongs to.
pub fn handle_blob_chunk(chunk: &BlobChunk) -> (r: ChunkDelivery)
    requires
        chunk.id@.len() >= 5,
        chunk.chunk_size > 0,
    ensures
        r.subject@ == download_subject_of(actor_of(chunk.id@)),
        r.chunk@ == converted(chunk@),
{
    let converted: FileChunk = convert_chunk(chunk);
    let subject: String = download_subject(converted.actor.as_str());
    ChunkDelivery { subject, chunk: converted }
}

/// What a message on a subject asks of the stream service.
#[derive(Debug, PartialEq, Eq, Clone, Copy, Structural)]
pub enum StreamRequest {
    /// Begin a download; the body is a `DownloadRequest`.
    Download,
    /// Begin an upload; the body is an `UploadRequest`.
    Upload,
    /// Store a chunk; the body is a `FileChunk`.
    UploadChunk,
}

/// The request that a subject stands for.
pub open spec fn request_on(subject: Seq<char>) -> Result<StreamRequest, ErrorKind> {
    if subject == SUBJECT_STREAM_DOWNLOAD@ {
        Ok(StreamRequest::Download)
    } else if subject == SUBJECT_STREAM_UPLOAD@ {
        Ok(StreamRequest::Upload)
    } else if SUBJECT_STREAM_UPLOAD_PREFIX@.is_prefix_of(subject) {
        Ok(StreamRequest::UploadChunk)
    } else {
        Err(ErrorKind::UnknownSubject)
    }
}

/// Tells from its subject what a delivered message asks for.
pub fn handle_message(subject: &str) -> (r: Result<StreamRequest, ErrorKind>)
    ensures
        r == request_on(subject@),
{
    if text_eq(subject, SUBJECT_STREAM_DOWNLOAD) {
        Ok(StreamRequest::Download)
    } else if text_eq(subject, SUBJECT_STREAM_UPLOAD) {
        Ok(StreamRequest::Upload)
    } else if has_prefix(subject, SUBJECT_STREAM_UPLOAD_PREFIX) {
        Ok(StreamRequest::UploadChunk)
    } else {
        Err(ErrorKind::UnknownSubject)
    }
}

/// What the service does with an uploaded chunk: it stores the bytes at their
/// sequence number, and then acknowledges them.
#[derive(Debug, PartialEq)]
pub struct ChunkPlan {
    /// The upload that the chunk belongs to.
    pub transfer: Transfer,
    /// The place of the chunk in the upload.
    pub sequence_no: u64,
    /// The bytes to store.
    pub chunk_bytes: Vec<u8>,
    /// The acknowledgement to publish once the bytes are stored.
    pub ack: ChunkAck,
    /// The subject to publish the acknowledgement on, if one is wanted.
    pub reply_to: Option<String>,
}

/// A chunk plan as mathematical data.
pub struct ChunkPlanView {
    pub transfer: TransferView,
    pub sequence_no: u64,
    pub chunk_bytes: Seq<u8>,
    pub ack: ChunkAck,
    pub reply_to: Option<Seq<char>>,
}

impl View for ChunkPlan {
    type V = ChunkPlanView;

    open spec fn view(&self) -> ChunkPlanView {
        ChunkPlanView {
            transfer: self.transfer@,
            sequence_no: self.sequence_no,
            chunk_bytes: self.chunk_bytes@,
            ack: self.ack,
            reply_to: subject_view(self.reply_to),
        }
    }
}

/// The plan for an uploaded chunk.
pub open spec fn chunk_plan(chunk: FileChunkView, reply_to: Seq<char>) -> ChunkPlanView {
    ChunkPlanView {
        transfer: TransferView {
            blob_id: blob_id_of(chunk.actor),
            container: CONTAINER@,
            chunk_size: chunk.chunk_size,
            total_size: chunk.chunk_bytes.len() as u64,
            total_chunks: chunk.total_chunks,
        },
        sequence_no: chunk.sequence_no,
        chunk_bytes: chunk.chunk_bytes,
        ack: ChunkAck {
            success: true,
            sequence_no: chunk.sequence_no,
            bytes_sent: chunk.chunk_bytes.len() as u64,
        },
        reply_to: reply_subject(reply_to),
    }
}

/// Handles an uploaded chunk.
pub fn handle_upload_chunk(chunk: FileChunk, reply_to: &str) -> (r: ChunkPlan)
    ensures
        r@ == chunk_plan(chunk@, reply_to@),
{
    let size: u64 = chunk.chunk_bytes.len() as u64;
    let transfer = Transfer {
        total_size: size,
        blob_id: blob_id(chunk.actor.as_str()),
        container: owned(CONTAINER),
        chunk_size: chunk.chunk_size,
        total_chunks: chunk.total_chunks,
    };
    let ack = ChunkAck { bytes_sent: size, sequence_no: chunk.sequence_no, success: true };
    ChunkPlan {
        transfer,
        sequence_no: chunk.sequence_no,
        chunk_bytes: chunk.chunk_bytes,
        ack,
        reply_to: wanted_reply(reply_to),
    }
}

/// Whether the actor is among the subjects that the catalog lists.
pub open spec fn registered(actors: Seq<Seq<char>>, actor: Seq<char>) -> bool {
    actors.contains(actor)
}

/// The acknowledgement of a transfer of `total_bytes` bytes for `actor`: the
/// service streams in chunks of its own size, whatever the client proposed.
pub open spec fn transfer_ack(actor: Seq<char>, total_bytes: u64) -> TransferAckView {
    TransferAckView {
        success: true,
        actor: actor,
        total_bytes: total_bytes,
        chunk_size: CHUNK_SIZE,
        total_chunks: whole_chunks(total_bytes, CHUNK_SIZE),
    }
}

/// Whether an acknowledgement counts its chunks as the whole chunks of its
/// size in its bytes.
pub open spec fn well_counted(ack: TransferAckView) -> bool {
    ack.total_chunks == ack.total_bytes as int / ack.chunk_size as int
}

/// Every acknowledgement of the service counts its chunks as the whole chunks
/// of its chunk size in its total of bytes.
pub proof fn lemma_transfer_ack_well_counted(actor: Seq<char>, total_bytes: u64)
    ensures
        well_counted(transfer_ack(actor, total_bytes)),
{
}

fn acknowledge(actor: String, total_bytes: u64) -> (r: TransferAck)
    ensures
        r@ == transfer_ack(actor@, total_bytes),
        well_counted(r@),
{
    TransferAck {
        success: true,
        actor,
        total_bytes,
        chunk_size: CHUNK_SIZE,
        total_chunks: total_chunks(total_bytes, CHUNK_SIZE),
    }
}

/// What the service does to begin an upload: it acknowledges the request, and
/// then opens an upload in the blob store.
#[derive(Debug, PartialEq)]
pub struct UploadPlan {
    /// The acknowledgement to publish.
    pub ack: TransferAck,
    /// The subject to publish the acknowledgement on, if one is wanted.
    pub reply_to: Option<String>,
    /// The blob to open an upload for.
    pub blob: Blob,
    /// The chunk size of the upload: the one that the client proposed.
    pub chunk_size: u64,
    /// The number of bytes of the upload.
    pub total_bytes: u64,
}

/// An upload plan as mathematical data.
pub struct UploadPlanView {
    pub ack: TransferAckView,
    pub reply_to: Option<Seq<char>>,
    pub blob: BlobView,
    pub chunk_size: u64,
    pub total_bytes: u64,
}

impl View for UploadPlan {
    type V = UploadPlanView;

    open spec fn view(&self) -> UploadPlanView {
        UploadPlanView {
            ack: self.ack@,
            reply_to: subject_view(self.reply_to),
            blob: self.blob@,
            chunk_size: self.chunk_size,
            total_bytes: self.total_bytes,
        }
    }
}

/// The view of the outcome of a request to upload.
pub open spec fn upload_view(outcome: Result<UploadPlan, ErrorKind>) -> Result<
    UploadPlanView,
    ErrorKind,
> {
    match outcome {
        Ok(plan) => Ok(plan@),
        Err(e) => Err(e),
    }
}

/// What a request to upload comes to: it is refused where the actor is not
/// registered in the catalog.
pub open spec fn upload_outcome(
    request: UploadRequestView,
    actors: Seq<Seq<char>>,
    reply_to: Seq<char>,
) -> Result<UploadPlanView, ErrorKind> {
    if !registered(actors, request.actor) {
        Err(ErrorKind::NotRegistered)
    } else {
        Ok(
            UploadPlanView {
                ack: transfer_ack(request.actor, request.total_bytes),
                reply_to: reply_subject(reply_to),
                blob: BlobView {
                    id: blob_id_of(request.actor),
                    container: CONTAINER@,
                    byte_size: request.total_bytes,
                },
                chunk_size: request.chunk_size,
                total_bytes: request.total_bytes,
            },
        )
    }
}

/// Handles a request to upload, given the subjects of the actors that the
/// catalog lists.
pub fn handle_upload(
    req: UploadRequest,
    actors: &Vec<String>,
    reply_to: &str,
) -> (r: Result<UploadPlan, ErrorKind>)
    ensures
        upload_view(r) == upload_outcome(req@, views(actors@), reply_to@),
        r matches Ok(plan) ==> well_counted(plan.ack@),
{
    if !contains_text(actors, req.actor.as_str()) {
        return Err(ErrorKind::NotRegistered);
    }
    let blob = Blob {
        id: blob_id(req.actor.as_str()),
        container: owned(CONTAINER),
        byte_size: req.total_bytes,
    };
    let ack: TransferAck = acknowledge(req.actor, blob.byte_size);
    Ok(
        UploadPlan {
            ack,
            reply_to: wanted_reply(reply_to),
            blob,
            chunk_size: req.chunk_size,
            total_bytes: req.total_bytes,
        },
    )
}

/// What moves a request to download forward.
#[derive(Debug, PartialEq)]
pub enum DownloadEvent {
    /// The catalog has listed the subjects of its actors.
    Actors(Vec<String>),
    /// The blob store has answered the request for the blob's information.
    BlobInfo(Option<Blob>),
}

/// An event as mathematical data.
pub enum DownloadEventView {
    Actors(Seq<Seq<char>>),
    BlobInfo(Option<BlobView>),
}

impl View for DownloadEvent {
    type V = DownloadEventView;

    open spec fn view(&self) -> DownloadEventView {
        match self {
            DownloadEvent::Actors(actors) => DownloadEventView::Actors(views(actors@)),
            DownloadEvent::BlobInfo(info) => DownloadEventView::BlobInfo(blob_view(*info)),
        }
    }
}

/// What the service does next for a request to download.
#[derive(Debug, PartialEq)]
pub enum DownloadAction {
    /// Ask the blob store for the information on a blob.
    GetBlobInfo { container: String, id: String },
    /// Acknowledge the request, and then have the blob store stream the blob.
    Stream { ack: TransferAck, reply_to: Option<String>, blob: Blob, chunk_size: u64 },
    /// Give the request up.
    Reject(ErrorKind),
}

/// A download action as mathematical data.
pub enum DownloadActionView {
    GetBlobInfo { container: Seq<char>, id: Seq<char> },
    Stream { ack: TransferAckView, reply_to: Option<Seq<char>>, blob: BlobView, chunk_size: u64 },
    Reject(ErrorKind),
}

impl View for DownloadAction {
    type V = DownloadActionView;

    open spec fn view(&self) -> DownloadActionView {
        match self {
            DownloadAction::GetBlobInfo { container, id } => DownloadActionView::GetBlobInfo {
                container: container@,
                id: id@,
            },
            DownloadAction::Stream { ack, reply_to, blob, chunk_size } => {
                DownloadActionView::Stream {
                    ack: ack@,
                    reply_to: subject_view(*reply_to),
                    blob: blob@,
                    chunk_size: *chunk_size,
                }
            },
            DownloadAction::Reject(e) => DownloadActionView::Reject(*e),
        }
    }
}

/// What the service does once the catalog has listed its actors: it asks for
/// the blob of the actor, or gives up where the actor is not registered.
pub open spec fn download_after_actors(
    actor: Seq<char>,
    actors: Seq<Seq<char>>,
) -> DownloadActionView {
    if !registered(actors, actor) {
        DownloadActionView::Reject(ErrorKind::NotRegistered)
    } else {
        DownloadActionView::GetBlobInfo { container: CONTAINER@, id: blob_id_of(actor) }
    }
}

/// What the service does once the blob store has answered: it acknowledges
/// and streams the blob in chunks of its own size, or gives up where there is
/// no blob.
pub open spec fn download_after_blob_info(
    actor: Seq<char>,
    info: Option<BlobView>,
    reply_to: Seq<char>,
) -> DownloadActionView {
    match info {
        None => DownloadActionView::Reject(ErrorKind::NotFound),
        Some(blob) => DownloadActionView::Stream {
            ack: transfer_ack(actor, blob.byte_size),
            reply_to: reply_subject(reply_to),
            blob: blob,
            chunk_size: CHUNK_SIZE,
        },
    }
}

/// The next action for a request to download, given what has happened.
pub open spec fn download_action(
    actor: Seq<char>,
    reply_to: Seq<char>,
    event: DownloadEventView,
) -> DownloadActionView {
    match event {
        DownloadEventView::Actors(actors) => download_after_actors(actor, actors),
        DownloadEventView::BlobInfo(info) => download_after_blob_info(actor, info, reply_to),
    }
}

/// Handles a request to download, one event at a time: first the catalog's
/// list of actors, then the blob store's answer.
pub fn handle_download(
    req: &DownloadRequest,
    reply_to: &str,
    event: DownloadEvent,
) -> (r: DownloadAction)
    ensures
        r@ == download_action(req.actor@, reply_to@, event@),
        r matches DownloadAction::Stream { ack, .. } ==> well_counted(ack@),
{
    match event {
        DownloadEvent::Actors(actors) => {
            if !contains_text(&actors, req.actor.as_str()) {
                DownloadAction::Reject(ErrorKind::NotRegistered)
            } else {
                DownloadAction::GetBlobInfo {
                    container: owned(CONTAINER),
                    id: blob_id(req.actor.as_str()),
                }
            }
        },
        DownloadEvent::BlobInfo(info) => {
            match info {
                None => DownloadAction::Reject(ErrorKind::NotFound),
                Some(blob) => {
                    let ack: TransferAck = acknowledge(req.actor.clone(), blob.byte_size);
                    DownloadAction::Stream {
                        ack,
                        reply_to: wanted_reply(reply_to),
                        blob,
                        chunk_size: CHUNK_SIZE,
                    }
                },
            }
        },
    }
}

/// The subjects of the rows of a query's answer, in order.
pub open spec fn subjects_of(results: Seq<CatalogQueryResultView>) -> Seq<Seq<char>> {
    results.map_values(|row: CatalogQueryResultView| row.subject)
}

/// The subjects of the actors that the catalog listed.
pub fn catalog_get_actors(results: &CatalogQueryResults) -> (r: Vec<String>)
    ensures
        views(r@) == subjects_of(results@),
{
    let mut subjects: Vec<String> = Vec::new();
    let mut i: usize = 0;
    while i < results.results.len()
        invariant
            i <= results.results.len(),
            views(subjects@) == subjects_of(results@).take(i as int),
        decreases results.results.len() - i,
    {
        let ghost before = views(subjects@);
        subjects.push(results.results[i].subject.clone());
        proof {
            assert(views(subjects@) =~= before.push(results.results@[i as int].subject@));
            assert(subjects_of(results@).take(i + 1) =~= subjects_of(results@).take(
                i as int,
            ).push(results.results@[i as int].subject@));
        }
        i += 1;
    }
    proof {
        assert(subjects_of(results@).take(results.results.len() as int) =~= subjects_of(
            results@,
        ));
    }
    subjects
}

/// The query by which the stream service asks the catalog for its actors.
pub fn actor_query() -> (r: CatalogQuery)
    ensures
        r@ == (CatalogQueryView { query_type: QueryType::Actor, issuer: None }),
{
    CatalogQuery { issuer: None, query_type: QueryType::Actor }
}

/// The message that carries the encoded query for the actors to the catalog:
/// on the catalog's query subject, with no reply subject.
pub fn gen_actor_query(body: Vec<u8>) -> (r: BrokerMessage)
    ensures
        r@ == (BrokerMessageView {
            subject: SUBJECT_CATALOG_QUERY@,
            reply_to: Seq::<char>::empty(),
            body: body@,
        }),
{
    BrokerMessage { reply_to: String::new(), subject: owned(SUBJECT_CATALOG_QUERY), body }
}

/// The answer to a health request: an empty body.
pub fn health() -> (r: Vec<u8>)
    ensures
        r@.len() == 0,
{
    Vec::new()
}

} // verus!
