//! Records of the streaming protocol, which moves a module's raw bytes apart
//! from its metadata.
//!
//! A transfer begins with a request on one of the two initiation subjects and
//! then moves chunk by chunk on a subject of its own, named after the actor.

use vstd::prelude::*;

verus! {

/// Subject on which a download is requested.
pub const SUBJECT_STREAM_DOWNLOAD: &'static str = "gantry.stream.get";

/// Subject on which an upload is requested.
pub const SUBJECT_STREAM_UPLOAD: &'static str = "gantry.stream.put";

/// Prefix of the subjects on which downloaded chunks arrive.
pub const SUBJECT_STREAM_DOWNLOAD_PREFIX: &'static str = "gantry.stream.download.";

/// Prefix of the subjects on which chunks are uploaded.
pub const SUBJECT_STREAM_UPLOAD_PREFIX: &'static str = "gantry.stream.upload.";

/// A request to download an actor's module.
#[derive(Debug, PartialEq)]
pub struct DownloadRequest {
    pub actor: String,
}

impl View for DownloadRequest {
    type V = Seq<char>;

    open spec fn view(&self) -> Seq<char> {
        self.actor@
    }
}

/// A request to upload an actor's module.
#[derive(Debug, PartialEq)]
pub struct UploadRequest {
    pub actor: String,
    pub total_bytes: u64,
    pub chunk_size: u64,
    pub total_chunks: u64,
}

/// An upload request as mathematical data.
pub struct UploadRequestView {
    pub actor: Seq<char>,
    pub total_bytes: u64,
    pub chunk_size: u64,
    pub total_chunks: u64,
}

impl View for UploadRequest {
    type V = UploadRequestView;

    open spec fn view(&self) -> UploadRequestView {
        UploadRequestView {
            actor: self.actor@,
            total_bytes: self.total_bytes,
            chunk_size: self.chunk_size,
            total_chunks: self.total_chunks,
        }
    }
}

/// The service's answer to a request to begin a transfer.
#[derive(Debug, PartialEq)]
pub struct TransferAck {
    pub success: bool,
    pub actor: String,
    pub total_bytes: u64,
    pub chunk_size: u64,
    pub total_chunks: u64,
}

/// A transfer acknowledgement as mathematical data.
pub struct TransferAckView {
    pub success: bool,
    pub actor: Seq<char>,
    pub total_bytes: u64,
    pub chunk_size: u64,
    pub total_chunks: u64,
}

impl View for TransferAck {
    type V = TransferAckView;

    open spec fn view(&self) -> TransferAckView {
        TransferAckView {
            success: self.success,
            actor: self.actor@,
            total_bytes: self.total_bytes,
            chunk_size: self.chunk_size,
            total_chunks: self.total_chunks,
        }
    }
}

/// Acknowledgement of a single chunk.
#[derive(Debug, PartialEq, Eq, Clone, Copy, Structural)]
pub struct ChunkAck {
    pub success: bool,
    pub sequence_no: u64,
    pub bytes_sent: u64,
}

/// A single chunk of a module's bytes.
#[derive(Debug, PartialEq)]
pub struct FileChunk {
    pub sequence_no: u64,
    pub actor: String,
    pub total_bytes: u64,
    pub chunk_size: u64,
    pub total_chunks: u64,
    pub chunk_bytes: Vec<u8>,
}

/// A chunk as mathematical data.
pub struct FileChunkView {
    pub sequence_no: u64,
    pub actor: Seq<char>,
    pub total_bytes: u64,
    pub chunk_size: u64,
    pub total_chunks: u64,
    pub chunk_bytes: Seq<u8>,
}

impl View for FileChunk {
    type V = FileChunkView;

    open spec fn view(&self) -> FileChunkView {
        FileChunkView {
            sequence_no: self.sequence_no,
            actor: self.actor@,
            total_bytes: self.total_bytes,
            chunk_size: self.chunk_size,
            total_chunks: self.total_chunks,
            chunk_bytes: self.chunk_bytes@,
        }
    }
}

} // verus!
