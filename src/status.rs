use vstd::prelude::*;

use crate::extraction::ExtractionError;
use crate::publish::LocalityUploadError;

verus! {

/// Connection state of the content store node.
#[derive(Debug, Clone, Copy, PartialEq, Eq, Structural)]
pub enum StorageStatus {
    Disconnected,
    Initialized,
    Connecting,
    Connected,
    Error,
}

/// Human-readable label of a node status.
pub open spec fn status_label(status: StorageStatus) -> Seq<char> {
    match status {
        StorageStatus::Disconnected => "Disconnected"@,
        StorageStatus::Initialized => "Initialized"@,
        StorageStatus::Connecting => "Connecting"@,
        StorageStatus::Connected => "Connected"@,
        StorageStatus::Error => "Error"@,
    }
}

/// Label shown by the status monitor for a node status.
pub fn format_status(status: &StorageStatus) -> (r: &'static str)
    ensures
        r@ == status_label(*status),
{
    proof {
        reveal_strlit("Disconnected");
        reveal_strlit("Initialized");
        reveal_strlit("Connecting");
        reveal_strlit("Connected");
        reveal_strlit("Error");
    }
    match status {
        StorageStatus::Disconnected => "Disconnected",
        StorageStatus::Initialized => "Initialized",
        StorageStatus::Connecting => "Connecting",
        StorageStatus::Connected => "Connected",
        StorageStatus::Error => "Error",
    }
}

/// Errors of the content store node.
#[derive(Debug, Clone)]
pub enum StorageError {
    NodeCreation(String),
    NodeStart(String),
    NodeStop(String),
    NodeNotInitialized,
    NodeNotStarted,
    UploadFailed(String),
    DownloadFailed(String),
    ConnectionFailed(String),
    IoError(String),
}

/// What the content store returned for a fetched item.
#[derive(Debug, Clone)]
pub struct DownloadResult {
    pub cid: String,
    pub size: usize,
}

/// What the content store node reports about itself.
#[derive(Debug, Clone)]
pub struct NodeInfo {
    pub peer_id: Option<String>,
    pub version: Option<String>,
    pub repo_path: Option<String>,
    pub addresses: Vec<String>,
    pub announce_addresses: Vec<String>,
}

/// A page of a listing.
#[derive(Debug, Clone, Copy, PartialEq, Eq, Structural)]
pub struct PaginationInfo {
    pub page: u32,
    pub limit: u32,
    pub total: u32,
    pub total_pages: u32,
}

/// Errors of a whole run.
#[derive(Debug, Clone)]
pub enum ApplicationError {
    DatabaseError(String),
    ExtractionError(ExtractionError),
    UploadError(LocalityUploadError),
    StorageError(StorageError),
    IoError(String),
}

} // verus!
