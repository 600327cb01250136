use vstd::prelude::*;
use crate::storage_models;

verus! {

/// Progress and result events of a folder-listing call.
///
/// `Start` (with no call id) asks the registry to begin a new listing;
/// `Started` announces a spawned task, carrying its handle token.
#[derive(Debug)]
pub enum ListFolder {
    Start { path: String },
    Started { handle: u64, path: String },
    Progress { value: u64, value_str: Option<String> },
    Finished { result: Result<storage_models::list_folder_out_data, storage_models::ListFolderError> },
    RefreshToken,
    RefreshTokenComplete,
}

/// Progress and result events of a file-download call.
#[derive(Debug)]
pub enum DownloadFile {
    Started { handle: u64, remote_path: String, local_path: String },
    SizeInfo { size: Option<u64> },
    Progress { value: u64 },
    Finished { result: Result<storage_models::download_file_out_data, storage_models::DownloadFileError> },
    Cancelled,
    RefreshToken,
    RefreshTokenComplete,
}

/// Events of the interactive authorization flow. Task handles and
/// cancellation channels are carried as opaque tokens owned by the
/// runtime side; the registry only books them.
#[derive(Debug)]
pub enum Auth {
    Start,
    Binded { redirect_url: String, addr: String, state_field: String },
    LocalServerShutdowner { canceller: u64 },
    ProbeStarted { handle: u64 },
    CheckAvailability { redirect_url: String, state_field: String },
    ServerReady { redirect_url: String, state_field: String },
    BrowserOpened { auth_url: String },
    Finished { result: Result<(), storage_models::AuthError> },
    Cancel,
}

/// The payload of one message, by call kind.
#[derive(Debug)]
pub enum Data {
    ListFolder(ListFolder),
    DownloadFile(DownloadFile),
    Auth(Auth),
}

/// One event on the message bus. A message without a call id is a
/// registry-internal directive rather than progress of a known call.
#[derive(Debug)]
pub struct Message {
    pub call_id: Option<u64>,
    pub data: Data,
}

} // verus!
