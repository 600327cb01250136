use vstd::prelude::*;
use crate::storage_models;

verus! {

/// The phase of a folder-listing call.
#[derive(Debug)]
pub enum ListFolder {
    Succeeded,
    Failed(storage_models::ListFolderError),
    InProgress { value: Option<u64>, value_str: Option<String> },
    RefreshToken,
    RefreshTokenComplete,
}

/// The phase of a file-download call.
#[derive(Debug)]
pub enum DownloadFile {
    Succeeded,
    Failed(storage_models::DownloadFileError),
    Started,
    SizeInfo { size: Option<u64> },
    InProgress { progress: u64 },
    RefreshToken,
    RefreshTokenComplete,
}

/// The phase of an authorization flow that is still under way.
#[derive(Debug)]
pub enum AuthProgress {
    StartingLocalServer,
    Binded { redirect_url: String },
    WaitingForLocalServerUp { redirect_url: String },
    TryOpenBrowser { auth_url: String },
    BrowserOpened { auth_url: String },
}

/// The phase of an authorization call.
#[derive(Debug)]
pub enum Auth {
    Succeeded,
    Failed(storage_models::AuthError),
    InProgress(AuthProgress),
}

/// The data of one call's state, by call kind.
#[derive(Debug)]
pub enum Data {
    ListFolder { data: ListFolder, path: String },
    DownloadFile {
        data: DownloadFile,
        remote_path: String,
        local_path: String,
        size: Option<u64>,
        downloaded: u64,
    },
    Auth { data: Auth },
}

/// The registry's record of one call: its background-task handle
/// tokens, its cancellation-pair tokens (each names a signal sender
/// and completion receiver the runtime side owns), and its typed
/// phase.
#[derive(Debug)]
pub struct State {
    pub handles: Vec<u64>,
    pub cancellers: Vec<u64>,
    pub data: Data,
}

} // verus!
