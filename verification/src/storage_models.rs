use vstd::prelude::*;
use vstd::string::StringExecFns;
use crate::clouds;
use crate::error::BindError;

verus! {

/// The kind of backend a storage instance talks to.
#[derive(Copy, Clone, Debug)]
pub enum StorageType {
    Cloud(clouds::CloudId),
}

/// One entry of a listed folder, as shown to the UI. The modification
/// time is carried as seconds since the Unix epoch; files have a size
/// and a time, folders have neither.
#[derive(Debug)]
pub struct Item {
    pub name: String,
    pub id: String,
    pub is_folder: bool,
    pub modified: Option<i64>,
    pub size: Option<u64>,
    pub items: Option<Vec<Item>>,
}

#[allow(non_camel_case_types)]
pub struct list_folder_in_data {
    pub path: String,
}

#[allow(non_camel_case_types)]
#[derive(Debug)]
pub struct list_folder_out_data {
    pub path: String,
    pub items: Option<Vec<Item>>,
}

#[allow(non_camel_case_types)]
pub struct download_file_in_data {
    pub remote_path: String,
    pub local_path: String,
}

#[allow(non_camel_case_types)]
#[derive(Debug)]
pub struct download_file_out_data {
    pub name: String,
}

/// The input of one storage call, by call kind.
pub enum CallInData {
    #[allow(non_camel_case_types)]
    list_folder(list_folder_in_data),
    #[allow(non_camel_case_types)]
    download_file(download_file_in_data),
}

/// Failure of a folder listing, as reported to the UI.
#[derive(Debug)]
pub enum ListFolderError {
    PathNotFound(String),
    Token(String),
    Other(String),
}

impl ListFolderError {
    pub fn text(&self) -> String {
        let mut s = String::new();
        match self {
            ListFolderError::PathNotFound(p) => {
                s.append("path not found: '");
                s.append(p.as_str());
                s.append("'");
            },
            ListFolderError::Token(t) => {
                s.append("token error: '");
                s.append(t.as_str());
                s.append("'");
            },
            ListFolderError::Other(t) => {
                s.append("other error: '");
                s.append(t.as_str());
                s.append("'");
            },
        }
        s
    }
}

/// Failure of a file download, as reported to the UI.
#[derive(Debug)]
pub enum DownloadFileError {
    RemotePathNotFound(String),
    Token(String),
    Other(String),
}

impl DownloadFileError {
    pub fn text(&self) -> String {
        let mut s = String::new();
        match self {
            DownloadFileError::RemotePathNotFound(p) => {
                s.append("remote path not found: '");
                s.append(p.as_str());
                s.append("'");
            },
            DownloadFileError::Token(t) => {
                s.append("token error: '");
                s.append(t.as_str());
                s.append("'");
            },
            DownloadFileError::Other(t) => {
                s.append("other error: '");
                s.append(t.as_str());
                s.append("'");
            },
        }
        s
    }
}

/// Failure of the interactive authorization flow.
#[derive(Debug)]
pub enum AuthError {
    BindErrors { errors: Vec<BindError> },
    CantOpenAuthPageInDefaultBrowser { auth_url: String, error: String },
    LocalServerError(String),
    IncomingRequestError { url: String, error: String },
    LocalServerWaitForAvailabileFailed,
}

/// The texts of the given bind failures, joined with ", ".
pub fn get_bind_errors_text(errors: &Vec<BindError>) -> String {
    let mut s = String::new();
    let mut i: usize = 0;
    while i < errors.len()
        decreases errors.len() - i,
    {
        if i > 0 {
            s.append(", ");
        }
        let t = errors[i].text();
        s.append(t.as_str());
        i = i + 1;
    }
    s
}

impl AuthError {
    pub fn text(&self) -> String {
        let mut s = String::new();
        match self {
            AuthError::BindErrors { errors } => {
                s.append("bind errors: '");
                let t = get_bind_errors_text(errors);
                s.append(t.as_str());
                s.append("'");
            },
            AuthError::CantOpenAuthPageInDefaultBrowser { auth_url: _, error } => {
                s.append("can't open auth page in default browser: ");
                s.append(error.as_str());
            },
            AuthError::LocalServerError(t) => {
                s.append("local server error: ");
                s.append(t.as_str());
            },
            AuthError::IncomingRequestError { url, error } => {
                s.append("incoming request error: '");
                s.append(error.as_str());
                s.append("', url: '");
                s.append(url.as_str());
                s.append("'");
            },
            AuthError::LocalServerWaitForAvailabileFailed => {
                s.append("local server wait for available failed");
            },
        }
        s
    }
}

} // verus!
