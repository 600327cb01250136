use vstd::prelude::*;
use vstd::string::StringExecFns;
use vstd::string::StrSliceExecFns;

verus! {

/// A configured storage could not be set up.
#[derive(Debug, Clone)]
pub enum InitError {
    InvalidDownloadToPathForStorage { path: String, storage: String },
}

impl InitError {
    /// Human-readable description of the error.
    pub fn text(&self) -> String {
        let mut s = String::new();
        match self {
            InitError::InvalidDownloadToPathForStorage { path, storage } => {
                s.append("Invalid download_to path '");
                s.append(path.as_str());
                s.append("' for storage '");
                s.append(storage.as_str());
                s.append("'");
            },
        }
        s
    }
}

/// The download directory a storage starts from: what the
/// configuration names, or the working directory when it names none.
pub fn default_download_path(path: &str) -> (r: String)
    ensures
        r@ == if path@.len() == 0 {
            "./"@
        } else {
            path@
        },
{
    if path.unicode_len() == 0 {
        "./".to_owned()
    } else {
        path.to_owned()
    }
}

/// The path with a '/' at its end, put there unless one already is.
pub fn ensure_trailing_slash(path: &str) -> (r: String)
    ensures
        r@ == if path@.len() > 0 && path@[path@.len() - 1] == '/' {
            path@
        } else {
            path@ + "/"@
        },
{
    let len = path.unicode_len();
    if len > 0 && path.get_char(len - 1) == '/' {
        path.to_owned()
    } else {
        let mut s = path.to_owned();
        s.append("/");
        s
    }
}

} // verus!
