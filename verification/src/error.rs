use vstd::prelude::*;
use vstd::string::StringExecFns;

verus! {

/// A failure to bind the local OAuth callback listener to one
/// candidate address, or to derive an address from a redirect URL.
#[derive(Debug, Clone)]
pub enum BindError {
    Error { addr: String, text: String },
    CantGetHostPortFromUrl { url: String, text: String },
    InvalidUrl { url: String, text: String },
    InvalidUrlOnParse { url: String, text: String },
}

impl BindError {
    /// Human-readable description of one bind failure.
    pub fn text(&self) -> String {
        let mut s = String::new();
        match self {
            BindError::Error { addr, text } => {
                s.append("can't bind to '");
                s.append(addr.as_str());
                s.append("': ");
                s.append(text.as_str());
            },
            BindError::CantGetHostPortFromUrl { url, text } => {
                s.append("can't get host:port from url '");
                s.append(url.as_str());
                s.append("': ");
                s.append(text.as_str());
            },
            BindError::InvalidUrl { url, text } => {
                s.append("invalid url '");
                s.append(url.as_str());
                s.append("': ");
                s.append(text.as_str());
            },
            BindError::InvalidUrlOnParse { url, text } => {
                s.append("invalid url on parse '");
                s.append(url.as_str());
                s.append("': ");
                s.append(text.as_str());
            },
        }
        s
    }
}

} // verus!
