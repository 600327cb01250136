use vstd::prelude::*;
use vstd::string::StringExecFns;
use crate::call_messages;
use crate::clouds;
use crate::clouds::BaseErrorAccess;
use crate::strutil::spec_contains;
use crate::strutil::contains_str;

verus! {

/// Error of a folder-listing call.
#[derive(Debug)]
pub enum ListFolderCallError {
    Base(clouds::BaseError),
    PathNotFound(String),
}

impl clouds::BaseErrorAccess for ListFolderCallError {
    open spec fn spec_base_error(&self) -> Option<clouds::BaseError> {
        match self {
            ListFolderCallError::Base(res) => Some(*res),
            _ => None,
        }
    }

    fn get_base_error(&self) -> (r: Option<&clouds::BaseError>) {
        match self {
            ListFolderCallError::Base(res) => Some(res),
            _ => None,
        }
    }

    fn from_base(base: clouds::BaseError) -> (r: Self) {
        ListFolderCallError::Base(base)
    }

    fn take_base_error(self) -> (r: Result<clouds::BaseError, Self>) {
        match self {
            ListFolderCallError::Base(res) => Ok(res),
            other => Err(other),
        }
    }
}

/// Error of a file-download call.
#[derive(Debug)]
pub enum DownloadFileCallError {
    Base(clouds::BaseError),
    FileCreate { cloud_file: String, file: String, error: String },
    FileWrite { cloud_file: String, file: String, error: String },
    FileSyncAll { cloud_file: String, file: String, error: String },
    HeaderNotFound { cloud_file: String, status: u16, header: String, headers: String },
    NextChunk { cloud_file: String, position: u64, error: String },
    NotFound(String),
}

impl clouds::BaseErrorAccess for DownloadFileCallError {
    open spec fn spec_base_error(&self) -> Option<clouds::BaseError> {
        match self {
            DownloadFileCallError::Base(res) => Some(*res),
            _ => None,
        }
    }

    fn get_base_error(&self) -> (r: Option<&clouds::BaseError>) {
        match self {
            DownloadFileCallError::Base(res) => Some(res),
            _ => None,
        }
    }

    fn from_base(base: clouds::BaseError) -> (r: Self) {
        DownloadFileCallError::Base(base)
    }

    fn take_base_error(self) -> (r: Result<clouds::BaseError, Self>) {
        match self {
            DownloadFileCallError::Base(res) => Ok(res),
            other => Err(other),
        }
    }
}

impl DownloadFileCallError {
    pub fn e_file_create(e: &str, cloud_file: &str, file: &str) -> (r: Self)
        ensures
            r matches DownloadFileCallError::FileCreate { cloud_file: c, file: f, error: er }
                && c@ == cloud_file@ && f@ == file@ && er@ == e@,
    {
        DownloadFileCallError::FileCreate {
            cloud_file: cloud_file.to_owned(),
            file: file.to_owned(),
            error: e.to_owned(),
        }
    }

    pub fn e_file_write(e: &str, cloud_file: &str, file: &str) -> (r: Self)
        ensures
            r matches DownloadFileCallError::FileWrite { cloud_file: c, file: f, error: er } && c@
                == cloud_file@ && f@ == file@ && er@ == e@,
    {
        DownloadFileCallError::FileWrite {
            cloud_file: cloud_file.to_owned(),
            file: file.to_owned(),
            error: e.to_owned(),
        }
    }

    pub fn e_file_sync_all(e: &str, cloud_file: &str, file: &str) -> (r: Self)
        ensures
            r matches DownloadFileCallError::FileSyncAll { cloud_file: c, file: f, error: er }
                && c@ == cloud_file@ && f@ == file@ && er@ == e@,
    {
        DownloadFileCallError::FileSyncAll {
            cloud_file: cloud_file.to_owned(),
            file: file.to_owned(),
            error: e.to_owned(),
        }
    }

    pub fn e_header_not_found(header: &str, headers: &str, cloud_file: &str, status: u16) -> (r:
        Self)
        ensures
            r matches DownloadFileCallError::HeaderNotFound {
                cloud_file: c,
                status: s,
                header: h,
                headers: hs,
            } && c@ == cloud_file@ && s == status && h@ == header@ && hs@ == headers@,
    {
        DownloadFileCallError::HeaderNotFound {
            cloud_file: cloud_file.to_owned(),
            status,
            header: header.to_owned(),
            headers: headers.to_owned(),
        }
    }

    pub fn e_next_chunk(e: &str, cloud_file: &str, position: u64) -> (r: Self)
        ensures
            r matches DownloadFileCallError::NextChunk { cloud_file: c, position: p, error: er }
                && c@ == cloud_file@ && p == position && er@ == e@,
    {
        DownloadFileCallError::NextChunk {
            cloud_file: cloud_file.to_owned(),
            position,
            error: e.to_owned(),
        }
    }
}

impl ListFolderCallError {
    /// Human-readable description of the error.
    pub fn text(&self) -> String {
        match self {
            ListFolderCallError::Base(base) => base.text(),
            ListFolderCallError::PathNotFound(p) => {
                let mut s = String::new();
                s.append("path not found: ");
                s.append(p.as_str());
                s
            },
        }
    }
}

impl DownloadFileCallError {
    /// Human-readable description of the error.
    pub fn text(&self) -> String {
        let mut s = String::new();
        match self {
            DownloadFileCallError::Base(base) => {
                return base.text();
            },
            DownloadFileCallError::FileCreate { cloud_file, file, error } => {
                s.append("file create error (file: ");
                s.append(file.as_str());
                s.append(", cloud file: ");
                s.append(cloud_file.as_str());
                s.append("): ");
                s.append(error.as_str());
            },
            DownloadFileCallError::FileWrite { cloud_file, file, error } => {
                s.append("file write error (file: ");
                s.append(file.as_str());
                s.append(", cloud file: ");
                s.append(cloud_file.as_str());
                s.append("): ");
                s.append(error.as_str());
            },
            DownloadFileCallError::FileSyncAll { cloud_file, file, error } => {
                s.append("file sync error (file: ");
                s.append(file.as_str());
                s.append(", cloud file: ");
                s.append(cloud_file.as_str());
                s.append("): ");
                s.append(error.as_str());
            },
            DownloadFileCallError::HeaderNotFound { cloud_file, status, header, headers } => {
                s.append("Download file result does not contain needed header (");
                s.append(header.as_str());
                s.append("), cloud file: '");
                s.append(cloud_file.as_str());
                s.append("', headers: [");
                s.append(headers.as_str());
                s.append("], status: ");
                let st = crate::strutil::u64_to_dec_string(*status as u64);
                s.append(st.as_str());
            },
            DownloadFileCallError::NextChunk { cloud_file, position, error } => {
                s.append("next data chunk error (cloud_file: ");
                s.append(cloud_file.as_str());
                s.append(", position: ");
                let p = crate::strutil::u64_to_dec_string(*position);
                s.append(p.as_str());
                s.append("): ");
                s.append(error.as_str());
            },
            DownloadFileCallError::NotFound(p) => {
                s.append("cloud file not found: ");
                s.append(p.as_str());
            },
        }
        s
    }
}

/// Parameters of a folder-listing call, as the API takes them.
#[derive(Debug, Clone)]
pub struct ListFolderParams {
    pub path: String,
    pub recursive: Option<bool>,
    pub include_deleted: Option<bool>,
    pub include_has_explicit_shared_members: Option<bool>,
    pub include_mounted_folders: Option<bool>,
    pub limit: Option<u32>,
    pub include_non_downloadable_files: Option<bool>,
}

/// Parameters of a continue-listing call: the cursor of the page
/// before.
#[derive(Debug, Clone)]
pub struct ListFolderContinueParams {
    pub cursor: String,
}

/// A file entry of a listing. Modification times are seconds since
/// the Unix epoch.
#[derive(Debug)]
pub struct FileMeta {
    pub name: String,
    pub path_lower: String,
    pub path_display: String,
    pub id: String,
    pub client_modified: i64,
    pub server_modified: i64,
    pub rev: String,
    pub size: u64,
    pub is_downloadable: bool,
    pub content_hash: String,
}

/// A folder entry of a listing.
#[derive(Debug)]
pub struct FolderMeta {
    pub name: String,
    pub path_lower: String,
    pub path_display: String,
    pub id: String,
}

/// One entry of a listing: the discriminator tag told it apart.
#[derive(Debug)]
pub enum Meta {
    File(FileMeta),
    Folder(FolderMeta),
}

/// One page of a folder listing: its entries, and the cursor to ask
/// for the next page while `has_more` holds.
#[derive(Debug)]
pub struct ListFolderCallResult {
    pub entries: Vec<Meta>,
    pub cursor: String,
    pub has_more: bool,
}

/// What the code-to-tokens exchange returns.
#[derive(Debug, Clone)]
pub struct CodeToTokensResult {
    pub access_token: String,
    pub expires_in: i32,
    pub token_type: String,
    pub scope: String,
    pub refresh_token: String,
    pub account_id: String,
    pub uid: String,
}

/// What the refresh-token call returns.
#[derive(Debug, Clone)]
pub struct RefreshTokenResult {
    pub access_token: String,
    pub expires_in: i32,
    pub token_type: String,
}

/// Parameters of a download call: the remote path, and where to save.
#[derive(Debug, Clone)]
pub struct DownloadFileParams {
    pub path: String,
    pub save_to: String,
}

/// The download metadata the size-bearing response header carries.
#[derive(Debug)]
pub struct DownloadFileCallResult {
    pub name: String,
    pub id: String,
    pub client_modified: i64,
    pub server_modified: i64,
    pub rev: String,
    pub size: u64,
    pub path_lower: String,
    pub path_display: String,
}

/// What structured decoding made of an error body, handed in as plain
/// values: the fields of an HTTP 400 token-endpoint body, or the
/// `{error_summary, error}` envelope of the other statuses, or the
/// decoder's failure text.
pub enum ParsedErrorBody {
    Code400 { error: String, error_description: String },
    Envelope { error_summary: String, tag: EnvelopeTag },
    Unparsed { error: String },
}

/// The decoded `error` tag of an envelope: a base-level tag, or the
/// call-specific routine tag (whose meaning the caller supplies).
#[derive(Copy, Clone, Debug, PartialEq, Eq, Structural)]
pub enum EnvelopeTag {
    ExpiredAccessToken,
    Unknown,
    Routine,
}

/// The outcome of classification: a `BaseError`, or the marker that
/// the body carried the call's own routine error tag.
#[derive(Debug)]
pub enum Classified {
    Base(clouds::BaseError),
    Routine,
}

pub open spec fn needle_access_token_malformed() -> Seq<char> {
    "The given OAuth 2 access token is malformed"@
}

pub open spec fn needle_invalid_client() -> Seq<char> {
    "invalid_client: Invalid client_id or client_secret"@
}

pub open spec fn needle_invalid_authorization_value() -> Seq<char> {
    "Invalid authorization value in HTTP header \"Authorization\": "@
}

/// The HTTP 400 body names a malformed or revoked refresh token.
pub open spec fn code400_refresh_malformed(error: Seq<char>, desc: Seq<char>) -> bool {
    error == "invalid_grant"@ && (desc == "refresh token is malformed"@ || desc
        == "refresh token is invalid or revoked"@)
}

/// What classification must return for the given inputs.
pub open spec fn spec_classify_error_body(
    action: Seq<char>,
    status: u16,
    error_data: Seq<char>,
    parsed: ParsedErrorBody,
    r: Classified,
) -> bool {
    if status == 400 {
        match parsed {
            ParsedErrorBody::Code400 { error, error_description } => {
                if code400_refresh_malformed(error@, error_description@) {
                    r matches Classified::Base(clouds::BaseError::RefreshTokenMalformed {
                        action: a,
                    }) && a@ == action
                } else {
                    r matches Classified::Base(clouds::BaseError::UnknownApiErrorResult {
                        action: a,
                        status: s,
                        error: e,
                    }) && a@ == action && s == status && e@ == error_data
                }
            },
            _ => {
                if spec_contains(error_data, needle_access_token_malformed()) {
                    r matches Classified::Base(clouds::BaseError::AccessTokenMalformed {
                        action: a,
                        refresh_error,
                    }) && a@ == action && refresh_error is None
                } else if spec_contains(error_data, needle_invalid_client()) {
                    r matches Classified::Base(clouds::BaseError::InvalidClientIdOrClientSecret {
                        action: a,
                    }) && a@ == action
                } else if spec_contains(error_data, needle_invalid_authorization_value()) {
                    r matches Classified::Base(clouds::BaseError::InvalidAuthorizationValue {
                        action: a,
                        refresh_error,
                    }) && a@ == action && refresh_error is None
                } else {
                    r matches Classified::Base(clouds::BaseError::UnknownApiErrorResult {
                        action: a,
                        status: s,
                        error: e,
                    }) && a@ == action && s == status && e@ == error_data
                }
            },
        }
    } else {
        match parsed {
            ParsedErrorBody::Envelope { error_summary, tag } => {
                match tag {
                    EnvelopeTag::ExpiredAccessToken => r matches Classified::Base(
                        clouds::BaseError::ExpiredAccessToken { refresh_error },
                    ) && refresh_error is None,
                    EnvelopeTag::Unknown => r matches Classified::Base(
                        clouds::BaseError::UnknownApiErrorStructure { action: a, hint: h, error: e },
                    ) && a@ == action && h@ == ""@ && e@ == error_summary@,
                    EnvelopeTag::Routine => r is Routine,
                }
            },
            ParsedErrorBody::Unparsed { error } => {
                r matches Classified::Base(clouds::BaseError::ErrorBodyDeserialization {
                    action: a,
                    error: e,
                    error_data: d,
                }) && a@ == action && e@ == error@ && d@ == error_data
            },
            ParsedErrorBody::Code400 { .. } => {
                r matches Classified::Base(clouds::BaseError::ErrorBodyDeserialization {
                    action: a,
                    error: e,
                    error_data: d,
                }) && a@ == action && e@ == ""@ && d@ == error_data
            },
        }
    }
}

/// Classify an error body, as the provider's API defines it.
///
/// HTTP 400 bodies carry `{error, error_description}`: a recognised
/// refresh-token complaint maps to `RefreshTokenMalformed`; when that
/// decoding failed, the raw text is matched against the known token /
/// client-credential complaints; anything else is an unknown API
/// error result. Other statuses carry the `{error_summary, error}`
/// envelope: an expired-token tag, an unknown-structure tag, or the
/// call's own routine tag; a body the decoder could not read at all
/// is an error-body deserialization failure.
pub fn classify_error_body(
    action: &str,
    status: u16,
    error_data: &str,
    parsed: &ParsedErrorBody,
) -> (r: Classified)
    ensures
        spec_classify_error_body(action@, status, error_data@, *parsed, r),
{
    if status == 400 {
        match parsed {
            ParsedErrorBody::Code400 { error, error_description } => {
                let is_grant = crate::strutil::str_eq(error.as_str(), "invalid_grant");
                let is_desc = crate::strutil::str_eq(
                    error_description.as_str(),
                    "refresh token is malformed",
                ) || crate::strutil::str_eq(
                    error_description.as_str(),
                    "refresh token is invalid or revoked",
                );
                if is_grant && is_desc {
                    Classified::Base(clouds::BaseError::e_refresh_token_malformed(action))
                } else {
                    Classified::Base(
                        clouds::BaseError::e_unknown_api_error_result(action, status, error_data),
                    )
                }
            },
            _ => {
                if contains_str(error_data, "The given OAuth 2 access token is malformed") {
                    Classified::Base(clouds::BaseError::e_access_token_malformed(action))
                } else if contains_str(
                    error_data,
                    "invalid_client: Invalid client_id or client_secret",
                ) {
                    Classified::Base(clouds::BaseError::e_invalid_client_id_or_client_secret(action))
                } else if contains_str(
                    error_data,
                    "Invalid authorization value in HTTP header \"Authorization\": ",
                ) {
                    Classified::Base(clouds::BaseError::e_invalid_authorization_value(action))
                } else {
                    Classified::Base(
                        clouds::BaseError::e_unknown_api_error_result(action, status, error_data),
                    )
                }
            },
        }
    } else {
        match parsed {
            ParsedErrorBody::Envelope { error_summary, tag } => {
                match tag {
                    EnvelopeTag::ExpiredAccessToken => Classified::Base(
                        clouds::BaseError::ExpiredAccessToken { refresh_error: None },
                    ),
                    EnvelopeTag::Unknown => Classified::Base(
                        clouds::BaseError::UnknownApiErrorStructure {
                            action: action.to_owned(),
                            hint: "".to_owned(),
                            error: error_summary.clone(),
                        },
                    ),
                    EnvelopeTag::Routine => Classified::Routine,
                }
            },
            ParsedErrorBody::Unparsed { error } => Classified::Base(
                clouds::BaseError::e_error_body_deserialization(
                    action,
                    error.as_str(),
                    error_data,
                ),
            ),
            ParsedErrorBody::Code400 { .. } => Classified::Base(
                clouds::BaseError::e_error_body_deserialization(action, "", error_data),
            ),
        }
    }
}

impl ListFolderCallError {
    /// The call's own reading of a classification outcome: the routine
    /// tag of a folder listing means "path not found".
    pub fn from_classified(c: Classified, path: &str) -> (r: Self)
        ensures
            match c {
                Classified::Base(b) => r matches ListFolderCallError::Base(rb) && rb == b,
                Classified::Routine => r matches ListFolderCallError::PathNotFound(p) && p@
                    == path@,
            },
    {
        match c {
            Classified::Base(b) => ListFolderCallError::Base(b),
            Classified::Routine => ListFolderCallError::PathNotFound(path.to_owned()),
        }
    }
}

impl DownloadFileCallError {
    /// The call's own reading of a classification outcome: the routine
    /// tag of a download means "cloud file not found".
    pub fn from_classified(c: Classified, path: &str) -> (r: Self)
        ensures
            match c {
                Classified::Base(b) => r matches DownloadFileCallError::Base(rb) && rb == b,
                Classified::Routine => r matches DownloadFileCallError::NotFound(p) && p@ == path@,
            },
    {
        match c {
            Classified::Base(b) => DownloadFileCallError::Base(b),
            Classified::Routine => DownloadFileCallError::NotFound(path.to_owned()),
        }
    }
}

impl clouds::RefreshTokenCallError {
    /// The call's own reading of a classification outcome: the routine
    /// tag of a refresh call means the refresh token is invalid.
    pub fn from_classified(c: Classified) -> (r: Self)
        ensures
            match c {
                Classified::Base(b) => r matches clouds::RefreshTokenCallError::Base(rb) && rb == b,
                Classified::Routine => r is InvalidRefreshToken_,
            },
    {
        match c {
            Classified::Base(b) => clouds::RefreshTokenCallError::Base(b),
            Classified::Routine => clouds::RefreshTokenCallError::InvalidRefreshToken_,
        }
    }
}

impl clouds::AuthCodeToTokensCallError {
    /// The call's own reading of a classification outcome; the code
    /// exchange has no recognised routine tags.
    pub fn from_classified(c: Classified) -> (r: Self)
        ensures
            match c {
                Classified::Base(b) => r matches clouds::AuthCodeToTokensCallError::Base(rb) && rb
                    == b,
                Classified::Routine => r is Other,
            },
    {
        match c {
            Classified::Base(b) => clouds::AuthCodeToTokensCallError::Base(b),
            Classified::Routine => clouds::AuthCodeToTokensCallError::Other(
                "some AuthCodeToTokensCallError error".to_owned(),
            ),
        }
    }
}


/// The Base64 text that base64's standard encoding gives the bytes.
pub uninterp spec fn base64_of(b: Seq<u8>) -> Seq<char>;

/// One percent-encoded `key=value` pair of a form-urlencoded body.
pub uninterp spec fn form_pair_of(k: Seq<char>, v: Seq<char>) -> Seq<char>;

/// Relies on base64::encode: the standard Base64 text of the bytes,
/// which depends on the bytes alone.
#[verifier::external_body]
fn b64_encode(data: &[u8]) -> (r: String)
    ensures
        r@ == base64_of(data@),
{
    base64::encode(data)
}

/// Relies on form_urlencoded::Serializer::append_pair: the
/// percent-encoded `key=value` pair, which depends on the two texts
/// alone.
#[verifier::external_body]
fn form_pair(key: &str, value: &str) -> (r: String)
    ensures
        r@ == form_pair_of(key@, value@),
{
    form_urlencoded::Serializer::new(String::new()).append_pair(key, value).finish()
}

/// The HTTP Basic authorization header value of the client
/// credentials: "Basic " before the Base64 of "client_id:secret".
pub fn basic_auth_value(client_id: &str, secret: &str) -> (r: String)
    ensures
        r@ == "Basic "@ + base64_of(
            vstd::utf8::encode_utf8(client_id@ + ":"@ + secret@),
        ),
{
    let mut cred = String::new();
    cred.append(client_id);
    cred.append(":");
    cred.append(secret);
    let encoded = b64_encode(cred.as_str().as_bytes());
    let mut s = String::new();
    s.append("Basic ");
    s.append(encoded.as_str());
    s
}

/// The bearer authorization header value of a data call.
pub fn bearer_auth_value(token: &str) -> (r: String)
    ensures
        r@ == "Bearer "@ + token@,
{
    let mut s = String::new();
    s.append("Bearer ");
    s.append(token);
    s
}

/// One authenticated request, ready for a transport to carry out: the
/// method, the full URI, the headers in order, and the body text.
pub struct HttpRequestPlan {
    pub method: String,
    pub uri: String,
    pub headers: Vec<(String, String)>,
    pub body: String,
}

/// The request of a folder-listing call: POST to the listing
/// endpoint, bearer-authenticated, carrying the serialized parameters
/// as JSON.
pub fn list_folder_request(token: &str, params_json: String) -> (r: HttpRequestPlan)
    ensures
        r.method@ == "POST"@,
        r.uri@ == "https://api.dropboxapi.com/2/files/list_folder"@,
        r.headers@.len() == 2,
        r.headers@[0].0@ == "Authorization"@ && r.headers@[0].1@ == "Bearer "@ + token@,
        r.headers@[1].0@ == "Content-Type"@ && r.headers@[1].1@ == "application/json"@,
        r.body == params_json,
{
    let mut headers: Vec<(String, String)> = Vec::new();
    headers.push(("Authorization".to_owned(), bearer_auth_value(token)));
    headers.push(("Content-Type".to_owned(), "application/json".to_owned()));
    HttpRequestPlan {
        method: "POST".to_owned(),
        uri: "https://api.dropboxapi.com/2/files/list_folder".to_owned(),
        headers,
        body: params_json,
    }
}

/// The request of a continue-listing call.
pub fn list_folder_continue_request(token: &str, params_json: String) -> (r: HttpRequestPlan)
    ensures
        r.method@ == "POST"@,
        r.uri@ == "https://api.dropboxapi.com/2/files/list_folder/continue"@,
        r.headers@.len() == 2,
        r.headers@[0].0@ == "Authorization"@ && r.headers@[0].1@ == "Bearer "@ + token@,
        r.headers@[1].0@ == "Content-Type"@ && r.headers@[1].1@ == "application/json"@,
        r.body == params_json,
{
    let mut headers: Vec<(String, String)> = Vec::new();
    headers.push(("Authorization".to_owned(), bearer_auth_value(token)));
    headers.push(("Content-Type".to_owned(), "application/json".to_owned()));
    HttpRequestPlan {
        method: "POST".to_owned(),
        uri: "https://api.dropboxapi.com/2/files/list_folder/continue".to_owned(),
        headers,
        body: params_json,
    }
}

/// The request of a download call: POST to the content endpoint,
/// bearer-authenticated, the parameters serialized into the
/// Dropbox-API-Arg header and the body empty.
pub fn download_file_request(token: &str, args_json: String) -> (r: HttpRequestPlan)
    ensures
        r.method@ == "POST"@,
        r.uri@ == "https://content.dropboxapi.com/2/files/download"@,
        r.headers@.len() == 2,
        r.headers@[0].0@ == "Authorization"@ && r.headers@[0].1@ == "Bearer "@ + token@,
        r.headers@[1].0@ == "Dropbox-API-Arg"@ && r.headers@[1].1 == args_json,
        r.body@.len() == 0,
{
    let mut headers: Vec<(String, String)> = Vec::new();
    headers.push(("Authorization".to_owned(), bearer_auth_value(token)));
    headers.push(("Dropbox-API-Arg".to_owned(), args_json));
    HttpRequestPlan {
        method: "POST".to_owned(),
        uri: "https://content.dropboxapi.com/2/files/download".to_owned(),
        headers,
        body: String::new(),
    }
}

/// The request of the refresh-token call: POST to the token endpoint,
/// basic-authenticated with the client credentials, the body
/// form-urlencoded.
pub fn refresh_token_request(refresh_token: &str, client_id: &str, secret: &str) -> (r:
    HttpRequestPlan)
    ensures
        r.method@ == "POST"@,
        r.uri@ == "https://api.dropbox.com/oauth2/token"@,
        r.headers@.len() == 2,
        r.headers@[0].0@ == "Authorization"@ && r.headers@[0].1@ == "Basic "@ + base64_of(
            vstd::utf8::encode_utf8(client_id@ + ":"@ + secret@),
        ),
        r.headers@[1].0@ == "Content-Type"@ && r.headers@[1].1@
            == "application/x-www-form-urlencoded"@,
        r.body@ == form_pair_of("refresh_token"@, refresh_token@) + "&"@ + form_pair_of(
            "grant_type"@,
            "refresh_token"@,
        ),
{
    let mut headers: Vec<(String, String)> = Vec::new();
    headers.push(("Authorization".to_owned(), basic_auth_value(client_id, secret)));
    headers.push(
        ("Content-Type".to_owned(), "application/x-www-form-urlencoded".to_owned()),
    );
    let mut body = form_pair("refresh_token", refresh_token);
    body.append("&");
    let second = form_pair("grant_type", "refresh_token");
    body.append(second.as_str());
    HttpRequestPlan {
        method: "POST".to_owned(),
        uri: "https://api.dropbox.com/oauth2/token".to_owned(),
        headers,
        body,
    }
}

/// The request of the code-to-tokens exchange: POST to the token
/// endpoint, basic-authenticated, the code, grant type and redirect
/// URI form-urlencoded in the body.
pub fn auth_code_request(code: &str, redirect_uri: &str, client_id: &str, secret: &str) -> (r:
    HttpRequestPlan)
    ensures
        r.method@ == "POST"@,
        r.uri@ == "https://api.dropbox.com/oauth2/token"@,
        r.headers@.len() == 2,
        r.headers@[0].0@ == "Authorization"@ && r.headers@[0].1@ == "Basic "@ + base64_of(
            vstd::utf8::encode_utf8(client_id@ + ":"@ + secret@),
        ),
        r.headers@[1].0@ == "Content-Type"@ && r.headers@[1].1@
            == "application/x-www-form-urlencoded"@,
        r.body@ == form_pair_of("code"@, code@) + "&"@ + form_pair_of(
            "grant_type"@,
            "authorization_code"@,
        ) + "&"@ + form_pair_of("redirect_uri"@, redirect_uri@),
{
    let mut headers: Vec<(String, String)> = Vec::new();
    headers.push(("Authorization".to_owned(), basic_auth_value(client_id, secret)));
    headers.push(
        ("Content-Type".to_owned(), "application/x-www-form-urlencoded".to_owned()),
    );
    let mut body = form_pair("code", code);
    body.append("&");
    let second = form_pair("grant_type", "authorization_code");
    body.append(second.as_str());
    body.append("&");
    let third = form_pair("redirect_uri", redirect_uri);
    body.append(third.as_str());
    HttpRequestPlan {
        method: "POST".to_owned(),
        uri: "https://api.dropbox.com/oauth2/token".to_owned(),
        headers,
        body,
    }
}


/// The two bus events a call kind posts around a token refresh: one
/// when the refresh begins, one when it is done.
pub trait WithRefreshToken {
    /// The call this creator speaks for.
    spec fn spec_call_id(&self) -> u64;

    fn refresh_token(&self) -> (m: call_messages::Message)
        ensures
            m.call_id == Some(self.spec_call_id()),
    ;

    fn refresh_token_complete(&self) -> (m: call_messages::Message)
        ensures
            m.call_id == Some(self.spec_call_id()),
    ;
}

/// Refresh events phrased as folder-listing progress.
pub struct ListFolderTokenMessageCreator {
    pub call_id: u64,
}

impl WithRefreshToken for ListFolderTokenMessageCreator {
    open spec fn spec_call_id(&self) -> u64 {
        self.call_id
    }

    fn refresh_token(&self) -> (m: call_messages::Message)
        ensures
            m.data matches call_messages::Data::ListFolder(
                call_messages::ListFolder::RefreshToken,
            ),
    {
        call_messages::Message {
            call_id: Some(self.call_id),
            data: call_messages::Data::ListFolder(call_messages::ListFolder::RefreshToken),
        }
    }

    fn refresh_token_complete(&self) -> (m: call_messages::Message)
        ensures
            m.data matches call_messages::Data::ListFolder(
                call_messages::ListFolder::RefreshTokenComplete,
            ),
    {
        call_messages::Message {
            call_id: Some(self.call_id),
            data: call_messages::Data::ListFolder(
                call_messages::ListFolder::RefreshTokenComplete,
            ),
        }
    }
}

/// Refresh events phrased as download progress.
pub struct DownloadFileTokenMessageCreator {
    pub call_id: u64,
}

impl WithRefreshToken for DownloadFileTokenMessageCreator {
    open spec fn spec_call_id(&self) -> u64 {
        self.call_id
    }

    fn refresh_token(&self) -> (m: call_messages::Message)
        ensures
            m.data matches call_messages::Data::DownloadFile(
                call_messages::DownloadFile::RefreshToken,
            ),
    {
        call_messages::Message {
            call_id: Some(self.call_id),
            data: call_messages::Data::DownloadFile(call_messages::DownloadFile::RefreshToken),
        }
    }

    fn refresh_token_complete(&self) -> (m: call_messages::Message)
        ensures
            m.data matches call_messages::Data::DownloadFile(
                call_messages::DownloadFile::RefreshTokenComplete,
            ),
    {
        call_messages::Message {
            call_id: Some(self.call_id),
            data: call_messages::Data::DownloadFile(
                call_messages::DownloadFile::RefreshTokenComplete,
            ),
        }
    }
}

/// What the single-flight refresh critical section decides once the
/// guard is held and the stored token has been re-read.
pub enum RefreshDecision {
    UseCurrent { token: String },
    DoNetworkRefresh,
}

/// Decide, under the refresh guard, whether a network refresh is due.
///
/// The stored token is re-read after the guard was taken: only when
/// it still equals the token that failed is the network called;
/// otherwise another task has refreshed it already and the current
/// token is reused without a call.
pub fn refresh_decision(failed_token: &str, current_token: &str) -> (r: RefreshDecision)
    ensures
        (current_token@ == failed_token@) <==> r is DoNetworkRefresh,
        r matches RefreshDecision::UseCurrent { token } ==> token@ == current_token@,
{
    if crate::strutil::str_eq(failed_token, current_token) {
        RefreshDecision::DoNetworkRefresh
    } else {
        RefreshDecision::UseCurrent { token: current_token.to_owned() }
    }
}

/// The stored token after `k` guard-serialized tasks, each of which
/// failed on `stale` and runs the single-flight section: a task that
/// still reads `stale` refreshes the store to `fresh`, any other
/// reuses what it reads.
pub open spec fn spec_token_after(stored: Seq<char>, stale: Seq<char>, fresh: Seq<char>, k: nat) -> Seq<char>
    decreases k,
{
    if k == 0 {
        stored
    } else if stored == stale {
        spec_token_after(fresh, stale, fresh, (k - 1) as nat)
    } else {
        spec_token_after(stored, stale, fresh, (k - 1) as nat)
    }
}

/// How many of `k` guard-serialized tasks perform a network refresh.
pub open spec fn spec_refresh_count(stored: Seq<char>, stale: Seq<char>, fresh: Seq<char>, k: nat) -> nat
    decreases k,
{
    if k == 0 {
        0
    } else if stored == stale {
        1 + spec_refresh_count(fresh, stale, fresh, (k - 1) as nat)
    } else {
        spec_refresh_count(stored, stale, fresh, (k - 1) as nat)
    }
}

/// Once the stored token differs from the stale one, it stays as it
/// is and no later task refreshes.
pub proof fn lemma_token_after_stable(
    stored: Seq<char>,
    stale: Seq<char>,
    fresh: Seq<char>,
    k: nat,
)
    requires
        stored != stale,
    ensures
        spec_token_after(stored, stale, fresh, k) == stored,
    decreases k,
{
    if k > 0 {
        lemma_token_after_stable(stored, stale, fresh, (k - 1) as nat);
    }
}

/// Once the stored token differs from the stale one, no later task
/// refreshes.
pub proof fn lemma_refresh_count_zero(
    stored: Seq<char>,
    stale: Seq<char>,
    fresh: Seq<char>,
    k: nat,
)
    requires
        stored != stale,
    ensures
        spec_refresh_count(stored, stale, fresh, k) == 0,
    decreases k,
{
    if k > 0 {
        lemma_refresh_count_zero(stored, stale, fresh, (k - 1) as nat);
    }
}

/// The single-flight law: when any number of concurrent tasks fail on
/// the same stale token and then run the refresh section one after
/// the other under the guard, exactly one network refresh happens —
/// the first task refreshes, every later one re-reads the fresh token
/// and reuses it.
pub proof fn lemma_single_flight_refresh(stale: Seq<char>, fresh: Seq<char>, k: nat)
    requires
        k >= 1,
        fresh != stale,
    ensures
        spec_refresh_count(stale, stale, fresh, k) == 1,
        spec_token_after(stale, stale, fresh, k) == fresh,
{
    lemma_refresh_count_zero(fresh, stale, fresh, (k - 1) as nat);
    lemma_token_after_stable(fresh, stale, fresh, (k - 1) as nat);
}

/// What the token-refresh coordinator does with the first attempt's
/// result.
pub enum FirstCallOutcome<R, E> {
    Done(Result<R, E>),
    NeedRefresh { failed: E },
}

/// Sort the first attempt's result: a success and any error that is
/// no token error are final as they stand; a token error opens the
/// refresh path.
pub fn on_first_result<R, E: clouds::BaseErrorAccess>(res: Result<R, E>) -> (r: FirstCallOutcome<
    R,
    E,
>)
    ensures
        match res {
            Ok(v) => r matches FirstCallOutcome::Done(Ok(v2)) && v2 == v,
            Err(e) => if (e.spec_base_error() matches Some(b) && b.spec_is_token_error()) {
                r matches FirstCallOutcome::NeedRefresh { failed } && failed == e
            } else {
                r matches FirstCallOutcome::Done(Err(e2)) && e2 == e
            },
        },
{
    match res {
        Ok(v) => FirstCallOutcome::Done(Ok(v)),
        Err(e) => {
            let is_token = match e.get_base_error() {
                Some(b) => b.is_token_error(),
                None => false,
            };
            if is_token {
                FirstCallOutcome::NeedRefresh { failed: e }
            } else {
                FirstCallOutcome::Done(Err(e))
            }
        },
    }
}

/// What the coordinator does once the refresh attempt came back.
pub enum AfterRefreshOutcome<E> {
    RetryCall,
    Fail(E),
}

/// Sort the refresh attempt's result: a successful refresh earns the
/// call exactly one retry; a failed refresh is terminal, and the
/// original token error is returned with the refresh failure attached
/// as its nested cause.
pub fn on_refresh_result<E: clouds::BaseErrorAccess>(
    failed: E,
    refresh: Result<String, clouds::RefreshTokenCallError>,
) -> (r: AfterRefreshOutcome<E>)
    requires
        failed.spec_base_error() matches Some(b) && b.spec_is_token_error(),
    ensures
        match refresh {
            Ok(_) => r is RetryCall,
            Err(re) => r matches AfterRefreshOutcome::Fail(e) && (e.spec_base_error()
                matches Some(b2) && (failed.spec_base_error() matches Some(b)
                && clouds::spec_attach_refresh_error(b, re, b2))),
        },
{
    match refresh {
        Ok(_) => AfterRefreshOutcome::RetryCall,
        Err(re) => {
            match failed.take_base_error() {
                Ok(b) => AfterRefreshOutcome::Fail(E::from_base(b.attach_refresh_error(re))),
                Err(orig) => AfterRefreshOutcome::Fail(orig),
            }
        },
    }
}

/// The running state of one download: the total size once the
/// metadata header told it, and the bytes received so far.
pub struct DownloadFlow {
    pub size: Option<u64>,
    pub bytes_received: u64,
}

impl DownloadFlow {
    /// A download that has not received its response header yet.
    pub fn new() -> (r: Self)
        ensures
            r.size is None,
            r.bytes_received == 0,
    {
        DownloadFlow { size: None, bytes_received: 0 }
    }

    /// Record the size the metadata header carries; the size-known
    /// event goes out before any chunk is counted.
    pub fn on_metadata(&mut self, size: u64, call_id: u64) -> (m: call_messages::Message)
        ensures
            final(self).size == Some(size),
            final(self).bytes_received == old(self).bytes_received,
            m.call_id == Some(call_id),
            m.data matches call_messages::Data::DownloadFile(
                call_messages::DownloadFile::SizeInfo { size: s },
            ) && s == Some(size),
    {
        self.size = Some(size);
        call_messages::Message {
            call_id: Some(call_id),
            data: call_messages::Data::DownloadFile(
                call_messages::DownloadFile::SizeInfo { size: Some(size) },
            ),
        }
    }

    /// Count one received chunk and report the running byte total.
    pub fn on_chunk(&mut self, chunk_len: u64, call_id: u64) -> (m: call_messages::Message)
        requires
            old(self).bytes_received + chunk_len <= u64::MAX,
        ensures
            final(self).size == old(self).size,
            final(self).bytes_received == old(self).bytes_received + chunk_len,
            m.call_id == Some(call_id),
            m.data matches call_messages::Data::DownloadFile(
                call_messages::DownloadFile::Progress { value },
            ) && value == old(self).bytes_received + chunk_len,
    {
        self.bytes_received = self.bytes_received + chunk_len;
        call_messages::Message {
            call_id: Some(call_id),
            data: call_messages::Data::DownloadFile(
                call_messages::DownloadFile::Progress { value: self.bytes_received },
            ),
        }
    }
}

/// The sum of the chunk lengths.
pub open spec fn spec_sum(chunks: Seq<u64>) -> int
    decreases chunks.len(),
{
    if chunks.len() == 0 {
        0
    } else {
        spec_sum(chunks.drop_last()) + chunks.last()
    }
}

/// The byte counter after each chunk: the prefix sums of the lengths.
pub open spec fn spec_prefix_sum(chunks: Seq<u64>, i: int) -> int {
    spec_sum(chunks.subrange(0, i))
}

/// The events a download of known chunks emits, in order: the
/// size-known event first, then one progress event per chunk with the
/// running byte total.
pub open spec fn spec_download_events(size: u64, chunks: Seq<u64>) -> Seq<
    call_messages::DownloadFile,
> {
    seq![call_messages::DownloadFile::SizeInfo { size: Some(size) }].add(
        Seq::new(
            chunks.len(),
            |i: int|
                call_messages::DownloadFile::Progress {
                    value: spec_prefix_sum(chunks, i + 1) as u64,
                },
        ),
    )
}

/// Byte accounting of a download: for a file whose chunks sum to the
/// advertised size, the final byte counter equals that size, and the
/// size-known event precedes every progress event.
pub proof fn lemma_download_byte_accounting(size: u64, chunks: Seq<u64>)
    requires
        spec_sum(chunks) == size,
    ensures
        spec_download_events(size, chunks).len() == 1 + chunks.len(),
        spec_download_events(size, chunks)[0] matches call_messages::DownloadFile::SizeInfo {
            size: s,
        } && s == Some(size),
        forall|i: int|
            1 <= i < 1 + chunks.len() ==> #[trigger] spec_download_events(size, chunks)[i]
                matches call_messages::DownloadFile::Progress { .. },
        chunks.len() > 0 ==> (spec_download_events(size, chunks).last()
            matches call_messages::DownloadFile::Progress { value } && value == size),
{
    assert(chunks.subrange(0, chunks.len() as int) =~= chunks);
}

} // verus!
