use vstd::prelude::*;
use vstd::string::StringExecFns;

verus! {

/// Identifies the cloud provider a storage talks to.
#[derive(Copy, Clone, Debug)]
pub enum CloudId {
    Dropbox,
}

/// Errors common to every API call: transport, body handling and
/// credential problems, as classified from the provider's responses.
///
/// The three token errors may carry the error of a refresh attempt
/// that was made (and failed) on their account.
#[derive(Debug)]
pub enum BaseError {
    ExpiredAccessToken { refresh_error: Option<Box<RefreshTokenCallError>> },
    ResponseBodyAggregate { action: String, hint: String, error: String },
    ErrorBodyAggregate { action: String, hint: String, error: String },
    ResponseWait { action: String, hint: String, error: String },
    ResponseBodyDeserialization { action: String, hint: String, error: String },
    ErrorBodyDeserialization { action: String, error: String, error_data: String },
    UnknownApiErrorStructure { action: String, hint: String, error: String },
    AccessTokenMalformed { action: String, refresh_error: Option<Box<RefreshTokenCallError>> },
    RefreshTokenMalformed { action: String },
    InvalidClientIdOrClientSecret { action: String },
    InvalidAuthorizationValue { action: String, refresh_error: Option<Box<RefreshTokenCallError>> },
    UnknownApiErrorResult { action: String, status: u16, error: String },
}

impl BaseError {
    /// A permanent error is not worth retrying with the same inputs;
    /// a transient one (transport waits, body aggregation) may succeed
    /// on a later attempt.
    pub open spec fn spec_is_permanent(&self) -> bool {
        !(self matches BaseError::ResponseBodyAggregate { .. } || self
            matches BaseError::ResponseWait { .. } || self matches BaseError::ErrorBodyAggregate {
            ..
        } || self matches BaseError::ErrorBodyDeserialization { .. })
    }

    pub fn is_permanent(&self) -> (r: bool)
        ensures
            r == self.spec_is_permanent(),
    {
        match self {
            BaseError::ExpiredAccessToken { .. }
            | BaseError::ResponseBodyDeserialization { .. }
            | BaseError::UnknownApiErrorStructure { .. }
            | BaseError::AccessTokenMalformed { .. }
            | BaseError::InvalidClientIdOrClientSecret { .. }
            | BaseError::InvalidAuthorizationValue { .. }
            | BaseError::RefreshTokenMalformed { .. }
            | BaseError::UnknownApiErrorResult { .. } => true,
            BaseError::ResponseBodyAggregate { .. }
            | BaseError::ResponseWait { .. }
            | BaseError::ErrorBodyAggregate { .. }
            | BaseError::ErrorBodyDeserialization { .. } => false,
        }
    }

    /// A token error reports that the access token itself was not
    /// accepted; it is what triggers the refresh path.
    pub open spec fn spec_is_token_error(&self) -> bool {
        self matches BaseError::ExpiredAccessToken { .. } || self
            matches BaseError::AccessTokenMalformed { .. } || self
            matches BaseError::InvalidAuthorizationValue { .. }
    }

    pub fn is_token_error(&self) -> (r: bool)
        ensures
            r == self.spec_is_token_error(),
    {
        match self {
            BaseError::ExpiredAccessToken { .. }
            | BaseError::AccessTokenMalformed { .. }
            | BaseError::InvalidAuthorizationValue { .. } => true,
            _ => false,
        }
    }

    pub fn e_response_wait(action: &str, error: &str) -> (r: Self)
        ensures
            r matches BaseError::ResponseWait { action: a, hint: h, error: e } && a@ == action@
                && h@ == ""@ && e@ == error@,
    {
        BaseError::ResponseWait {
            action: action.to_owned(),
            hint: "".to_owned(),
            error: error.to_owned(),
        }
    }

    pub fn e_response_body_aggregate(action: &str, error: &str) -> (r: Self)
        ensures
            r matches BaseError::ResponseBodyAggregate { action: a, hint: h, error: e } && a@
                == action@ && h@ == ""@ && e@ == error@,
    {
        BaseError::ResponseBodyAggregate {
            action: action.to_owned(),
            hint: "".to_owned(),
            error: error.to_owned(),
        }
    }

    pub fn e_response_body_deserialization(action: &str, error: &str) -> (r: Self)
        ensures
            r matches BaseError::ResponseBodyDeserialization { action: a, hint: h, error: e } && a@
                == action@ && h@ == ""@ && e@ == error@,
    {
        BaseError::ResponseBodyDeserialization {
            action: action.to_owned(),
            hint: "".to_owned(),
            error: error.to_owned(),
        }
    }

    pub fn e_error_body_aggregate(action: &str, error: &str) -> (r: Self)
        ensures
            r matches BaseError::ErrorBodyAggregate { action: a, hint: h, error: e } && a@
                == action@ && h@ == ""@ && e@ == error@,
    {
        BaseError::ErrorBodyAggregate {
            action: action.to_owned(),
            hint: "".to_owned(),
            error: error.to_owned(),
        }
    }

    pub fn e_error_body_deserialization(action: &str, error: &str, error_data: &str) -> (r: Self)
        ensures
            r matches BaseError::ErrorBodyDeserialization { action: a, error: e, error_data: d }
                && a@ == action@ && e@ == error@ && d@ == error_data@,
    {
        BaseError::ErrorBodyDeserialization {
            action: action.to_owned(),
            error: error.to_owned(),
            error_data: error_data.to_owned(),
        }
    }

    pub fn e_access_token_malformed(action: &str) -> (r: Self)
        ensures
            r matches BaseError::AccessTokenMalformed { action: a, refresh_error } && a@ == action@
                && refresh_error is None,
    {
        BaseError::AccessTokenMalformed { action: action.to_owned(), refresh_error: None }
    }

    pub fn e_refresh_token_malformed(action: &str) -> (r: Self)
        ensures
            r matches BaseError::RefreshTokenMalformed { action: a } && a@ == action@,
    {
        BaseError::RefreshTokenMalformed { action: action.to_owned() }
    }

    pub fn e_invalid_client_id_or_client_secret(action: &str) -> (r: Self)
        ensures
            r matches BaseError::InvalidClientIdOrClientSecret { action: a } && a@ == action@,
    {
        BaseError::InvalidClientIdOrClientSecret { action: action.to_owned() }
    }

    pub fn e_invalid_authorization_value(action: &str) -> (r: Self)
        ensures
            r matches BaseError::InvalidAuthorizationValue { action: a, refresh_error } && a@
                == action@ && refresh_error is None,
    {
        BaseError::InvalidAuthorizationValue { action: action.to_owned(), refresh_error: None }
    }

    pub fn e_unknown_api_error_result(action: &str, status: u16, error: &str) -> (r: Self)
        ensures
            r matches BaseError::UnknownApiErrorResult { action: a, status: s, error: e } && a@
                == action@ && s == status && e@ == error@,
    {
        BaseError::UnknownApiErrorResult {
            action: action.to_owned(),
            status,
            error: error.to_owned(),
        }
    }
}

/// `r` is `b` with the failed refresh attempt `re` recorded as its
/// nested cause; only the three token errors can carry one.
pub open spec fn spec_attach_refresh_error(b: BaseError, re: RefreshTokenCallError, r: BaseError) -> bool {
    match b {
        BaseError::ExpiredAccessToken { .. } => r matches BaseError::ExpiredAccessToken {
            refresh_error: Some(x),
        } && x == re,
        BaseError::AccessTokenMalformed { action, .. } => r
            matches BaseError::AccessTokenMalformed { action: a2, refresh_error: Some(x) } && a2
            == action && x == re,
        BaseError::InvalidAuthorizationValue { action, .. } => r
            matches BaseError::InvalidAuthorizationValue { action: a2, refresh_error: Some(x) }
            && a2 == action && x == re,
        _ => false,
    }
}

impl BaseError {
    /// Record a failed refresh attempt as this token error's nested
    /// cause.
    pub fn attach_refresh_error(self, re: RefreshTokenCallError) -> (r: Self)
        requires
            self.spec_is_token_error(),
        ensures
            spec_attach_refresh_error(self, re, r),
            r.spec_is_token_error(),
    {
        match self {
            BaseError::ExpiredAccessToken { .. } => BaseError::ExpiredAccessToken {
                refresh_error: Some(Box::new(re)),
            },
            BaseError::AccessTokenMalformed { action, .. } => BaseError::AccessTokenMalformed {
                action,
                refresh_error: Some(Box::new(re)),
            },
            BaseError::InvalidAuthorizationValue { action, .. } => {
                BaseError::InvalidAuthorizationValue {
                    action,
                    refresh_error: Some(Box::new(re)),
                }
            },
            other => other,
        }
    }
}

/// The text a nested refresh failure adds to a token error's
/// description, or nothing where no refresh was attempted.
pub fn extract_rte(e: &Option<Box<RefreshTokenCallError>>) -> String
    decreases *e,
{
    match e {
        Some(inner) => {
            let mut s = String::new();
            s.append(", with refresh token error: ");
            let t = (*inner).text();
            s.append(t.as_str());
            s
        },
        None => String::new(),
    }
}

impl BaseError {
    /// Human-readable description of the error.
    pub fn text(&self) -> String
        decreases *self,
    {
        let mut s = String::new();
        match self {
            BaseError::ExpiredAccessToken { refresh_error } => {
                s.append("Expired access token");
                let t = extract_rte(refresh_error);
                s.append(t.as_str());
            },
            BaseError::ResponseBodyAggregate { action, hint, error } => {
                s.append("Aggregate response body failed: (action: ");
                s.append(action.as_str());
                s.append(", hint: ");
                s.append(hint.as_str());
                s.append(", error: ");
                s.append(error.as_str());
                s.append(")");
            },
            BaseError::ErrorBodyAggregate { action, hint, error } => {
                s.append("Aggregate error body failed: (action: ");
                s.append(action.as_str());
                s.append(", hint: ");
                s.append(hint.as_str());
                s.append(", error: ");
                s.append(error.as_str());
                s.append(")");
            },
            BaseError::ResponseWait { action, hint, error } => {
                s.append("response wait failed: (action: ");
                s.append(action.as_str());
                s.append(", hint: ");
                s.append(hint.as_str());
                s.append(", error: ");
                s.append(error.as_str());
                s.append(")");
            },
            BaseError::ResponseBodyDeserialization { action, hint, error } => {
                s.append("response body deserialization failed: (action: ");
                s.append(action.as_str());
                s.append(", hint: ");
                s.append(hint.as_str());
                s.append(", error: ");
                s.append(error.as_str());
                s.append(")");
            },
            BaseError::ErrorBodyDeserialization { action, error, error_data } => {
                s.append("response body deserialization failed: (action: ");
                s.append(action.as_str());
                s.append(", error: ");
                s.append(error.as_str());
                s.append(", data: ");
                s.append(error_data.as_str());
                s.append(")");
            },
            BaseError::UnknownApiErrorStructure { action, hint, error } => {
                s.append("unknown api error data structure: (action: ");
                s.append(action.as_str());
                s.append(", hint: ");
                s.append(hint.as_str());
                s.append(", error: ");
                s.append(error.as_str());
                s.append(")");
            },
            BaseError::AccessTokenMalformed { action, refresh_error } => {
                s.append("access token malformed: (action: ");
                s.append(action.as_str());
                s.append(")");
                let t = extract_rte(refresh_error);
                s.append(t.as_str());
            },
            BaseError::RefreshTokenMalformed { action } => {
                s.append("refresh token malformed: (action: ");
                s.append(action.as_str());
                s.append(")");
            },
            BaseError::InvalidClientIdOrClientSecret { action } => {
                s.append("invalid client_id or client_secret: (action: ");
                s.append(action.as_str());
                s.append(")");
            },
            BaseError::InvalidAuthorizationValue { action, refresh_error } => {
                s.append("Invalid authorization value in HTTP header \"Authorization\" (action: ");
                s.append(action.as_str());
                s.append(")");
                let t = extract_rte(refresh_error);
                s.append(t.as_str());
            },
            BaseError::UnknownApiErrorResult { action, status, error } => {
                s.append("unknown api error result: (action: ");
                s.append(action.as_str());
                s.append(", status: ");
                let st = crate::strutil::u64_to_dec_string(*status as u64);
                s.append(st.as_str());
                s.append(", error: ");
                s.append(error.as_str());
                s.append(")");
            },
        }
        s
    }
}

/// Access to the `BaseError` inside a call-specific error type, and
/// construction from one; every call-error enum implements it so the
/// refresh coordinator and the classifier can work generically.
pub trait BaseErrorAccess: Sized {
    /// The `BaseError` this error wraps, if it wraps one.
    spec fn spec_base_error(&self) -> Option<BaseError>;

    fn get_base_error(&self) -> (r: Option<&BaseError>)
        ensures
            match r {
                Some(b) => self.spec_base_error() == Some(*b),
                None => self.spec_base_error() is None,
            },
    ;

    fn from_base(base: BaseError) -> (r: Self)
        ensures
            r.spec_base_error() == Some(base),
    ;

    fn take_base_error(self) -> (r: Result<BaseError, Self>)
        ensures
            match r {
                Ok(b) => self.spec_base_error() == Some(b),
                Err(s) => s == self && self.spec_base_error() is None,
            },
    ;
}

/// Error of the authorization-code-to-tokens exchange.
#[derive(Debug)]
pub enum AuthCodeToTokensCallError {
    Base(BaseError),
    Other(String),
}

impl AuthCodeToTokensCallError {
    pub open spec fn spec_is_permanent(&self) -> bool {
        match self {
            AuthCodeToTokensCallError::Base(base) => base.spec_is_permanent(),
            AuthCodeToTokensCallError::Other(_) => true,
        }
    }

    pub fn is_permanent(&self) -> (r: bool)
        ensures
            r == self.spec_is_permanent(),
    {
        match self {
            AuthCodeToTokensCallError::Base(base) => base.is_permanent(),
            AuthCodeToTokensCallError::Other(_) => true,
        }
    }
}

impl BaseErrorAccess for AuthCodeToTokensCallError {
    open spec fn spec_base_error(&self) -> Option<BaseError> {
        match self {
            AuthCodeToTokensCallError::Base(res) => Some(*res),
            _ => None,
        }
    }

    fn get_base_error(&self) -> (r: Option<&BaseError>) {
        match self {
            AuthCodeToTokensCallError::Base(res) => Some(res),
            _ => None,
        }
    }

    fn from_base(base: BaseError) -> (r: Self) {
        AuthCodeToTokensCallError::Base(base)
    }

    fn take_base_error(self) -> (r: Result<BaseError, Self>) {
        match self {
            AuthCodeToTokensCallError::Base(res) => Ok(res),
            other => Err(other),
        }
    }
}

/// Error of the refresh-token call.
#[derive(Debug)]
pub enum RefreshTokenCallError {
    Base(BaseError),
    InvalidRefreshToken_,
}

impl RefreshTokenCallError {
    pub open spec fn spec_is_permanent(&self) -> bool {
        match self {
            RefreshTokenCallError::Base(base) => base.spec_is_permanent(),
            RefreshTokenCallError::InvalidRefreshToken_ => true,
        }
    }

    pub fn is_permanent(&self) -> (r: bool)
        ensures
            r == self.spec_is_permanent(),
    {
        match self {
            RefreshTokenCallError::Base(base) => base.is_permanent(),
            RefreshTokenCallError::InvalidRefreshToken_ => true,
        }
    }
}

impl RefreshTokenCallError {
    /// Human-readable description of the error.
    pub fn text(&self) -> String
        decreases *self,
    {
        match self {
            RefreshTokenCallError::Base(base) => base.text(),
            RefreshTokenCallError::InvalidRefreshToken_ => {
                let mut s = String::new();
                s.append("Invalid refresh token");
                s
            },
        }
    }
}

impl AuthCodeToTokensCallError {
    /// Human-readable description of the error.
    pub fn text(&self) -> String {
        match self {
            AuthCodeToTokensCallError::Base(base) => base.text(),
            AuthCodeToTokensCallError::Other(t) => {
                let mut s = String::new();
                s.append("Some error with text: ");
                s.append(t.as_str());
                s
            },
        }
    }
}

impl BaseErrorAccess for RefreshTokenCallError {
    open spec fn spec_base_error(&self) -> Option<BaseError> {
        match self {
            RefreshTokenCallError::Base(res) => Some(*res),
            _ => None,
        }
    }

    fn get_base_error(&self) -> (r: Option<&BaseError>) {
        match self {
            RefreshTokenCallError::Base(res) => Some(res),
            _ => None,
        }
    }

    fn from_base(base: BaseError) -> (r: Self) {
        RefreshTokenCallError::Base(base)
    }

    fn take_base_error(self) -> (r: Result<BaseError, Self>) {
        match self {
            RefreshTokenCallError::Base(res) => Ok(res),
            other => Err(other),
        }
    }
}

} // verus!
