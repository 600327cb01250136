use clouds_viewer::clouds::{AuthCodeToTokensCallError, BaseError, RefreshTokenCallError};
use clouds_viewer::dropbox::{
    classify_error_body, Classified, DownloadFileCallError, EnvelopeTag, ListFolderCallError,
    ParsedErrorBody,
};

#[test]
fn token_errors_are_exactly_the_three() {
    let expired = BaseError::ExpiredAccessToken { refresh_error: None };
    let malformed = BaseError::e_access_token_malformed("a");
    let invalid_auth = BaseError::e_invalid_authorization_value("a");
    assert!(expired.is_token_error());
    assert!(malformed.is_token_error());
    assert!(invalid_auth.is_token_error());
    assert!(!BaseError::e_refresh_token_malformed("a").is_token_error());
    assert!(!BaseError::e_response_wait("a", "x").is_token_error());
    assert!(!BaseError::e_unknown_api_error_result("a", 500, "x").is_token_error());
}

#[test]
fn transient_errors_are_the_transport_and_aggregation_ones() {
    assert!(!BaseError::e_response_wait("a", "x").is_permanent());
    assert!(!BaseError::e_response_body_aggregate("a", "x").is_permanent());
    assert!(!BaseError::e_error_body_aggregate("a", "x").is_permanent());
    assert!(!BaseError::e_error_body_deserialization("a", "x", "d").is_permanent());
    assert!(BaseError::e_response_body_deserialization("a", "x").is_permanent());
    assert!(BaseError::e_access_token_malformed("a").is_permanent());
    assert!(BaseError::e_refresh_token_malformed("a").is_permanent());
    assert!(BaseError::e_invalid_client_id_or_client_secret("a").is_permanent());
    assert!(BaseError::e_invalid_authorization_value("a").is_permanent());
    assert!(BaseError::e_unknown_api_error_result("a", 500, "x").is_permanent());
    assert!(BaseError::ExpiredAccessToken { refresh_error: None }.is_permanent());
}

#[test]
fn refresh_error_permanence_follows_its_base() {
    let transient = RefreshTokenCallError::Base(BaseError::e_response_wait("a", "x"));
    assert!(!transient.is_permanent());
    assert!(RefreshTokenCallError::InvalidRefreshToken_.is_permanent());
    let auth_other = AuthCodeToTokensCallError::Other("boom".to_string());
    assert!(auth_other.is_permanent());
}

#[test]
fn attach_refresh_error_records_the_nested_cause() {
    let e = BaseError::ExpiredAccessToken { refresh_error: None };
    let attached = e.attach_refresh_error(RefreshTokenCallError::InvalidRefreshToken_);
    match attached {
        BaseError::ExpiredAccessToken { refresh_error: Some(inner) } => {
            assert!(matches!(*inner, RefreshTokenCallError::InvalidRefreshToken_));
        }
        other => panic!("wrong variant: {:?}", other),
    }
    let e2 = BaseError::e_access_token_malformed("act");
    let attached2 = e2.attach_refresh_error(RefreshTokenCallError::InvalidRefreshToken_);
    match attached2 {
        BaseError::AccessTokenMalformed { action, refresh_error: Some(_) } => {
            assert_eq!(action, "act");
        }
        other => panic!("wrong variant: {:?}", other),
    }
}

#[test]
fn error_texts_render_their_parts() {
    assert_eq!(
        BaseError::e_refresh_token_malformed("act").text(),
        "refresh token malformed: (action: act)"
    );
    assert_eq!(
        BaseError::e_unknown_api_error_result("act", 500, "raw").text(),
        "unknown api error result: (action: act, status: 500, error: raw)"
    );
    let e = BaseError::ExpiredAccessToken {
        refresh_error: Some(Box::new(RefreshTokenCallError::InvalidRefreshToken_)),
    };
    assert_eq!(
        e.text(),
        "Expired access token, with refresh token error: Invalid refresh token"
    );
}

fn unparsed(e: &str) -> ParsedErrorBody {
    ParsedErrorBody::Unparsed { error: e.to_string() }
}

#[test]
fn code400_refresh_token_complaints_map_to_refresh_token_malformed() {
    let parsed = ParsedErrorBody::Code400 {
        error: "invalid_grant".to_string(),
        error_description: "refresh token is malformed".to_string(),
    };
    match classify_error_body("act", 400, "body", &parsed) {
        Classified::Base(BaseError::RefreshTokenMalformed { action }) => {
            assert_eq!(action, "act")
        }
        other => panic!("wrong classification: {:?}", other),
    }
    let parsed2 = ParsedErrorBody::Code400 {
        error: "invalid_grant".to_string(),
        error_description: "refresh token is invalid or revoked".to_string(),
    };
    assert!(matches!(
        classify_error_body("act", 400, "body", &parsed2),
        Classified::Base(BaseError::RefreshTokenMalformed { .. })
    ));
    let parsed3 = ParsedErrorBody::Code400 {
        error: "invalid_grant".to_string(),
        error_description: "something else".to_string(),
    };
    match classify_error_body("act", 400, "raw body", &parsed3) {
        Classified::Base(BaseError::UnknownApiErrorResult { status, error, .. }) => {
            assert_eq!(status, 400);
            assert_eq!(error, "raw body");
        }
        other => panic!("wrong classification: {:?}", other),
    }
}

#[test]
fn code400_substring_fallbacks() {
    let body = "Error in call: The given OAuth 2 access token is malformed.";
    match classify_error_body("act", 400, body, &unparsed("nope")) {
        Classified::Base(BaseError::AccessTokenMalformed { refresh_error, .. }) => {
            assert!(refresh_error.is_none())
        }
        other => panic!("wrong classification: {:?}", other),
    }
    let body2 = "invalid_client: Invalid client_id or client_secret";
    assert!(matches!(
        classify_error_body("act", 400, body2, &unparsed("nope")),
        Classified::Base(BaseError::InvalidClientIdOrClientSecret { .. })
    ));
    let body3 = r#"Invalid authorization value in HTTP header "Authorization": stuff"#;
    assert!(matches!(
        classify_error_body("act", 400, body3, &unparsed("nope")),
        Classified::Base(BaseError::InvalidAuthorizationValue { .. })
    ));
    let body4 = "nothing recognisable";
    assert!(matches!(
        classify_error_body("act", 400, body4, &unparsed("nope")),
        Classified::Base(BaseError::UnknownApiErrorResult { .. })
    ));
}

#[test]
fn envelope_classification() {
    let expired = ParsedErrorBody::Envelope {
        error_summary: "expired_access_token/".to_string(),
        tag: EnvelopeTag::ExpiredAccessToken,
    };
    assert!(matches!(
        classify_error_body("act", 401, "b", &expired),
        Classified::Base(BaseError::ExpiredAccessToken { refresh_error: None })
    ));
    let unknown = ParsedErrorBody::Envelope {
        error_summary: "odd/".to_string(),
        tag: EnvelopeTag::Unknown,
    };
    match classify_error_body("act", 409, "b", &unknown) {
        Classified::Base(BaseError::UnknownApiErrorStructure { error, .. }) => {
            assert_eq!(error, "odd/")
        }
        other => panic!("wrong classification: {:?}", other),
    }
    let routine = ParsedErrorBody::Envelope {
        error_summary: "path/not_found/".to_string(),
        tag: EnvelopeTag::Routine,
    };
    assert!(matches!(
        classify_error_body("act", 409, "b", &routine),
        Classified::Routine
    ));
    match classify_error_body("act", 409, "raw", &unparsed("serde said no")) {
        Classified::Base(BaseError::ErrorBodyDeserialization { error, error_data, .. }) => {
            assert_eq!(error, "serde said no");
            assert_eq!(error_data, "raw");
        }
        other => panic!("wrong classification: {:?}", other),
    }
}

#[test]
fn routine_tags_map_per_call_kind() {
    match ListFolderCallError::from_classified(Classified::Routine, "some/path") {
        ListFolderCallError::PathNotFound(p) => assert_eq!(p, "some/path"),
        other => panic!("wrong variant: {:?}", other),
    }
    match DownloadFileCallError::from_classified(Classified::Routine, "f.txt") {
        DownloadFileCallError::NotFound(p) => assert_eq!(p, "f.txt"),
        other => panic!("wrong variant: {:?}", other),
    }
    assert!(matches!(
        RefreshTokenCallError::from_classified(Classified::Routine),
        RefreshTokenCallError::InvalidRefreshToken_
    ));
    assert!(matches!(
        AuthCodeToTokensCallError::from_classified(Classified::Routine),
        AuthCodeToTokensCallError::Other(_)
    ));
    assert!(matches!(
        ListFolderCallError::from_classified(
            Classified::Base(BaseError::e_refresh_token_malformed("a")),
            "p"
        ),
        ListFolderCallError::Base(BaseError::RefreshTokenMalformed { .. })
    ));
}
