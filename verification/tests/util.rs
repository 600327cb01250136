use clouds_viewer::body_aggregator::AsyncBufList;
use clouds_viewer::config::{auth_needed, ApiKeyConfig, AppConfig, StorageConfig, TokensConfig};
use clouds_viewer::dropbox::{
    auth_code_request, basic_auth_value, bearer_auth_value, download_file_request,
    list_folder_request, refresh_token_request,
};
use clouds_viewer::init::{default_download_path, ensure_trailing_slash, InitError};
use clouds_viewer::strutil::{contains_str, str_eq, u64_to_dec_string};

fn storage(id: &str, client_id: &str, secret: &str, token: &str, refresh: &str) -> StorageConfig {
    StorageConfig {
        caption: format!("storage {}", id),
        id: id.to_string(),
        current_path: String::new(),
        tokens: TokensConfig { token: token.to_string(), refresh_token: refresh.to_string() },
        api_key: ApiKeyConfig { client_id: client_id.to_string(), secret: secret.to_string() },
        redirect_addresses: vec!["http://localhost:8080/cb".to_string()],
        download_to: String::new(),
    }
}

#[test]
fn storage_lookup_finds_the_first_match() {
    let mut cfg = AppConfig {
        storages: vec![
            storage("one", "c", "s", "t", "r"),
            storage("two", "c", "s", "t", "r"),
        ],
    };
    assert_eq!(cfg.storage_by_id("two".to_string()).unwrap().id, "two");
    assert!(cfg.storage_by_id("three".to_string()).is_none());
    assert_eq!(cfg.storage_by_id_mut("one".to_string()), Some(0));
    assert_eq!(cfg.storage_by_id_mut("two".to_string()), Some(1));
    assert_eq!(cfg.storage_by_id_mut("three".to_string()), None);
}

#[test]
fn auth_is_needed_only_with_credentials_and_no_tokens() {
    assert!(auth_needed(&storage("a", "cid", "sec", "", "")));
    assert!(!auth_needed(&storage("a", "", "sec", "", "")));
    assert!(!auth_needed(&storage("a", "cid", "", "", "")));
    assert!(!auth_needed(&storage("a", "cid", "sec", "tok", "")));
    assert!(!auth_needed(&storage("a", "cid", "sec", "", "ref")));
}

#[test]
fn download_path_defaults_and_slashing() {
    assert_eq!(default_download_path(""), "./");
    assert_eq!(default_download_path("/data"), "/data");
    assert_eq!(ensure_trailing_slash("/data"), "/data/");
    assert_eq!(ensure_trailing_slash("/data/"), "/data/");
    assert_eq!(ensure_trailing_slash(""), "/");
    assert_eq!(
        InitError::InvalidDownloadToPathForStorage {
            path: "/nope".to_string(),
            storage: "s1".to_string()
        }
        .text(),
        "Invalid download_to path '/nope' for storage 's1'"
    );
}

#[test]
fn decimal_rendering() {
    assert_eq!(u64_to_dec_string(0), "0");
    assert_eq!(u64_to_dec_string(7), "7");
    assert_eq!(u64_to_dec_string(10), "10");
    assert_eq!(u64_to_dec_string(409), "409");
    assert_eq!(u64_to_dec_string(u64::MAX), "18446744073709551615");
}

#[test]
fn string_search_and_equality() {
    assert!(str_eq("abc", "abc"));
    assert!(!str_eq("abc", "abd"));
    assert!(!str_eq("abc", "ab"));
    assert!(contains_str("hello world", "lo wo"));
    assert!(contains_str("hello", ""));
    assert!(contains_str("hello", "hello"));
    assert!(!contains_str("hello", "hello!"));
    assert!(!contains_str("abc", "cb"));
}

#[test]
fn bearer_and_basic_auth_headers() {
    assert_eq!(bearer_auth_value("tok123"), "Bearer tok123");
    // "id:secret" in Base64 is aWQ6c2VjcmV0; a wrapper handing its
    // argument back unchanged would fail this
    assert_eq!(basic_auth_value("id", "secret"), "Basic aWQ6c2VjcmV0");
}

#[test]
fn data_call_requests_carry_the_token_and_endpoint() {
    let r = list_folder_request("tok", "{\"path\":\"/a\"}".to_string());
    assert_eq!(r.method, "POST");
    assert_eq!(r.uri, "https://api.dropboxapi.com/2/files/list_folder");
    assert_eq!(r.headers[0], ("Authorization".to_string(), "Bearer tok".to_string()));
    assert_eq!(r.headers[1], ("Content-Type".to_string(), "application/json".to_string()));
    assert_eq!(r.body, "{\"path\":\"/a\"}");

    let r = download_file_request("tok", "{\"path\":\"/f\"}".to_string());
    assert_eq!(r.uri, "https://content.dropboxapi.com/2/files/download");
    assert_eq!(r.headers[1].0, "Dropbox-API-Arg");
    assert_eq!(r.headers[1].1, "{\"path\":\"/f\"}");
    assert_eq!(r.body, "");
}

#[test]
fn token_requests_are_form_encoded_and_basic_authenticated() {
    let r = refresh_token_request("RT", "id", "secret");
    assert_eq!(r.uri, "https://api.dropbox.com/oauth2/token");
    assert_eq!(r.headers[0].1, "Basic aWQ6c2VjcmV0");
    assert_eq!(r.headers[1].1, "application/x-www-form-urlencoded");
    assert_eq!(r.body, "refresh_token=RT&grant_type=refresh_token");

    // percent-encoding comes from the form encoder, not from us
    let r = refresh_token_request("a b&c", "id", "secret");
    assert_eq!(r.body, "refresh_token=a+b%26c&grant_type=refresh_token");

    let r = auth_code_request("CODE", "http://localhost:8080/cb", "id", "secret");
    assert_eq!(
        r.body,
        "code=CODE&grant_type=authorization_code&redirect_uri=http%3A%2F%2Flocalhost%3A8080%2Fcb"
    );
}

#[test]
fn body_buffers_account_for_their_bytes() {
    let mut bufs = AsyncBufList::new();
    assert_eq!(bufs.bufs_cnt(), 0);
    assert_eq!(bufs.remaining(), 0);
    bufs.push(vec![1, 2, 3]);
    bufs.push(vec![4, 5]);
    assert_eq!(bufs.bufs_cnt(), 2);
    assert_eq!(bufs.remaining(), 5);

    // advancing partway through the first chunk
    bufs.advance(2);
    assert_eq!(bufs.remaining(), 3);
    assert_eq!(bufs.bufs_cnt(), 2);

    // advancing across the chunk boundary
    bufs.advance(2);
    assert_eq!(bufs.remaining(), 1);
    assert_eq!(bufs.bufs_cnt(), 1);

    bufs.advance(1);
    assert_eq!(bufs.remaining(), 0);
}

#[test]
fn body_buffers_read_out_in_stream_order() {
    let mut bufs = AsyncBufList::new();
    bufs.push(vec![1, 2, 3]);
    bufs.push(vec![4, 5]);
    let first = bufs.copy_to_bytes(4);
    assert_eq!(first, vec![1, 2, 3, 4]);
    assert_eq!(bufs.remaining(), 1);
    let rest = bufs.copy_to_bytes(1);
    assert_eq!(rest, vec![5]);
    assert_eq!(bufs.remaining(), 0);
    assert_eq!(bufs.bufs_cnt(), 0);
}
