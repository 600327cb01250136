use clouds_viewer::call_messages;
use clouds_viewer::clouds::{BaseError, BaseErrorAccess, RefreshTokenCallError};
use clouds_viewer::dropbox::{
    AfterRefreshOutcome, DownloadFlow, FileMeta, FirstCallOutcome, FolderMeta,
    ListFolderCallError, ListFolderCallResult, Meta, RefreshDecision, on_first_result,
    on_refresh_result, refresh_decision,
};
use clouds_viewer::retry::{RetryDecision, RetryPolicy};
use clouds_viewer::storages::{
    ListFolderFlow, ListStep, map_download_file_error, map_list_folder_error, normalize_path,
};
use clouds_viewer::storage_models::{DownloadFileError, ListFolderError};

fn file_meta(name: &str, size: u64, modified: i64) -> Meta {
    Meta::File(FileMeta {
        name: name.to_string(),
        path_lower: format!("/{}", name.to_lowercase()),
        path_display: format!("/{}", name),
        id: format!("id:{}", name),
        client_modified: modified,
        server_modified: modified,
        rev: "1".to_string(),
        size,
        is_downloadable: true,
        content_hash: String::new(),
    })
}

fn folder_meta(name: &str) -> Meta {
    Meta::Folder(FolderMeta {
        name: name.to_string(),
        path_lower: format!("/{}", name.to_lowercase()),
        path_display: format!("/{}", name),
        id: format!("id:{}", name),
    })
}

#[test]
fn pagination_appends_pages_and_reports_increasing_counts() {
    let mut flow = ListFolderFlow::new("docs".to_string());
    let page1 = ListFolderCallResult {
        entries: vec![file_meta("a.txt", 10, 100), folder_meta("sub")],
        cursor: "c1".to_string(),
        has_more: true,
    };
    let (step, msgs) = flow.on_page(page1, 42);
    match step {
        ListStep::Continue { cursor } => assert_eq!(cursor, "c1"),
        ListStep::Done { .. } => panic!("ended too early"),
    }
    assert_eq!(msgs.len(), 1);
    match &msgs[0].data {
        call_messages::Data::ListFolder(call_messages::ListFolder::Progress { value, .. }) => {
            assert_eq!(*value, 2)
        }
        other => panic!("wrong message: {:?}", other),
    }

    let page2 = ListFolderCallResult {
        entries: vec![file_meta("b.txt", 20, 200)],
        cursor: String::new(),
        has_more: false,
    };
    let (step, msgs) = flow.on_page(page2, 42);
    assert_eq!(msgs.len(), 1);
    match &msgs[0].data {
        call_messages::Data::ListFolder(call_messages::ListFolder::Progress { value, .. }) => {
            assert_eq!(*value, 3)
        }
        other => panic!("wrong message: {:?}", other),
    }
    match step {
        ListStep::Done { out } => {
            assert_eq!(out.path, "docs");
            let items = out.items.unwrap();
            assert_eq!(items.len(), 3);
            assert_eq!(items[0].name, "a.txt");
            assert!(!items[0].is_folder);
            assert_eq!(items[0].size, Some(10));
            assert_eq!(items[0].modified, Some(100));
            assert_eq!(items[1].name, "sub");
            assert!(items[1].is_folder);
            assert_eq!(items[1].size, None);
            assert_eq!(items[2].name, "b.txt");
        }
        ListStep::Continue { .. } => panic!("should have ended"),
    }
}

#[test]
fn single_page_listing_emits_no_progress() {
    let mut flow = ListFolderFlow::new(String::new());
    let page = ListFolderCallResult {
        entries: vec![file_meta("a", 1, 1)],
        cursor: String::new(),
        has_more: false,
    };
    let (step, msgs) = flow.on_page(page, 1);
    assert!(msgs.is_empty());
    assert!(matches!(step, ListStep::Done { .. }));
}

#[test]
fn download_accounting_size_known_before_progress_and_sums_to_size() {
    let mut flow = DownloadFlow::new();
    let m = flow.on_metadata(100, 7);
    assert!(matches!(
        m.data,
        call_messages::Data::DownloadFile(call_messages::DownloadFile::SizeInfo { size: Some(100) })
    ));
    let m1 = flow.on_chunk(60, 7);
    match m1.data {
        call_messages::Data::DownloadFile(call_messages::DownloadFile::Progress { value }) => {
            assert_eq!(value, 60)
        }
        other => panic!("wrong message: {:?}", other),
    }
    let m2 = flow.on_chunk(40, 7);
    match m2.data {
        call_messages::Data::DownloadFile(call_messages::DownloadFile::Progress { value }) => {
            assert_eq!(value, 100)
        }
        other => panic!("wrong message: {:?}", other),
    }
    assert_eq!(flow.bytes_received, 100);
    assert_eq!(flow.size, Some(100));
}

#[test]
fn single_flight_refresh_makes_exactly_one_network_call() {
    // three tasks fail on the same stale token; under the guard each
    // re-reads the store and decides
    let mut store = "stale".to_string();
    let mut network_refreshes = 0;
    for _ in 0..3 {
        match refresh_decision("stale", &store) {
            RefreshDecision::DoNetworkRefresh => {
                network_refreshes += 1;
                store = "fresh".to_string();
            }
            RefreshDecision::UseCurrent { token } => {
                assert_eq!(token, "fresh");
            }
        }
    }
    assert_eq!(network_refreshes, 1);
}

#[test]
fn coordinator_sorts_first_results() {
    let ok: Result<u32, ListFolderCallError> = Ok(5);
    assert!(matches!(on_first_result(ok), FirstCallOutcome::Done(Ok(5))));

    let token_err: Result<u32, ListFolderCallError> = Err(ListFolderCallError::Base(
        BaseError::ExpiredAccessToken { refresh_error: None },
    ));
    assert!(matches!(
        on_first_result(token_err),
        FirstCallOutcome::NeedRefresh { .. }
    ));

    let other_err: Result<u32, ListFolderCallError> =
        Err(ListFolderCallError::PathNotFound("p".to_string()));
    assert!(matches!(
        on_first_result(other_err),
        FirstCallOutcome::Done(Err(ListFolderCallError::PathNotFound(_)))
    ));

    let transport: Result<u32, ListFolderCallError> =
        Err(ListFolderCallError::Base(BaseError::e_response_wait("a", "x")));
    assert!(matches!(
        on_first_result(transport),
        FirstCallOutcome::Done(Err(ListFolderCallError::Base(BaseError::ResponseWait { .. })))
    ));
}

#[test]
fn coordinator_retries_once_after_successful_refresh_and_nests_failures() {
    let failed = ListFolderCallError::Base(BaseError::ExpiredAccessToken { refresh_error: None });
    let r = on_refresh_result(failed, Ok("new-token".to_string()));
    assert!(matches!(r, AfterRefreshOutcome::RetryCall));

    let failed = ListFolderCallError::Base(BaseError::ExpiredAccessToken { refresh_error: None });
    let r = on_refresh_result(failed, Err(RefreshTokenCallError::InvalidRefreshToken_));
    match r {
        AfterRefreshOutcome::Fail(e) => match e.get_base_error() {
            Some(BaseError::ExpiredAccessToken { refresh_error: Some(inner) }) => {
                assert!(matches!(**inner, RefreshTokenCallError::InvalidRefreshToken_));
            }
            other => panic!("wrong nested error: {:?}", other),
        },
        AfterRefreshOutcome::RetryCall => panic!("must not retry after failed refresh"),
    }
}

#[test]
fn backoff_doubles_and_caps_and_stops() {
    let mut p = RetryPolicy::new();
    match p.on_error(false, 0) {
        RetryDecision::RetryAfter { min_ms, max_ms } => {
            assert_eq!(min_ms, 50);
            assert_eq!(max_ms, 150);
        }
        RetryDecision::Stop => panic!("should retry"),
    }
    assert_eq!(p.current_interval_ms, 200);
    match p.on_error(false, 150) {
        RetryDecision::RetryAfter { min_ms, max_ms } => {
            assert_eq!(min_ms, 100);
            assert_eq!(max_ms, 300);
        }
        RetryDecision::Stop => panic!("should retry"),
    }
    assert_eq!(p.current_interval_ms, 400);
    p.on_error(false, 300);
    assert_eq!(p.current_interval_ms, 800);
    p.on_error(false, 600);
    assert_eq!(p.current_interval_ms, 1600);
    p.on_error(false, 1000);
    assert_eq!(p.current_interval_ms, 2000);

    // a permanent error stops at once
    let mut p2 = RetryPolicy::new();
    assert!(matches!(p2.on_error(true, 0), RetryDecision::Stop));

    // the 15 s deadline stops retrying
    let mut p3 = RetryPolicy::new();
    assert!(matches!(p3.on_error(false, 15000), RetryDecision::Stop));
}

#[test]
fn normalize_path_adds_the_leading_slash() {
    assert_eq!(normalize_path(""), "");
    assert_eq!(normalize_path("folder"), "/folder");
    assert_eq!(normalize_path("a/b"), "/a/b");
}

#[test]
fn call_errors_fold_into_ui_errors() {
    let e = ListFolderCallError::PathNotFound("p".to_string());
    match map_list_folder_error(e) {
        ListFolderError::PathNotFound(p) => assert_eq!(p, "p"),
        other => panic!("wrong mapping: {:?}", other),
    }
    let e = ListFolderCallError::Base(BaseError::ExpiredAccessToken { refresh_error: None });
    assert!(matches!(map_list_folder_error(e), ListFolderError::Token(_)));
    let e = ListFolderCallError::Base(BaseError::e_response_wait("a", "x"));
    assert!(matches!(map_list_folder_error(e), ListFolderError::Other(_)));

    let e = clouds_viewer::dropbox::DownloadFileCallError::NotFound("f".to_string());
    match map_download_file_error(e) {
        DownloadFileError::RemotePathNotFound(p) => assert_eq!(p, "f"),
        other => panic!("wrong mapping: {:?}", other),
    }
    let e = clouds_viewer::dropbox::DownloadFileCallError::e_file_write("disk full", "c", "l");
    assert!(matches!(
        map_download_file_error(e),
        DownloadFileError::Other(_)
    ));
}

#[test]
fn ui_error_texts() {
    assert_eq!(
        ListFolderError::PathNotFound("x".to_string()).text(),
        "path not found: 'x'"
    );
    assert_eq!(
        DownloadFileError::Token("t".to_string()).text(),
        "token error: 't'"
    );
}
