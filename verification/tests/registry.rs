use clouds_viewer::call_messages::{self, Message};
use clouds_viewer::clouds::CloudId;
use clouds_viewer::storage_instance::{Action, StorageInstance};
use clouds_viewer::storage_models::{
    self, download_file_in_data, download_file_out_data, list_folder_in_data,
    list_folder_out_data, CallInData, DownloadFileError, StorageType,
};

fn instance() -> StorageInstance {
    StorageInstance::new(
        "test".to_string(),
        "id1".to_string(),
        StorageType::Cloud(CloudId::Dropbox),
        "/tmp/".to_string(),
        false,
    )
}

fn msg(call_id: u64, data: call_messages::Data) -> Message {
    Message { call_id: Some(call_id), data }
}

fn df(data: call_messages::DownloadFile) -> call_messages::Data {
    call_messages::Data::DownloadFile(data)
}

fn lf(data: call_messages::ListFolder) -> call_messages::Data {
    call_messages::Data::ListFolder(data)
}

fn auth(data: call_messages::Auth) -> call_messages::Data {
    call_messages::Data::Auth(data)
}

#[test]
fn download_lifecycle_updates_bytes_and_removes_on_ok() {
    let mut st = instance();
    let started = df(call_messages::DownloadFile::Started {
        handle: 7,
        remote_path: "r.bin".to_string(),
        local_path: "/tmp/r.bin".to_string(),
    });
    let a = st.process_message(msg(5, started), "cid");
    assert!(a.is_empty());
    assert_eq!(st.call_states.len(), 1);

    let a = st.process_message(msg(5, df(call_messages::DownloadFile::SizeInfo { size: Some(100) })), "cid");
    assert!(a.is_empty());
    let a = st.process_message(msg(5, df(call_messages::DownloadFile::Progress { value: 60 })), "cid");
    assert!(a.is_empty());
    match &st.call_states.get(&5).unwrap().data {
        clouds_viewer::call_states::Data::DownloadFile { size, downloaded, .. } => {
            assert_eq!(*size, Some(100));
            assert_eq!(*downloaded, 60);
        }
        other => panic!("wrong state: {:?}", other),
    }

    let fin = df(call_messages::DownloadFile::Finished {
        result: Ok(download_file_out_data { name: "r.bin".to_string() }),
    });
    let actions = st.process_message(msg(5, fin), "cid");
    assert!(st.call_states.get(&5).is_none());
    assert!(actions.iter().any(|a| matches!(a, Action::OpenLocalFile { path } if path == "/tmp/r.bin")));
    assert!(actions.iter().any(|a| matches!(a, Action::AbortHandle(7))));
}

#[test]
fn cancelled_download_is_removed_and_later_events_are_dropped() {
    let mut st = instance();
    let started = df(call_messages::DownloadFile::Started {
        handle: 9,
        remote_path: "r".to_string(),
        local_path: "/tmp/r".to_string(),
    });
    st.process_message(msg(3, started), "cid");
    let actions = st.process_message(msg(3, df(call_messages::DownloadFile::Cancelled)), "cid");
    assert!(st.call_states.get(&3).is_none());
    assert!(actions.iter().any(|a| matches!(a, Action::AbortHandle(9))));

    // a late terminal event for the removed id is dropped without effect
    let fin = df(call_messages::DownloadFile::Finished {
        result: Ok(download_file_out_data { name: "r".to_string() }),
    });
    let actions = st.process_message(msg(3, fin), "cid");
    assert!(actions.is_empty());
    assert!(st.call_states.is_empty());
}

#[test]
fn failed_download_is_removed_and_error_recorded() {
    let mut st = instance();
    let started = df(call_messages::DownloadFile::Started {
        handle: 1,
        remote_path: "r".to_string(),
        local_path: "/tmp/r".to_string(),
    });
    st.process_message(msg(4, started), "cid");
    let fin = df(call_messages::DownloadFile::Finished {
        result: Err(DownloadFileError::RemotePathNotFound("r".to_string())),
    });
    let actions = st.process_message(msg(4, fin), "cid");
    assert!(st.call_states.get(&4).is_none());
    assert!(actions.iter().any(|a| matches!(a, Action::AbortHandle(1))));
    assert_eq!(
        st.visual_state.last_error.as_deref(),
        Some("remote path not found: 'r'")
    );
}

#[test]
fn unknown_id_non_start_event_is_dropped() {
    let mut st = instance();
    let a = st.process_message(msg(42, df(call_messages::DownloadFile::Progress { value: 1 })), "cid");
    assert!(a.is_empty());
    assert!(st.call_states.is_empty());
}

#[test]
fn mismatched_kind_is_dropped() {
    let mut st = instance();
    let started = df(call_messages::DownloadFile::Started {
        handle: 1,
        remote_path: "r".to_string(),
        local_path: "/tmp/r".to_string(),
    });
    st.process_message(msg(8, started), "cid");
    let a = st.process_message(
        msg(8, lf(call_messages::ListFolder::Progress { value: 3, value_str: None })),
        "cid",
    );
    assert!(a.is_empty());
    assert_eq!(st.call_states.len(), 1);
}

#[test]
fn new_listing_aborts_the_previous_one() {
    let mut st = instance();
    st.process_message(
        msg(1, lf(call_messages::ListFolder::Started { handle: 11, path: "a".to_string() })),
        "cid",
    );
    let actions = st.process_message(
        msg(2, lf(call_messages::ListFolder::Started { handle: 12, path: "b".to_string() })),
        "cid",
    );
    assert!(st.call_states.get(&1).is_none());
    assert!(st.call_states.get(&2).is_some());
    assert!(actions.iter().any(|a| matches!(a, Action::AbortHandle(11))));
}

#[test]
fn finished_listing_installs_the_folder() {
    let mut st = instance();
    st.process_message(
        msg(1, lf(call_messages::ListFolder::Started { handle: 11, path: "docs".to_string() })),
        "cid",
    );
    let items = vec![storage_models::Item {
        name: "x.txt".to_string(),
        id: "id:x".to_string(),
        is_folder: false,
        modified: Some(1000),
        size: Some(5),
        items: Some(vec![]),
    }];
    let fin = lf(call_messages::ListFolder::Finished {
        result: Ok(list_folder_out_data { path: "docs".to_string(), items: Some(items) }),
    });
    let actions = st.process_message(msg(1, fin), "cid");
    assert!(st.call_states.get(&1).is_none());
    assert!(actions.iter().any(|a| matches!(a, Action::AbortHandle(11))));
    let folder = st.visual_state.folder.as_ref().unwrap();
    assert_eq!(folder.path, "docs");
    assert_eq!(folder.items.len(), 1);
    assert_eq!(folder.items[0].name, "x.txt");
    assert_eq!(st.visual_state.v_path, "/docs");
}

#[test]
fn auth_flow_walks_its_phases() {
    let mut st = instance();
    let actions = st.process_message(msg(6, auth(call_messages::Auth::Start)), "client-1");
    assert_eq!(st.visual_state.auth_process_state.as_ref().unwrap().call_id, 6);
    let state_field = match &actions[0] {
        Action::StartAuthServer { call_id, state_field } => {
            assert_eq!(*call_id, 6);
            assert_eq!(state_field.len(), 10);
            state_field.clone()
        }
        other => panic!("wrong action: {:?}", action_name(other)),
    };

    let actions = st.process_message(
        msg(6, auth(call_messages::Auth::Binded {
            redirect_url: "http://localhost:8080/cb".to_string(),
            addr: "127.0.0.1:8080".to_string(),
            state_field: state_field.clone(),
        })),
        "client-1",
    );
    match &actions[0] {
        Action::Send(m) => match &m.data {
            call_messages::Data::Auth(call_messages::Auth::CheckAvailability { redirect_url, .. }) => {
                assert_eq!(redirect_url, "http://localhost:8080/cb")
            }
            other => panic!("wrong message: {:?}", other),
        },
        other => panic!("wrong action: {:?}", action_name(other)),
    }

    let actions = st.process_message(
        msg(6, auth(call_messages::Auth::CheckAvailability {
            redirect_url: "http://localhost:8080/cb".to_string(),
            state_field: state_field.clone(),
        })),
        "client-1",
    );
    assert!(matches!(&actions[0], Action::SpawnAvailabilityProbe { call_id: 6, .. }));

    st.process_message(msg(6, auth(call_messages::Auth::ProbeStarted { handle: 77 })), "client-1");

    let actions = st.process_message(
        msg(6, auth(call_messages::Auth::ServerReady {
            redirect_url: "http://localhost:8080/cb".to_string(),
            state_field: state_field.clone(),
        })),
        "client-1",
    );
    match &actions[0] {
        Action::OpenBrowser { call_id: 6, auth_url } => {
            let expected = format!(
                "https://www.dropbox.com/oauth2/authorize?client_id=client-1&response_type=code&state={}&token_access_type=offline&redirect_uri=http://localhost:8080/cb",
                state_field
            );
            assert_eq!(*auth_url, expected);
        }
        other => panic!("wrong action: {:?}", action_name(other)),
    }

    st.process_message(
        msg(6, auth(call_messages::Auth::BrowserOpened { auth_url: "u".to_string() })),
        "client-1",
    );

    let actions = st.process_message(
        msg(6, auth(call_messages::Auth::Finished { result: Ok(()) })),
        "client-1",
    );
    assert!(st.call_states.get(&6).is_none());
    assert!(st.visual_state.auth_process_state.is_none());
    assert!(actions.iter().any(|a| matches!(a, Action::AbortHandle(77))));
    assert!(actions.iter().any(|a| matches!(
        a,
        Action::Send(Message { call_id: None, data: call_messages::Data::ListFolder(call_messages::ListFolder::Start { .. }) })
    )));
}

#[test]
fn auth_cancel_removes_and_signals_the_shutdown_channel() {
    let mut st = instance();
    st.process_message(msg(6, auth(call_messages::Auth::Start)), "cid");
    st.process_message(
        msg(6, auth(call_messages::Auth::LocalServerShutdowner { canceller: 55 })),
        "cid",
    );
    let actions = st.process_message(msg(6, auth(call_messages::Auth::Cancel)), "cid");
    assert!(st.call_states.get(&6).is_none());
    assert!(st.visual_state.auth_process_state.is_none());
    assert!(actions.iter().any(|a| matches!(a, Action::CancelAndAwait(55))));
}

#[test]
fn call_ids_are_handed_out_monotonically() {
    let mut st = instance();
    let a1 = st.nav_to("a".to_string());
    let a2 = st.nav_to("b".to_string());
    match (a1, a2) {
        (
            Action::StartListFolder { call_id: c1, path: p1 },
            Action::StartListFolder { call_id: c2, path: p2 },
        ) => {
            assert_eq!(c1, 1);
            assert_eq!(c2, 2);
            assert_eq!(p1, "a");
            assert_eq!(p2, "b");
        }
        _ => panic!("wrong actions"),
    }
}

#[test]
fn directive_without_call_id_starts_a_listing() {
    let mut st = instance();
    let actions = st.process_message(
        Message { call_id: None, data: lf(call_messages::ListFolder::Start { path: "p".to_string() }) },
        "cid",
    );
    assert!(matches!(&actions[0], Action::StartListFolder { call_id: 1, path } if path == "p"));
}

#[test]
fn path_helpers_walk_the_tree() {
    assert_eq!(StorageInstance::parent_path("a/b"), "a");
    assert_eq!(StorageInstance::parent_path("a/b/"), "a");
    assert_eq!(StorageInstance::parent_path("a"), "");
    assert_eq!(StorageInstance::append_path("a/b", "c"), "a/b/c");
    assert_eq!(StorageInstance::append_path("a/b/", "c"), "a/b/c");
    assert_eq!(StorageInstance::append_path("", "c"), "c");
    assert_eq!(StorageInstance::append_path("/", "c"), "/c");
}

#[test]
fn cancel_intents_produce_the_right_messages() {
    let mut st = instance();
    let a = st.cancel_download_file(12);
    assert!(matches!(
        a,
        Action::Send(Message {
            call_id: Some(12),
            data: call_messages::Data::DownloadFile(call_messages::DownloadFile::Cancelled)
        })
    ));
    let a = st.start_auth();
    assert!(matches!(
        a,
        Action::Send(Message { call_id: Some(1), data: call_messages::Data::Auth(call_messages::Auth::Start) })
    ));
    let a = st.cancel_auth(1);
    assert!(matches!(
        a,
        Action::Send(Message { call_id: Some(1), data: call_messages::Data::Auth(call_messages::Auth::Cancel) })
    ));
}

fn action_name(a: &Action) -> &'static str {
    match a {
        Action::AbortHandle(_) => "AbortHandle",
        Action::CancelAndAwait(_) => "CancelAndAwait",
        Action::Send(_) => "Send",
        Action::StartListFolder { .. } => "StartListFolder",
        Action::StartDownloadFile { .. } => "StartDownloadFile",
        Action::StartAuthServer { .. } => "StartAuthServer",
        Action::SpawnAvailabilityProbe { .. } => "SpawnAvailabilityProbe",
        Action::OpenBrowser { .. } => "OpenBrowser",
        Action::OpenLocalFile { .. } => "OpenLocalFile",
    }
}

#[test]
fn storage_call_routes_by_call_kind() {
    let a = clouds_viewer::storages::storage_call(
        StorageType::Cloud(clouds_viewer::clouds::CloudId::Dropbox),
        CallInData::list_folder(list_folder_in_data { path: "p".to_string() }),
        3,
    );
    assert!(matches!(a, Action::StartListFolder { call_id: 3, path } if path == "p"));
    let a = clouds_viewer::storages::storage_call(
        StorageType::Cloud(clouds_viewer::clouds::CloudId::Dropbox),
        CallInData::download_file(download_file_in_data {
            remote_path: "r".to_string(),
            local_path: "l".to_string(),
        }),
        4,
    );
    assert!(matches!(
        a,
        Action::StartDownloadFile { call_id: 4, remote_path, local_path }
            if remote_path == "r" && local_path == "l"
    ));
}
