use vstd::prelude::*;
use rand::Rng;
use vstd::string::StringExecFns;
use vstd::string::StrSliceExecFns;
use std::collections::HashMap;
use crate::call_messages;
use crate::call_states;
use crate::call_states::State;
use crate::storage_models;

verus! {

/// The folder currently shown: its path and its entries.
pub struct StorageActiveFolder {
    pub path: String,
    pub items: Vec<storage_models::Item>,
}

/// The authorization flow currently running, if any.
pub struct AuthProcessState {
    pub call_id: u64,
}

/// What the UI reads from a storage: the folder on show, the last
/// errors, and whether an authorization flow is under way.
pub struct StorageVisualState {
    pub folder: Option<StorageActiveFolder>,
    pub list_folder_error: Option<String>,
    pub auth_needed: bool,
    pub auth_process_state: Option<AuthProcessState>,
    pub v_path: String,
    pub last_error: Option<String>,
}

impl Default for StorageVisualState {
    fn default() -> (r: Self)
        ensures
            r.folder is None,
            r.list_folder_error is None,
            !r.auth_needed,
            r.auth_process_state is None,
            r.v_path@ == ""@,
            r.last_error is None,
    {
        StorageVisualState {
            folder: None,
            list_folder_error: None,
            auth_needed: false,
            auth_process_state: None,
            v_path: "".to_owned(),
            last_error: None,
        }
    }
}

/// What the registry asks its surroundings to do after processing an
/// event: runtime work (abort a task, signal a canceller), bus work
/// (post a message), and the side effects of the authorization flow.
pub enum Action {
    AbortHandle(u64),
    CancelAndAwait(u64),
    Send(call_messages::Message),
    StartListFolder { call_id: u64, path: String },
    StartDownloadFile { call_id: u64, remote_path: String, local_path: String },
    StartAuthServer { call_id: u64, state_field: String },
    SpawnAvailabilityProbe { call_id: u64, redirect_url: String, state_field: String },
    OpenBrowser { call_id: u64, auth_url: String },
    OpenLocalFile { path: String },
}

/// One storage account: the registry of running calls keyed by call
/// id, the monotone call-id counter, and the UI-facing view.
pub struct StorageInstance {
    pub caption: String,
    pub id: String,
    pub storage_type: storage_models::StorageType,
    pub call_states: HashMap<u64, State>,
    pub last_call_id: u64,
    pub visual_state: StorageVisualState,
    pub save_to_path: String,
    pub active_list_folder: Option<u64>,
    pub active_auth: Option<u64>,
}

/// The data of a state entry belongs to a folder-listing call.
pub open spec fn is_list_folder_data(d: &call_states::Data) -> bool {
    d matches call_states::Data::ListFolder { .. }
}

/// The data of a state entry belongs to an authorization call.
pub open spec fn is_auth_data(d: &call_states::Data) -> bool {
    d matches call_states::Data::Auth { .. }
}

/// The tracker `t` names the one entry of `m` whose data satisfies
/// `lf` (when `lf` is true, folder listings; otherwise auth calls),
/// or no entry has such data.
pub open spec fn tracker_ok(m: Map<u64, State>, t: Option<u64>, lf: bool) -> bool {
    match t {
        Some(id) => {
            &&& m.contains_key(id)
            &&& (if lf {
                is_list_folder_data(&m[id].data)
            } else {
                is_auth_data(&m[id].data)
            })
            &&& forall|k: u64|
                m.contains_key(k) && k != id ==> (if lf {
                    !is_list_folder_data(&m[k].data)
                } else {
                    !is_auth_data(&m[k].data)
                })
        },
        None => forall|k: u64|
            m.contains_key(k) ==> (if lf {
                !is_list_folder_data(&m[k].data)
            } else {
                !is_auth_data(&m[k].data)
            }),
    }
}

/// The phase of a folder-listing state entry.
pub open spec fn lf_phase(d: call_states::Data) -> call_states::ListFolder {
    match d {
        call_states::Data::ListFolder { data, .. } => data,
        _ => arbitrary(),
    }
}

/// The path of a folder-listing state entry.
pub open spec fn lf_path(d: call_states::Data) -> String {
    match d {
        call_states::Data::ListFolder { path, .. } => path,
        _ => arbitrary(),
    }
}

/// The phase of a download state entry.
pub open spec fn df_phase(d: call_states::Data) -> call_states::DownloadFile {
    match d {
        call_states::Data::DownloadFile { data, .. } => data,
        _ => arbitrary(),
    }
}

/// The byte counter of a download state entry.
pub open spec fn df_downloaded(d: call_states::Data) -> u64 {
    match d {
        call_states::Data::DownloadFile { downloaded, .. } => downloaded,
        _ => arbitrary(),
    }
}

/// The total size, when known, of a download state entry.
pub open spec fn df_size(d: call_states::Data) -> Option<u64> {
    match d {
        call_states::Data::DownloadFile { size, .. } => size,
        _ => arbitrary(),
    }
}

/// The paths of a download state entry: (remote, local).
pub open spec fn df_paths(d: call_states::Data) -> (String, String) {
    match d {
        call_states::Data::DownloadFile { remote_path, local_path, .. } => (
            remote_path,
            local_path,
        ),
        _ => arbitrary(),
    }
}

/// The message kind addresses a state entry of the same call kind.
pub open spec fn kind_matches(d: &call_messages::Data, s: &call_states::Data) -> bool {
    match d {
        call_messages::Data::ListFolder(_) => s matches call_states::Data::ListFolder { .. },
        call_messages::Data::DownloadFile(_) => s matches call_states::Data::DownloadFile { .. },
        call_messages::Data::Auth(_) => s matches call_states::Data::Auth { .. },
    }
}

/// A terminal event: after it is processed, the call's state leaves
/// the registry.
pub open spec fn is_terminal_msg(d: &call_messages::Data) -> bool {
    ||| d matches call_messages::Data::ListFolder(call_messages::ListFolder::Finished { .. })
    ||| d matches call_messages::Data::DownloadFile(
        call_messages::DownloadFile::Finished { .. },
    )
    ||| d matches call_messages::Data::DownloadFile(call_messages::DownloadFile::Cancelled)
    ||| d matches call_messages::Data::Auth(call_messages::Auth::Finished { .. })
    ||| d matches call_messages::Data::Auth(call_messages::Auth::Cancel)
}

/// The only events that may install a state for a call id the
/// registry does not know yet.
pub open spec fn is_start_kind(d: &call_messages::Data) -> bool {
    ||| d matches call_messages::Data::ListFolder(call_messages::ListFolder::Started { .. })
    ||| d matches call_messages::Data::DownloadFile(call_messages::DownloadFile::Started { .. })
    ||| d matches call_messages::Data::Auth(call_messages::Auth::Start)
}

/// The phase of an authorization state entry.
pub open spec fn auth_phase(d: call_states::Data) -> call_states::Auth {
    match d {
        call_states::Data::Auth { data } => data,
        _ => arbitrary(),
    }
}

impl StorageInstance {
    /// At most one folder listing and at most one authorization flow
    /// are active at a time; the two trackers name exactly them.
    pub open spec fn wf(&self) -> bool {
        &&& tracker_ok(self.call_states@, self.active_list_folder, true)
        &&& tracker_ok(self.call_states@, self.active_auth, false)
    }

    /// An empty registry for one configured storage.
    pub fn new(
        caption: String,
        id: String,
        storage_type: storage_models::StorageType,
        save_to_path: String,
        auth_needed: bool,
    ) -> (r: Self)
        ensures
            r.wf(),
            r.call_states@ == Map::<u64, State>::empty(),
            r.last_call_id == 0,
            r.visual_state.auth_needed == auth_needed,
            r.visual_state.folder is None,
            r.caption == caption,
            r.id == id,
            r.save_to_path == save_to_path,
    {
        let mut visual_state = StorageVisualState::default();
        visual_state.auth_needed = auth_needed;
        StorageInstance {
            caption,
            id,
            storage_type,
            call_states: HashMap::new(),
            last_call_id: 0,
            visual_state,
            save_to_path,
            active_list_folder: None,
            active_auth: None,
        }
    }

    /// The next call identifier: strictly above every one handed out
    /// before, so identifiers are never reused.
    pub fn gen_call_id(&mut self) -> (r: u64)
        requires
            old(self).last_call_id < u64::MAX,
        ensures
            r == old(self).last_call_id + 1,
            final(self).last_call_id == r,
            final(self).call_states == old(self).call_states,
            final(self).visual_state == old(self).visual_state,
            final(self).active_list_folder == old(self).active_list_folder,
            final(self).active_auth == old(self).active_auth,
            final(self).caption == old(self).caption,
            final(self).id == old(self).id,
            final(self).storage_type == old(self).storage_type,
            final(self).save_to_path == old(self).save_to_path,
    {
        let call_id = self.last_call_id + 1;
        self.last_call_id = call_id;
        call_id
    }

    /// Book the runtime work that dismantling this call's background
    /// tasks takes: one abort per handle, one signal-and-await per
    /// cancellation token.
    fn abort_handles_and_senders(actions: &mut Vec<Action>, state: &State)
        ensures
            final(actions)@.len() == old(actions)@.len() + state.handles@.len()
                + state.cancellers@.len(),
            forall|j: int|
                0 <= j < old(actions)@.len() ==> final(actions)@[j] == old(actions)@[j],
            forall|j: int|
                0 <= j < state.handles@.len() ==> final(actions)@.contains(
                    Action::AbortHandle(state.handles@[j]),
                ),
            forall|j: int|
                0 <= j < state.cancellers@.len() ==> final(actions)@.contains(
                    Action::CancelAndAwait(state.cancellers@[j]),
                ),
    {
        let ghost base = actions@.len();
        let mut i: usize = 0;
        while i < state.handles.len()
            invariant
                i <= state.handles@.len(),
                actions@.len() == base + i,
                forall|j: int| 0 <= j < base ==> actions@[j] == old(actions)@[j],
                forall|j: int| 0 <= j < i ==> actions@[base + j] == Action::AbortHandle(
                    state.handles@[j],
                ),
            decreases state.handles@.len() - i,
        {
            actions.push(Action::AbortHandle(state.handles[i]));
            i = i + 1;
        }
        let ghost mid = actions@.len();
        let mut c: usize = 0;
        while c < state.cancellers.len()
            invariant
                c <= state.cancellers@.len(),
                mid == base + state.handles@.len(),
                actions@.len() == mid + c,
                forall|j: int| 0 <= j < base ==> actions@[j] == old(actions)@[j],
                forall|j: int| 0 <= j < state.handles@.len() ==> actions@[base + j]
                    == Action::AbortHandle(state.handles@[j]),
                forall|j: int| 0 <= j < c ==> actions@[mid + j] == Action::CancelAndAwait(
                    state.cancellers@[j],
                ),
            decreases state.cancellers@.len() - c,
        {
            actions.push(Action::CancelAndAwait(state.cancellers[c]));
            c = c + 1;
        }
        proof {
            assert forall|j: int| 0 <= j < state.handles@.len() implies actions@.contains(
                Action::AbortHandle(state.handles@[j]),
            ) by {
                assert(actions@[base + j] == Action::AbortHandle(state.handles@[j]));
            }
            assert forall|j: int| 0 <= j < state.cancellers@.len() implies actions@.contains(
                Action::CancelAndAwait(state.cancellers@[j]),
            ) by {
                assert(actions@[mid + j] == Action::CancelAndAwait(state.cancellers@[j]));
            }
        }
    }
}


impl StorageInstance {
    /// The authorization URL the browser is sent to, built from the
    /// client id, the CSRF state token and the redirect URL.
    pub fn build_auth_url(client_id: &str, state_field: &str, redirect_url: &str) -> (r: String)
        ensures
            r@ == "https://www.dropbox.com/oauth2/authorize?client_id="@ + client_id@
                + "&response_type=code&state="@ + state_field@
                + "&token_access_type=offline&redirect_uri="@ + redirect_url@,
    {
        let mut s = String::new();
        s.append("https://www.dropbox.com/oauth2/authorize?client_id=");
        s.append(client_id);
        s.append("&response_type=code&state=");
        s.append(state_field);
        s.append("&token_access_type=offline&redirect_uri=");
        s.append(redirect_url);
        s
    }

    /// Relies on rand's thread-local generator sampling the
    /// Alphanumeric distribution: `n` characters drawn from
    /// [A-Za-z0-9]. Nothing is assumed of which characters come out.
    #[verifier::external_body]
    fn random_string(n: usize) -> (r: String)
        ensures
            r@.len() == n,
    {
        let rng = rand::thread_rng();
        rng.sample_iter(rand::distributions::Alphanumeric).take(n).map(char::from).collect()
    }

    /// Apply one folder-listing event to its call state.
    ///
    /// Progress and refresh events rewrite the phase; a finished
    /// listing installs the folder in the visual state (or records the
    /// error) and marks the call for removal. `Start`/`Started` do not
    /// belong to a known call and are dropped.
    fn process_list_folder_msg(
        visual_state: &mut StorageVisualState,
        msg: call_messages::ListFolder,
        state: &mut State,
        remove_call_info: &mut bool,
    )
        requires
            is_list_folder_data(&old(state).data),
            *old(remove_call_info) == false,
        ensures
            final(state).handles == old(state).handles,
            final(state).cancellers == old(state).cancellers,
            is_list_folder_data(&final(state).data),
            lf_path(final(state).data) == lf_path(old(state).data),
            match msg {
                call_messages::ListFolder::Start { .. } | call_messages::ListFolder::Started {
                    ..
                } => final(state).data == old(state).data && *final(visual_state) == *old(visual_state) && !*final(remove_call_info),
                call_messages::ListFolder::RefreshToken => lf_phase(final(state).data)
                    is RefreshToken && *final(visual_state) == *old(visual_state) && !*final(remove_call_info),
                call_messages::ListFolder::RefreshTokenComplete => lf_phase(final(state).data)
                    is RefreshTokenComplete && *final(visual_state) == *old(visual_state)
                    && !*final(remove_call_info),
                call_messages::ListFolder::Progress { value, value_str } => (lf_phase(
                    final(state).data,
                ) matches call_states::ListFolder::InProgress { value: v, value_str: vs } && v
                    == Some(value) && vs == value_str) && *final(visual_state) == *old(visual_state) && !*final(remove_call_info),
                call_messages::ListFolder::Finished { result } => match result {
                    Ok(res) => {
                        &&& *final(remove_call_info)
                        &&& lf_phase(final(state).data) is Succeeded
                        &&& final(visual_state).folder matches Some(f) && f.path == res.path && (
                        match res.items {
                            Some(it) => f.items == it,
                            None => f.items@ == Seq::<storage_models::Item>::empty(),
                        })
                        &&& final(visual_state).v_path@ == "/"@ + res.path@
                        &&& final(visual_state).list_folder_error == old(visual_state).list_folder_error
                        &&& final(visual_state).auth_process_state == old(visual_state).auth_process_state
                        &&& final(visual_state).auth_needed == old(visual_state).auth_needed
                        &&& final(visual_state).last_error == old(visual_state).last_error
                    },
                    Err(_) => {
                        &&& *final(remove_call_info)
                        &&& final(visual_state).list_folder_error is Some
                        &&& final(visual_state).folder == old(visual_state).folder
                        &&& final(visual_state).v_path == old(visual_state).v_path
                        &&& final(visual_state).auth_process_state == old(visual_state).auth_process_state
                        &&& final(visual_state).auth_needed == old(visual_state).auth_needed
                        &&& final(visual_state).last_error == old(visual_state).last_error
                    },
                },
            },
    {
        if let call_states::Data::ListFolder { data: state_data, path: _ } = &mut state.data {
            match msg {
                call_messages::ListFolder::Start { .. } => {},
                call_messages::ListFolder::Started { .. } => {},
                call_messages::ListFolder::RefreshToken => {
                    *state_data = call_states::ListFolder::RefreshToken;
                },
                call_messages::ListFolder::RefreshTokenComplete => {
                    *state_data = call_states::ListFolder::RefreshTokenComplete;
                },
                call_messages::ListFolder::Progress { value, value_str } => {
                    *state_data = call_states::ListFolder::InProgress {
                        value: Some(value),
                        value_str,
                    };
                },
                call_messages::ListFolder::Finished { result: Ok(res) } => {
                    let items = match res.items {
                        Some(it) => it,
                        None => Vec::new(),
                    };
                    visual_state.folder = Some(
                        StorageActiveFolder { path: res.path.clone(), items },
                    );
                    let mut vp = String::new();
                    vp.append("/");
                    vp.append(res.path.as_str());
                    visual_state.v_path = vp;
                    *state_data = call_states::ListFolder::Succeeded;
                    *remove_call_info = true;
                },
                call_messages::ListFolder::Finished { result: Err(e) } => {
                    visual_state.list_folder_error = Some(e.text());
                    *remove_call_info = true;
                },
            }
        }
    }

    /// Apply one download event to its call state.
    ///
    /// `SizeInfo` records the total size, `Progress` the bytes written
    /// so far; a finished download asks for the file to be opened and
    /// marks the call for removal, as does cancellation. `Started`
    /// does not belong to a known call and is dropped.
    fn process_download_file_msg(
        visual_state: &mut StorageVisualState,
        msg: call_messages::DownloadFile,
        state: &mut State,
        remove_call_info: &mut bool,
    ) -> (action: Option<Action>)
        requires
            old(state).data matches call_states::Data::DownloadFile { .. },
            *old(remove_call_info) == false,
        ensures
            final(state).handles == old(state).handles,
            final(state).cancellers == old(state).cancellers,
            final(state).data matches call_states::Data::DownloadFile { .. },
            df_paths(final(state).data) == df_paths(old(state).data),
            match msg {
                call_messages::DownloadFile::Started { .. } => final(state).data == old(state).data
                    && *final(visual_state) == *old(visual_state) && !*final(remove_call_info)
                    && action is None,
                call_messages::DownloadFile::RefreshToken => df_phase(final(state).data)
                    is RefreshToken && *final(visual_state) == *old(visual_state) && !*final(remove_call_info) && action is None,
                call_messages::DownloadFile::RefreshTokenComplete => df_phase(final(state).data)
                    is RefreshTokenComplete && *final(visual_state) == *old(visual_state)
                    && !*final(remove_call_info) && action is None,
                call_messages::DownloadFile::SizeInfo { size } => {
                    &&& df_phase(final(state).data) matches call_states::DownloadFile::SizeInfo {
                        size: s,
                    } && s == size
                    &&& df_size(final(state).data) == size
                    &&& df_downloaded(final(state).data) == df_downloaded(old(state).data)
                    &&& *final(visual_state) == *old(visual_state)
                    &&& !*final(remove_call_info)
                    &&& action is None
                },
                call_messages::DownloadFile::Progress { value } => {
                    &&& df_phase(final(state).data)
                        matches call_states::DownloadFile::InProgress { progress } && progress
                        == value
                    &&& df_downloaded(final(state).data) == value
                    &&& df_size(final(state).data) == df_size(old(state).data)
                    &&& *final(visual_state) == *old(visual_state)
                    &&& !*final(remove_call_info)
                    &&& action is None
                },
                call_messages::DownloadFile::Finished { result } => match result {
                    Ok(_) => {
                        &&& *final(remove_call_info)
                        &&& action matches Some(Action::OpenLocalFile { path }) && path
                            == df_paths(old(state).data).1
                        &&& *final(visual_state) == *old(visual_state)
                    },
                    Err(_) => {
                        &&& *final(remove_call_info)
                        &&& final(visual_state).last_error is Some
                        &&& final(visual_state).folder == old(visual_state).folder
                        &&& final(visual_state).v_path == old(visual_state).v_path
                        &&& final(visual_state).list_folder_error == old(visual_state).list_folder_error
                        &&& final(visual_state).auth_process_state == old(visual_state).auth_process_state
                        &&& final(visual_state).auth_needed == old(visual_state).auth_needed
                        &&& action is None
                    },
                },
                call_messages::DownloadFile::Cancelled => *final(remove_call_info) && *final(visual_state) == *old(visual_state) && action is None,
            },
    {
        let mut action: Option<Action> = None;
        if let call_states::Data::DownloadFile {
            data: state_data,
            remote_path: _,
            local_path,
            size: total_size,
            downloaded,
        } = &mut state.data {
            match msg {
                call_messages::DownloadFile::Started { .. } => {},
                call_messages::DownloadFile::RefreshToken => {
                    *state_data = call_states::DownloadFile::RefreshToken;
                },
                call_messages::DownloadFile::RefreshTokenComplete => {
                    *state_data = call_states::DownloadFile::RefreshTokenComplete;
                },
                call_messages::DownloadFile::SizeInfo { size } => {
                    *state_data = call_states::DownloadFile::SizeInfo { size };
                    *total_size = size;
                },
                call_messages::DownloadFile::Progress { value } => {
                    *downloaded = value;
                    *state_data = call_states::DownloadFile::InProgress { progress: value };
                },
                call_messages::DownloadFile::Finished { result: Ok(_res) } => {
                    *state_data = call_states::DownloadFile::Succeeded;
                    action = Some(Action::OpenLocalFile { path: local_path.clone() });
                    *remove_call_info = true;
                },
                call_messages::DownloadFile::Finished { result: Err(e) } => {
                    visual_state.last_error = Some(e.text());
                    *remove_call_info = true;
                },
                call_messages::DownloadFile::Cancelled => {
                    *remove_call_info = true;
                },
            }
        }
        action
    }

    /// Apply one authorization event to its call state.
    ///
    /// The flow walks bind - availability probe - browser hand-off;
    /// its shutdown channel and probe handle are booked as they are
    /// announced; finishing (either way) or cancelling marks the call
    /// for removal, and a successful finish asks for a fresh listing
    /// of the root folder.
    fn process_auth_msg(
        visual_state: &mut StorageVisualState,
        call_id: u64,
        msg: call_messages::Auth,
        state: &mut State,
        remove_call_info: &mut bool,
        client_id: &str,
    ) -> (action: Option<Action>)
        requires
            is_auth_data(&old(state).data),
            *old(remove_call_info) == false,
        ensures
            is_auth_data(&final(state).data),
            !(msg matches call_messages::Auth::ProbeStarted { .. }) ==> final(state).handles
                == old(state).handles,
            !(msg matches call_messages::Auth::LocalServerShutdowner { .. })
                ==> final(state).cancellers == old(state).cancellers,
            match msg {
                call_messages::Auth::Start => final(state).data == old(state).data && *final(visual_state) == *old(visual_state) && !*final(remove_call_info) && action is None && final(state).handles == old(state).handles && final(state).cancellers == old(state).cancellers,
                call_messages::Auth::Binded { redirect_url, addr: _, state_field } => {
                    &&& auth_phase(final(state).data) matches call_states::Auth::InProgress(
                        call_states::AuthProgress::Binded { redirect_url: u },
                    ) && u == redirect_url
                    &&& action matches Some(Action::Send(m)) && m.call_id == Some(call_id) && (
                    m.data matches call_messages::Data::Auth(
                        call_messages::Auth::CheckAvailability {
                            redirect_url: mu,
                            state_field: sf,
                        },
                    ) && mu == redirect_url && sf == state_field)
                    &&& *final(visual_state) == *old(visual_state)
                    &&& !*final(remove_call_info)
                    &&& final(state).handles == old(state).handles
                    &&& final(state).cancellers == old(state).cancellers
                },
                call_messages::Auth::LocalServerShutdowner { canceller } => {
                    &&& final(state).cancellers@ == old(state).cancellers@.push(canceller)
                    &&& final(state).handles == old(state).handles
                    &&& final(state).data == old(state).data
                    &&& *final(visual_state) == *old(visual_state)
                    &&& !*final(remove_call_info)
                    &&& action is None
                },
                call_messages::Auth::ProbeStarted { handle } => {
                    &&& final(state).handles@ == old(state).handles@.push(handle)
                    &&& final(state).cancellers == old(state).cancellers
                    &&& final(state).data == old(state).data
                    &&& *final(visual_state) == *old(visual_state)
                    &&& !*final(remove_call_info)
                    &&& action is None
                },
                call_messages::Auth::CheckAvailability { redirect_url, state_field } => {
                    &&& auth_phase(final(state).data) matches call_states::Auth::InProgress(
                        call_states::AuthProgress::WaitingForLocalServerUp { redirect_url: u },
                    ) && u == redirect_url
                    &&& action matches Some(Action::SpawnAvailabilityProbe {
                        call_id: c,
                        redirect_url: au,
                        state_field: sf,
                    }) && c == call_id && au == redirect_url && sf == state_field
                    &&& *final(visual_state) == *old(visual_state)
                    &&& !*final(remove_call_info)
                    &&& final(state).handles == old(state).handles
                    &&& final(state).cancellers == old(state).cancellers
                },
                call_messages::Auth::ServerReady { redirect_url, state_field } => {
                    &&& auth_phase(final(state).data) matches call_states::Auth::InProgress(
                        call_states::AuthProgress::TryOpenBrowser { auth_url },
                    ) && auth_url@ == "https://www.dropbox.com/oauth2/authorize?client_id="@
                        + client_id@ + "&response_type=code&state="@ + state_field@
                        + "&token_access_type=offline&redirect_uri="@ + redirect_url@
                    &&& action matches Some(Action::OpenBrowser { call_id: c, auth_url: u }) && c
                        == call_id && u@ == "https://www.dropbox.com/oauth2/authorize?client_id="@
                        + client_id@ + "&response_type=code&state="@ + state_field@
                        + "&token_access_type=offline&redirect_uri="@ + redirect_url@
                    &&& *final(visual_state) == *old(visual_state)
                    &&& !*final(remove_call_info)
                    &&& final(state).handles == old(state).handles
                    &&& final(state).cancellers == old(state).cancellers
                },
                call_messages::Auth::BrowserOpened { auth_url } => {
                    &&& auth_phase(final(state).data) matches call_states::Auth::InProgress(
                        call_states::AuthProgress::BrowserOpened { auth_url: u },
                    ) && u == auth_url
                    &&& *final(visual_state) == *old(visual_state)
                    &&& !*final(remove_call_info)
                    &&& action is None
                    &&& final(state).handles == old(state).handles
                    &&& final(state).cancellers == old(state).cancellers
                },
                call_messages::Auth::Cancel => {
                    &&& *final(remove_call_info)
                    &&& final(visual_state).auth_process_state is None
                    &&& action is None
                },
                call_messages::Auth::Finished { result } => match result {
                    Ok(_) => {
                        &&& *final(remove_call_info)
                        &&& final(visual_state).auth_process_state is None
                        &&& action matches Some(Action::Send(m)) && m.call_id is None && (
                        m.data matches call_messages::Data::ListFolder(
                            call_messages::ListFolder::Start { path },
                        ) && path@ == ""@)
                    },
                    Err(_) => {
                        &&& *final(remove_call_info)
                        &&& final(visual_state).auth_process_state is None
                        &&& final(visual_state).last_error is Some
                        &&& action is None
                    },
                },
            },
    {
        let mut action: Option<Action> = None;
        if let call_states::Data::Auth { data: state_data } = &mut state.data {
            match msg {
                call_messages::Auth::Start => {},
                call_messages::Auth::Binded { redirect_url, addr: _, state_field } => {
                    action = Some(
                        Action::Send(
                            call_messages::Message {
                                call_id: Some(call_id),
                                data: call_messages::Data::Auth(
                                    call_messages::Auth::CheckAvailability {
                                        redirect_url: redirect_url.clone(),
                                        state_field,
                                    },
                                ),
                            },
                        ),
                    );
                    *state_data = call_states::Auth::InProgress(
                        call_states::AuthProgress::Binded { redirect_url },
                    );
                },
                call_messages::Auth::LocalServerShutdowner { canceller } => {
                    state.cancellers.push(canceller);
                },
                call_messages::Auth::ProbeStarted { handle } => {
                    state.handles.push(handle);
                },
                call_messages::Auth::CheckAvailability { redirect_url, state_field } => {
                    action = Some(
                        Action::SpawnAvailabilityProbe {
                            call_id,
                            redirect_url: redirect_url.clone(),
                            state_field,
                        },
                    );
                    *state_data = call_states::Auth::InProgress(
                        call_states::AuthProgress::WaitingForLocalServerUp { redirect_url },
                    );
                },
                call_messages::Auth::ServerReady { redirect_url, state_field } => {
                    let auth_url = Self::build_auth_url(
                        client_id,
                        state_field.as_str(),
                        redirect_url.as_str(),
                    );
                    *state_data = call_states::Auth::InProgress(
                        call_states::AuthProgress::TryOpenBrowser { auth_url: auth_url.clone() },
                    );
                    action = Some(Action::OpenBrowser { call_id, auth_url });
                },
                call_messages::Auth::BrowserOpened { auth_url } => {
                    *state_data = call_states::Auth::InProgress(
                        call_states::AuthProgress::BrowserOpened { auth_url },
                    );
                },
                call_messages::Auth::Cancel => {
                    visual_state.auth_process_state = None;
                    *remove_call_info = true;
                },
                call_messages::Auth::Finished { result: Ok(_) } => {
                    *state_data = call_states::Auth::Succeeded;
                    visual_state.auth_process_state = None;
                    action = Some(
                        Action::Send(
                            call_messages::Message {
                                call_id: None,
                                data: call_messages::Data::ListFolder(
                                    call_messages::ListFolder::Start { path: "".to_owned() },
                                ),
                            },
                        ),
                    );
                    *remove_call_info = true;
                },
                call_messages::Auth::Finished { result: Err(e) } => {
                    visual_state.auth_process_state = None;
                    visual_state.last_error = Some(e.text());
                    *remove_call_info = true;
                },
            }
        }
        action
    }
}


impl StorageInstance {
    /// Consume one event from the bus and update the registry.
    ///
    /// The four quadrants of dispatch: an event for a known call id is
    /// applied to its state when the kinds agree, and dropped when
    /// they do not; an event for an unknown id installs a new state
    /// only if it is a start kind, and is dropped otherwise; an event
    /// without a call id is the directive to begin a fresh listing.
    /// A terminal event (finished, failed or cancelled) removes the
    /// call's state, and the returned actions dismantle every task
    /// handle and cancellation channel that state owned.
    pub fn process_message(&mut self, msg: call_messages::Message, client_id: &str) -> (actions:
        Vec<Action>)
        requires
            old(self).wf(),
            old(self).last_call_id < u64::MAX,
        ensures
            final(self).wf(),
            final(self).caption == old(self).caption,
            final(self).id == old(self).id,
            final(self).save_to_path == old(self).save_to_path,
            // a terminal event removes the call and books the dismantling
            // of all its background work
            match msg.call_id {
                Some(id) => (old(self).call_states@.contains_key(id) && kind_matches(
                    &msg.data,
                    &old(self).call_states@[id].data,
                ) && is_terminal_msg(&msg.data)) ==> {
                    &&& !final(self).call_states@.contains_key(id)
                    &&& forall|j: int|
                        0 <= j < old(self).call_states@[id].handles@.len()
                            ==> actions@.contains(
                            Action::AbortHandle(old(self).call_states@[id].handles@[j]),
                        )
                    &&& forall|j: int|
                        0 <= j < old(self).call_states@[id].cancellers@.len()
                            ==> actions@.contains(
                            Action::CancelAndAwait(old(self).call_states@[id].cancellers@[j]),
                        )
                },
                None => true,
            },
            // an event for an unknown id that is no start kind is dropped
            match msg.call_id {
                Some(id) => (!old(self).call_states@.contains_key(id) && !is_start_kind(
                    &msg.data,
                )) ==> {
                    &&& final(self).call_states@ == old(self).call_states@
                    &&& final(self).visual_state == old(self).visual_state
                    &&& final(self).last_call_id == old(self).last_call_id
                    &&& actions@.len() == 0
                },
                None => true,
            },
            // an event whose kind does not match its call's state is dropped
            match msg.call_id {
                Some(id) => (old(self).call_states@.contains_key(id) && !kind_matches(
                    &msg.data,
                    &old(self).call_states@[id].data,
                )) ==> {
                    &&& final(self).call_states@ == old(self).call_states@
                    &&& final(self).visual_state == old(self).visual_state
                    &&& actions@.len() == 0
                },
                None => true,
            },
            // the byte counter follows download progress events
            match (msg.call_id, &msg.data) {
                (
                    Some(id),
                    call_messages::Data::DownloadFile(
                        call_messages::DownloadFile::Progress { value },
                    ),
                ) => (old(self).call_states@.contains_key(id) && old(self).call_states@[id].data
                    matches call_states::Data::DownloadFile { .. }) ==> {
                    &&& final(self).call_states@.contains_key(id)
                    &&& df_downloaded(final(self).call_states@[id].data) == value
                    &&& df_size(final(self).call_states@[id].data) == df_size(
                        old(self).call_states@[id].data,
                    )
                },
                _ => true,
            },
            // a started listing is installed under its id
            match (msg.call_id, &msg.data) {
                (
                    Some(id),
                    call_messages::Data::ListFolder(
                        call_messages::ListFolder::Started { handle, path },
                    ),
                ) => !old(self).call_states@.contains_key(id) ==> {
                    &&& final(self).call_states@.contains_key(id)
                    &&& final(self).call_states@[id].handles@ =~= seq![*handle]
                    &&& final(self).call_states@[id].cancellers@ =~= Seq::<u64>::empty()
                    &&& lf_phase(final(self).call_states@[id].data)
                        matches call_states::ListFolder::InProgress { value: None, value_str: None }
                    &&& lf_path(final(self).call_states@[id].data) == *path
                },
                _ => true,
            },
            // a finished listing installs the folder the UI shows
            match (msg.call_id, &msg.data) {
                (
                    Some(id),
                    call_messages::Data::ListFolder(
                        call_messages::ListFolder::Finished { result: Ok(res) },
                    ),
                ) => (old(self).call_states@.contains_key(id) && is_list_folder_data(
                    &old(self).call_states@[id].data,
                )) ==> {
                    &&& final(self).visual_state.folder matches Some(f) && f.path == res.path
                    &&& final(self).visual_state.v_path@ == "/"@ + res.path@
                },
                _ => true,
            },
            // starting the authorization flow books it and asks for the
            // local server, under a fresh CSRF state token
            match (msg.call_id, &msg.data) {
                (Some(id), call_messages::Data::Auth(call_messages::Auth::Start)) => (!old(
                    self,
                ).call_states@.contains_key(id)) ==> {
                    &&& final(self).call_states@.contains_key(id)
                    &&& is_auth_data(&final(self).call_states@[id].data)
                    &&& final(self).visual_state.auth_process_state matches Some(a)
                        && a.call_id == id
                    &&& exists|j: int|
                        0 <= j < actions@.len() && (#[trigger] actions@[j]
                            matches Action::StartAuthServer { call_id: c, state_field } && c == id
                            && state_field@.len() == 10)
                },
                _ => true,
            },
    {
        let mut actions: Vec<Action> = Vec::new();
        match msg.call_id {
            Some(call_id) => {
                match self.call_states.remove(&call_id) {
                    Some(mut state) => {
                        let mut remove_call_info = false;
                        let mut action: Option<Action> = None;
                        let mut matched = false;
                        match msg.data {
                            call_messages::Data::ListFolder(d) => {
                                match &state.data {
                                    call_states::Data::ListFolder { .. } => {
                                        Self::process_list_folder_msg(
                                            &mut self.visual_state,
                                            d,
                                            &mut state,
                                            &mut remove_call_info,
                                        );
                                        matched = true;
                                    },
                                    _ => {},
                                }
                            },
                            call_messages::Data::DownloadFile(d) => {
                                match &state.data {
                                    call_states::Data::DownloadFile { .. } => {
                                        action = Self::process_download_file_msg(
                                            &mut self.visual_state,
                                            d,
                                            &mut state,
                                            &mut remove_call_info,
                                        );
                                        matched = true;
                                    },
                                    _ => {},
                                }
                            },
                            call_messages::Data::Auth(d) => {
                                match &state.data {
                                    call_states::Data::Auth { .. } => {
                                        action = Self::process_auth_msg(
                                            &mut self.visual_state,
                                            call_id,
                                            d,
                                            &mut state,
                                            &mut remove_call_info,
                                            client_id,
                                        );
                                        matched = true;
                                    },
                                    _ => {},
                                }
                            },
                        }
                        if !matched || !remove_call_info {
                            self.call_states.insert(call_id, state);
                            if matched {
                                if let Some(a) = action {
                                    actions.push(a);
                                }
                            }
                        } else {
                            if let Some(a) = action {
                                actions.push(a);
                            }
                            Self::abort_handles_and_senders(&mut actions, &state);
                            match self.active_list_folder {
                                Some(idl) => if idl == call_id {
                                    self.active_list_folder = None;
                                },
                                None => {},
                            }
                            match self.active_auth {
                                Some(ida) => if ida == call_id {
                                    self.active_auth = None;
                                },
                                None => {},
                            }
                        }
                    },
                    None => {
                        match msg.data {
                            call_messages::Data::ListFolder(
                                call_messages::ListFolder::Started { handle, path },
                            ) => {
                                match self.active_list_folder {
                                    Some(prev) => {
                                        match self.call_states.remove(&prev) {
                                            Some(prev_state) => {
                                                Self::abort_handles_and_senders(
                                                    &mut actions,
                                                    &prev_state,
                                                );
                                            },
                                            None => {},
                                        }
                                    },
                                    None => {},
                                }
                                let mut handles: Vec<u64> = Vec::new();
                                handles.push(handle);
                                self.call_states.insert(
                                    call_id,
                                    State {
                                        handles,
                                        cancellers: Vec::new(),
                                        data: call_states::Data::ListFolder {
                                            data: call_states::ListFolder::InProgress {
                                                value: None,
                                                value_str: None,
                                            },
                                            path,
                                        },
                                    },
                                );
                                self.active_list_folder = Some(call_id);
                            },
                            call_messages::Data::DownloadFile(
                                call_messages::DownloadFile::Started {
                                    handle,
                                    remote_path,
                                    local_path,
                                },
                            ) => {
                                let mut handles: Vec<u64> = Vec::new();
                                handles.push(handle);
                                self.call_states.insert(
                                    call_id,
                                    State {
                                        handles,
                                        cancellers: Vec::new(),
                                        data: call_states::Data::DownloadFile {
                                            data: call_states::DownloadFile::Started,
                                            remote_path,
                                            local_path,
                                            size: None,
                                            downloaded: 0,
                                        },
                                    },
                                );
                            },
                            call_messages::Data::Auth(call_messages::Auth::Start) => {
                                match self.active_auth {
                                    Some(prev) => {
                                        match self.call_states.remove(&prev) {
                                            Some(prev_state) => {
                                                Self::abort_handles_and_senders(
                                                    &mut actions,
                                                    &prev_state,
                                                );
                                            },
                                            None => {},
                                        }
                                    },
                                    None => {},
                                }
                                self.visual_state.auth_process_state = Some(
                                    AuthProcessState { call_id },
                                );
                                let state_field = Self::random_string(10);
                                let ghost idx = actions@.len();
                                actions.push(Action::StartAuthServer { call_id, state_field });
                                proof {
                                    assert(actions@[idx as int]
                                        matches Action::StartAuthServer { call_id: c, state_field: sf }
                                        && c == call_id && sf@.len() == 10);
                                }
                                self.call_states.insert(
                                    call_id,
                                    State {
                                        handles: Vec::new(),
                                        cancellers: Vec::new(),
                                        data: call_states::Data::Auth {
                                            data: call_states::Auth::InProgress(
                                                call_states::AuthProgress::StartingLocalServer,
                                            ),
                                        },
                                    },
                                );
                                self.active_auth = Some(call_id);
                            },
                            _ => {},
                        }
                    },
                }
            },
            None => {
                match msg.data {
                    call_messages::Data::ListFolder(call_messages::ListFolder::Start { path }) => {
                        let call_id = self.gen_call_id();
                        actions.push(Action::StartListFolder { call_id, path });
                    },
                    _ => {},
                }
            },
        }
        actions
    }
}


/// The path with one trailing '/' removed, if it has one.
pub open spec fn spec_drop_trailing_slash(p: Seq<char>) -> Seq<char> {
    if p.len() > 0 && p[p.len() - 1] == '/' {
        p.subrange(0, p.len() - 1)
    } else {
        p
    }
}

/// The path with its last component and the '/' before it removed.
pub open spec fn spec_cut_last_component(p: Seq<char>) -> Seq<char>
    decreases p.len(),
{
    if p.len() == 0 {
        p
    } else if p[p.len() - 1] == '/' {
        p.subrange(0, p.len() - 1)
    } else {
        spec_cut_last_component(p.subrange(0, p.len() - 1))
    }
}

/// The parent of a path: a trailing '/' is ignored, then the last
/// component goes.
pub open spec fn spec_parent_path(p: Seq<char>) -> Seq<char> {
    spec_cut_last_component(spec_drop_trailing_slash(p))
}

/// A path extended by one component: a '/' goes between them unless
/// the path is empty or already ends in one.
pub open spec fn spec_append_path(path: Seq<char>, folder: Seq<char>) -> Seq<char> {
    if path.len() == 0 {
        folder
    } else if path[path.len() - 1] == '/' {
        path + folder
    } else {
        path + "/"@ + folder
    }
}

impl StorageInstance {
    /// The parent of `path`. The root (the empty path) has none.
    pub fn parent_path(path: &str) -> (r: String)
        requires
            path@.len() > 0,
        ensures
            r@ == spec_parent_path(path@),
    {
        let pl = path.unicode_len();
        let mut end: usize = pl;
        if path.get_char(pl - 1) == '/' {
            end = pl - 1;
        }
        proof {
            assert(spec_drop_trailing_slash(path@) =~= path@.subrange(0, end as int));
        }
        while end > 0 && path.get_char(end - 1) != '/'
            invariant
                end <= pl,
                pl == path@.len(),
                spec_cut_last_component(spec_drop_trailing_slash(path@))
                    == spec_cut_last_component(path@.subrange(0, end as int)),
            decreases end,
        {
            proof {
                assert(path@.subrange(0, end as int).subrange(0, end - 1) =~= path@.subrange(
                    0,
                    end - 1,
                ));
            }
            end = end - 1;
        }
        if end > 0 {
            proof {
                assert(path@.subrange(0, end as int).subrange(0, end - 1) =~= path@.subrange(
                    0,
                    end - 1,
                ));
            }
            path.substring_char(0, end - 1).to_owned()
        } else {
            proof {
                assert(path@.subrange(0, 0) =~= Seq::<char>::empty());
            }
            String::new()
        }
    }

    /// `path` extended by one component: a '/' is put between them
    /// unless the path is empty or already ends in one.
    pub fn append_path(path: &str, folder_name: &str) -> (r: String)
        ensures
            r@ == spec_append_path(path@, folder_name@),
    {
        let pl = path.unicode_len();
        if pl == 0 {
            return folder_name.to_owned();
        }
        let mut s = path.to_owned();
        if path.get_char(pl - 1) != '/' {
            s.append("/");
        }
        s.append(folder_name);
        s
    }

    /// Begin a listing of `path`: the registry hands out a fresh call
    /// id and asks for the listing task to be started.
    pub fn nav_to(&mut self, path: String) -> (action: Action)
        requires
            old(self).last_call_id < u64::MAX,
        ensures
            final(self).call_states == old(self).call_states,
            final(self).visual_state == old(self).visual_state,
            final(self).active_list_folder == old(self).active_list_folder,
            final(self).active_auth == old(self).active_auth,
            final(self).last_call_id == old(self).last_call_id + 1,
            old(self).wf() ==> final(self).wf(),
            action matches Action::StartListFolder { call_id, path: p } && call_id == old(
                self,
            ).last_call_id + 1 && p == path,
    {
        let call_id = self.gen_call_id();
        Action::StartListFolder { call_id, path }
    }

    /// Begin a listing of the parent of the folder on show.
    pub fn nav_back(&mut self) -> (action: Action)
        requires
            old(self).last_call_id < u64::MAX,
            old(self).visual_state.folder matches Some(f) && f.path@.len() > 0,
        ensures
            final(self).call_states == old(self).call_states,
            final(self).visual_state == old(self).visual_state,
            final(self).last_call_id == old(self).last_call_id + 1,
            old(self).wf() ==> final(self).wf(),
            action matches Action::StartListFolder { call_id, path: p } && call_id == old(
                self,
            ).last_call_id + 1 && (old(self).visual_state.folder matches Some(f) && p@
                == spec_parent_path(f.path@)),
    {
        let path = match &self.visual_state.folder {
            Some(folder) => Self::parent_path(folder.path.as_str()),
            None => String::new(),
        };
        let call_id = self.gen_call_id();
        Action::StartListFolder { call_id, path }
    }

    /// Begin a listing of a child of the folder on show.
    pub fn nav_forward(&mut self, folder_name: String) -> (action: Action)
        requires
            old(self).last_call_id < u64::MAX,
        ensures
            final(self).call_states == old(self).call_states,
            final(self).visual_state == old(self).visual_state,
            final(self).last_call_id == old(self).last_call_id + 1,
            old(self).wf() ==> final(self).wf(),
            action matches Action::StartListFolder { call_id, path } && call_id == old(
                self,
            ).last_call_id + 1 && path@ == spec_append_path(
                match old(self).visual_state.folder {
                    Some(f) => f.path@,
                    None => Seq::empty(),
                },
                folder_name@,
            ),
    {
        let path = match &self.visual_state.folder {
            Some(folder) => Self::append_path(folder.path.as_str(), folder_name.as_str()),
            None => {
                let r = Self::append_path("", folder_name.as_str());
                proof {
                    reveal_strlit("");
                    assert(""@ =~= Seq::<char>::empty());
                }
                r
            },
        };
        let call_id = self.gen_call_id();
        Action::StartListFolder { call_id, path }
    }

    /// Begin a download of `path` into `to_path` under a fresh call id.
    pub fn download_file(&mut self, path: String, to_path: String) -> (action: Action)
        requires
            old(self).last_call_id < u64::MAX,
        ensures
            final(self).call_states == old(self).call_states,
            final(self).visual_state == old(self).visual_state,
            final(self).last_call_id == old(self).last_call_id + 1,
            old(self).wf() ==> final(self).wf(),
            action matches Action::StartDownloadFile { call_id, remote_path, local_path }
                && call_id == old(self).last_call_id + 1 && remote_path == path && local_path
                == to_path,
    {
        let call_id = self.gen_call_id();
        Action::StartDownloadFile { call_id, remote_path: path, local_path: to_path }
    }

    /// Ask for an in-flight download to be cancelled.
    pub fn cancel_download_file(&self, call_id: u64) -> (action: Action)
        ensures
            action matches Action::Send(m) && m.call_id == Some(call_id) && m.data
                matches call_messages::Data::DownloadFile(call_messages::DownloadFile::Cancelled),
    {
        Action::Send(
            call_messages::Message {
                call_id: Some(call_id),
                data: call_messages::Data::DownloadFile(call_messages::DownloadFile::Cancelled),
            },
        )
    }

    /// Begin the authorization flow under a fresh call id.
    pub fn start_auth(&mut self) -> (action: Action)
        requires
            old(self).last_call_id < u64::MAX,
        ensures
            final(self).call_states == old(self).call_states,
            final(self).visual_state == old(self).visual_state,
            final(self).last_call_id == old(self).last_call_id + 1,
            old(self).wf() ==> final(self).wf(),
            action matches Action::Send(m) && m.call_id == Some(
                (old(self).last_call_id + 1) as u64,
            ) && m.data matches call_messages::Data::Auth(call_messages::Auth::Start),
    {
        let call_id = self.gen_call_id();
        Action::Send(
            call_messages::Message {
                call_id: Some(call_id),
                data: call_messages::Data::Auth(call_messages::Auth::Start),
            },
        )
    }

    /// Ask for the running authorization flow to be cancelled.
    pub fn cancel_auth(&self, call_id: u64) -> (action: Action)
        ensures
            action matches Action::Send(m) && m.call_id == Some(call_id) && m.data
                matches call_messages::Data::Auth(call_messages::Auth::Cancel),
    {
        Action::Send(
            call_messages::Message {
                call_id: Some(call_id),
                data: call_messages::Data::Auth(call_messages::Auth::Cancel),
            },
        )
    }
}

} // verus!
