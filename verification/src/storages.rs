use vstd::prelude::*;
use vstd::string::StringExecFns;
use vstd::string::StrSliceExecFns;
use crate::call_messages;
use crate::dropbox;
use crate::storage_models;

verus! {

use crate::storage_instance::Action;

/// Turn one storage call's input into the action that starts its
/// background task, by storage kind and call kind.
pub fn storage_call(
    storage_type: storage_models::StorageType,
    call_in_data: storage_models::CallInData,
    call_id: u64,
) -> (r: Action)
    ensures
        match call_in_data {
            storage_models::CallInData::list_folder(d) => r matches Action::StartListFolder {
                call_id: c,
                path,
            } && c == call_id && path == d.path,
            storage_models::CallInData::download_file(d) => r
                matches Action::StartDownloadFile { call_id: c, remote_path, local_path } && c
                == call_id && remote_path == d.remote_path && local_path == d.local_path,
        },
{
    match (storage_type, call_in_data) {
        (
            storage_models::StorageType::Cloud(crate::clouds::CloudId::Dropbox),
            storage_models::CallInData::list_folder(in_data),
        ) => Action::StartListFolder { call_id, path: in_data.path },
        (
            storage_models::StorageType::Cloud(crate::clouds::CloudId::Dropbox),
            storage_models::CallInData::download_file(in_data),
        ) => Action::StartDownloadFile {
            call_id,
            remote_path: in_data.remote_path,
            local_path: in_data.local_path,
        },
    }
}

/// `it` is the UI item that stands for the listing entry `m`: files
/// keep their size and server modification time, folders carry
/// neither.
pub open spec fn item_matches_meta(it: storage_models::Item, m: dropbox::Meta) -> bool {
    match m {
        dropbox::Meta::File(f) => {
            &&& it.name == f.name
            &&& it.id == f.id
            &&& !it.is_folder
            &&& it.modified == Some(f.server_modified)
            &&& it.size == Some(f.size)
            &&& it.items matches Some(v) && v@ =~= Seq::<storage_models::Item>::empty()
        },
        dropbox::Meta::Folder(f) => {
            &&& it.name == f.name
            &&& it.id == f.id
            &&& it.is_folder
            &&& it.modified is None
            &&& it.size is None
            &&& it.items is None
        },
    }
}

/// A path as the provider wants it: the root is the empty string, any
/// other folder gets a leading '/'. The bare "/" is not a valid input
/// (the root is written "").
pub fn normalize_path(path: &str) -> (r: String)
    requires
        path@ != "/"@,
    ensures
        r@ == if path@.len() == 0 {
            path@
        } else {
            "/"@ + path@
        },
{
    if path.unicode_len() == 0 {
        path.to_owned()
    } else {
        let mut s = String::new();
        s.append("/");
        s.append(path);
        s
    }
}

/// Fold a listing call error into what the UI reports: the path error
/// keeps its path, token errors are told apart from the rest.
pub fn map_list_folder_error(e: dropbox::ListFolderCallError) -> (r:
    storage_models::ListFolderError)
    ensures
        match e {
            dropbox::ListFolderCallError::PathNotFound(p) => r
                matches storage_models::ListFolderError::PathNotFound(q) && q == p,
            dropbox::ListFolderCallError::Base(b) => if b.spec_is_token_error() {
                r is Token
            } else {
                r is Other
            },
        },
{
    match e {
        dropbox::ListFolderCallError::Base(base) => {
            if base.is_token_error() {
                storage_models::ListFolderError::Token(base.text())
            } else {
                storage_models::ListFolderError::Other(base.text())
            }
        },
        dropbox::ListFolderCallError::PathNotFound(p) => {
            storage_models::ListFolderError::PathNotFound(p)
        },
    }
}

/// Fold a download call error into what the UI reports.
pub fn map_download_file_error(e: dropbox::DownloadFileCallError) -> (r:
    storage_models::DownloadFileError)
    ensures
        match e {
            dropbox::DownloadFileCallError::NotFound(p) => r
                matches storage_models::DownloadFileError::RemotePathNotFound(q) && q == p,
            dropbox::DownloadFileCallError::Base(b) => if b.spec_is_token_error() {
                r is Token
            } else {
                r is Other
            },
            _ => r is Other,
        },
{
    match e {
        dropbox::DownloadFileCallError::Base(base) => {
            if base.is_token_error() {
                storage_models::DownloadFileError::Token(base.text())
            } else {
                storage_models::DownloadFileError::Other(base.text())
            }
        },
        dropbox::DownloadFileCallError::NotFound(p) => {
            storage_models::DownloadFileError::RemotePathNotFound(p)
        },
        other => storage_models::DownloadFileError::Other(other.text()),
    }
}

/// What a listing does next after a page arrived: fetch the next page
/// with the cursor, or hand the finished listing over.
pub enum ListStep {
    Continue { cursor: String },
    Done { out: storage_models::list_folder_out_data },
}

/// The running state of one folder listing: the requested path, the
/// items gathered so far, and their count.
pub struct ListFolderFlow {
    pub path: String,
    pub items: Vec<storage_models::Item>,
    pub count: u64,
    pub pages: u64,
}

impl ListFolderFlow {
    /// A listing of `path` that has not received a page yet.
    pub fn new(path: String) -> (r: Self)
        ensures
            r.path == path,
            r.items@.len() == 0,
            r.count == 0,
            r.pages == 0,
    {
        ListFolderFlow { path, items: Vec::new(), count: 0, pages: 0 }
    }

    /// Consume one page of the listing.
    ///
    /// The page's entries are appended to the gathered items (each
    /// file or folder translated to its UI item) and counted. While
    /// the page says more is coming, the listing continues with the
    /// page's cursor and reports its running count; the last page
    /// closes the listing, whose item list then holds every entry of
    /// every page in order.
    pub fn on_page(&mut self, page: dropbox::ListFolderCallResult, call_id: u64) -> (res: (
        ListStep,
        Vec<call_messages::Message>,
    ))
        requires
            old(self).count + page.entries@.len() <= u64::MAX,
            old(self).pages < u64::MAX,
        ensures
            final(self).path == old(self).path,
            final(self).count == old(self).count + page.entries@.len(),
            final(self).pages == old(self).pages + 1,
            // while more pages are coming, the entries are appended to the
            // gathered items; the listing continues by cursor and reports
            // its running count
            page.has_more ==> {
                &&& final(self).items@.len() == old(self).items@.len() + page.entries@.len()
                &&& forall|j: int|
                    0 <= j < old(self).items@.len() ==> final(self).items@[j] == old(
                        self,
                    ).items@[j]
                &&& forall|j: int|
                    0 <= j < page.entries@.len() ==> item_matches_meta(
                        final(self).items@[old(self).items@.len() + j],
                        page.entries@[j],
                    )
                &&& res.0 matches ListStep::Continue { cursor } && cursor == page.cursor
                &&& res.1@.len() == 1
                &&& res.1@[0].call_id == Some(call_id)
                &&& res.1@[0].data matches call_messages::Data::ListFolder(
                    call_messages::ListFolder::Progress { value, value_str },
                ) && value == old(self).count + page.entries@.len() && value_str is None
            },
            // the last page closes the listing, handing over everything
            // gathered over all pages, in order
            !page.has_more ==> {
                &&& res.0 matches ListStep::Done { out } && out.path == old(self).path && (
                out.items matches Some(v) && {
                    &&& v@.len() == old(self).items@.len() + page.entries@.len()
                    &&& forall|j: int|
                        0 <= j < old(self).items@.len() ==> v@[j] == old(self).items@[j]
                    &&& forall|j: int|
                        0 <= j < page.entries@.len() ==> item_matches_meta(
                            v@[old(self).items@.len() + j],
                            page.entries@[j],
                        )
                })
                &&& (old(self).pages == 0 ==> res.1@.len() == 0)
                &&& (old(self).pages > 0 ==> res.1@.len() == 1 && res.1@[0].call_id == Some(
                    call_id,
                ) && (res.1@[0].data matches call_messages::Data::ListFolder(
                    call_messages::ListFolder::Progress { value, value_str },
                ) && value == old(self).count + page.entries@.len() && value_str is None))
            },
    {
        let ghost old_len = self.items@.len();
        let first_page = self.pages == 0;
        self.pages = self.pages + 1;
        let entries_len = page.entries.len() as u64;
        let mut i: usize = 0;
        let entries = page.entries;
        while i < entries.len()
            invariant
                i <= entries@.len(),
                self.items@.len() == old_len + i,
                old_len == old(self).items@.len(),
                self.count == old(self).count,
                self.path == old(self).path,
                self.pages == old(self).pages + 1,
                old(self).count + entries@.len() <= u64::MAX,
                forall|j: int| 0 <= j < old_len ==> self.items@[j] == old(self).items@[j],
                forall|j: int|
                    0 <= j < i ==> item_matches_meta(self.items@[old_len + j], entries@[j]),
            decreases entries@.len() - i,
        {
            let item = match &entries[i] {
                dropbox::Meta::File(file) => storage_models::Item {
                    name: file.name.clone(),
                    id: file.id.clone(),
                    is_folder: false,
                    modified: Some(file.server_modified),
                    size: Some(file.size),
                    items: Some(Vec::new()),
                },
                dropbox::Meta::Folder(folder) => storage_models::Item {
                    name: folder.name.clone(),
                    id: folder.id.clone(),
                    is_folder: true,
                    modified: None,
                    size: None,
                    items: None,
                },
            };
            self.items.push(item);
            i = i + 1;
        }
        self.count = self.count + entries_len;
        let mut messages: Vec<call_messages::Message> = Vec::new();
        if page.has_more || !first_page {
            messages.push(
                call_messages::Message {
                    call_id: Some(call_id),
                    data: call_messages::Data::ListFolder(
                        call_messages::ListFolder::Progress {
                            value: self.count,
                            value_str: None,
                        },
                    ),
                },
            );
        }
        if page.has_more {
            (ListStep::Continue { cursor: page.cursor }, messages)
        } else {
            let mut items: Vec<storage_models::Item> = Vec::new();
            core::mem::swap(&mut items, &mut self.items);
            let out = storage_models::list_folder_out_data {
                path: self.path.clone(),
                items: Some(items),
            };
            (ListStep::Done { out }, messages)
        }
    }
}


/// The entries of the pages, concatenated in order.
pub open spec fn spec_pages_entries(pages: Seq<dropbox::ListFolderCallResult>) -> Seq<
    dropbox::Meta,
>
    decreases pages.len(),
{
    if pages.len() == 0 {
        Seq::empty()
    } else {
        pages.first().entries@.add(spec_pages_entries(pages.drop_first()))
    }
}

/// The running counts a listing reports: after each page, the total
/// of entries gathered so far, starting from `base`.
pub open spec fn spec_progress_counts(pages: Seq<dropbox::ListFolderCallResult>, base: int) -> Seq<
    int,
>
    decreases pages.len(),
{
    if pages.len() == 0 {
        Seq::empty()
    } else {
        seq![base + pages.first().entries@.len()].add(
            spec_progress_counts(pages.drop_first(), base + pages.first().entries@.len()),
        )
    }
}

/// The running counts never fall: every reported count is at least
/// the one before it.
pub proof fn lemma_progress_counts_nondecreasing(
    pages: Seq<dropbox::ListFolderCallResult>,
    base: int,
)
    ensures
        forall|i: int, j: int|
            0 <= i <= j < spec_progress_counts(pages, base).len() ==> spec_progress_counts(
                pages,
                base,
            )[i] <= spec_progress_counts(pages, base)[j],
        forall|i: int|
            0 <= i < spec_progress_counts(pages, base).len() ==> base <= #[trigger]
                spec_progress_counts(pages, base)[i],
    decreases pages.len(),
{
    if pages.len() > 0 {
        let tail = pages.drop_first();
        let b2 = base + pages.first().entries@.len();
        lemma_progress_counts_nondecreasing(tail, b2);
        let c = spec_progress_counts(pages, base);
        let ct = spec_progress_counts(tail, b2);
        assert(c == seq![b2 as int].add(ct));
        assert forall|i: int| 0 <= i < c.len() implies base <= #[trigger] c[i] by {
            if i > 0 {
                assert(c[i] == ct[i - 1]);
                assert(b2 <= ct[i - 1]);
            }
        }
        assert forall|i: int, j: int| 0 <= i <= j < c.len() implies c[i] <= c[j] by {
            if i == 0 {
                if j > 0 {
                    assert(c[j] == ct[j - 1]);
                    assert(b2 <= ct[j - 1]);
                }
            } else {
                assert(c[i] == ct[i - 1]);
                assert(c[j] == ct[j - 1]);
            }
        }
    }
}

/// The pagination law: a listing that receives the pages
/// [{entries: e1, more coming}, {entries: e2, last}] ends with the
/// item list e1 ++ e2, and reports at least one running count, the
/// counts being |e1| then |e1| + |e2|, which never fall.
pub proof fn lemma_pagination_two_pages(
    p1: dropbox::ListFolderCallResult,
    p2: dropbox::ListFolderCallResult,
)
    requires
        p1.has_more,
        !p2.has_more,
    ensures
        spec_pages_entries(seq![p1, p2]) == p1.entries@ + p2.entries@,
        spec_progress_counts(seq![p1, p2], 0) == seq![
            p1.entries@.len() as int,
            p1.entries@.len() + p2.entries@.len() as int,
        ],
        spec_progress_counts(seq![p1, p2], 0).len() >= 1,
        forall|i: int, j: int|
            0 <= i <= j < 2 ==> spec_progress_counts(seq![p1, p2], 0)[i]
                <= spec_progress_counts(seq![p1, p2], 0)[j],
{
    let pages = seq![p1, p2];
    reveal_with_fuel(spec_pages_entries, 3);
    reveal_with_fuel(spec_progress_counts, 3);
    assert(pages.drop_first() =~= seq![p2]);
    assert(seq![p2].drop_first() =~= Seq::<dropbox::ListFolderCallResult>::empty());
    assert(spec_pages_entries(pages) =~= p1.entries@ + p2.entries@);
    assert(spec_progress_counts(pages, 0) =~= seq![
        p1.entries@.len() as int,
        p1.entries@.len() + p2.entries@.len() as int,
    ]);
    lemma_progress_counts_nondecreasing(pages, 0);
}

} // verus!
