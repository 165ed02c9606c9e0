//! The feed flow view: which entries a page shows, and what each entry's
//! preview says when a field is missing.

use vstd::prelude::*;

use crate::ids::{FeedId, FolderId};
use crate::model::{Entry, Feed};

verus! {

use vstd::string::StringExecFns;

/// What the panels read from the application: the folders in display order,
/// and the feeds that belong to no folder.
pub struct AppState {
    pub folders: Vec<FolderId>,
    pub orphan_feeds: Vec<FeedId>,
}

/// One row of the sidebar's subscription list.
#[derive(Clone, Copy, PartialEq, Eq, Structural, Debug)]
pub enum SidebarRow {
    Folder(FolderId),
    Feed(FeedId),
}

/// The rows the sidebar lists: every folder in order, then every orphan
/// feed in order.
pub open spec fn sidebar_rows(app: AppState) -> Seq<SidebarRow> {
    app.folders@.map_values(|f: FolderId| SidebarRow::Folder(f)) + app.orphan_feeds@.map_values(
        |f: FeedId| SidebarRow::Feed(f),
    )
}

/// The view over one feed's entries, paginated.
pub struct FeedFlowView {
    pub id: FeedId,
    pub page: usize,
    pub per_page: usize,
}

/// The placeholder text when an entry has no title.
pub open spec fn no_title_text() -> Seq<char> {
    "unnamed"@
}

/// The placeholder text when an entry has no summary.
pub open spec fn no_content_text() -> Seq<char> {
    "no content"@
}

/// The placeholder text when an entry has no update time.
pub open spec fn no_time_text() -> Seq<char> {
    "no time"@
}

/// The placeholder text when an entry has no link.
pub open spec fn no_link_text() -> Seq<char> {
    "no link"@
}

/// The text of an optional field, or the given placeholder when it is absent.
pub open spec fn text_or(t: Option<String>, placeholder: Seq<char>) -> Seq<char> {
    match t {
        Some(s) => s@,
        None => placeholder,
    }
}

/// The first of a list of texts, or the given placeholder when it is empty.
pub open spec fn first_or(v: Seq<String>, placeholder: Seq<char>) -> Seq<char> {
    if v.len() == 0 {
        placeholder
    } else {
        v[0]@
    }
}

/// What one entry's preview card displays, every field resolved to text.
pub struct EntryPreview {
    pub channel: String,
    pub author: Option<String>,
    pub title: String,
    pub link: String,
    pub time: String,
    pub content: String,
}

impl FeedFlowView {
    /// A fresh view of the given feed: the first page, five entries per page.
    pub fn new(id: FeedId) -> (v: FeedFlowView)
        ensures
            v.id == id,
            v.page == 1,
            v.per_page == 5,
    {
        FeedFlowView { id, page: 1, per_page: 5 }
    }

    /// The index of the first entry the current page shows, out of `len` entries.
    pub open spec fn page_start(self, len: int) -> int {
        let s = (self.page - 1) * self.per_page;
        if s <= len {
            s
        } else {
            len
        }
    }

    /// One past the index of the last entry the current page shows.
    pub open spec fn page_end(self, len: int) -> int {
        let e = self.page_start(len) + self.per_page;
        if e <= len {
            e
        } else {
            len
        }
    }

    /// The entries the current page shows: the page's worth of entries after
    /// skipping the earlier pages, in order, cut short at the end of the feed.
    pub fn page_entries<'e>(&self, entries: &'e Vec<Entry>) -> (r: Vec<&'e Entry>)
        requires
            self.page >= 1,
            (self.page - 1) * self.per_page <= usize::MAX,
        ensures
            r@.len() == self.page_end(entries@.len() as int) - self.page_start(
                entries@.len() as int,
            ),
            forall|k: int|
                0 <= k < r@.len() ==> *(#[trigger] r@[k]) == entries@[self.page_start(
                    entries@.len() as int,
                ) + k],
    {
        let len: usize = entries.len();
        let skipped: usize = (self.page - 1) * self.per_page;
        let start: usize = if skipped <= len {
            skipped
        } else {
            len
        };
        let end: usize = if len - start > self.per_page {
            start + self.per_page
        } else {
            len
        };
        let mut r: Vec<&'e Entry> = Vec::new();
        let mut i: usize = start;
        while i < end
            invariant
                start <= i <= end <= entries@.len(),
                r@.len() == i - start,
                forall|k: int| 0 <= k < r@.len() ==> *(#[trigger] r@[k]) == entries@[start + k],
            decreases end - i,
        {
            r.push(&entries[i]);
            i += 1;
        }
        r
    }
}

/// The preview card for one entry of the feed at `channel`: each present
/// field as it stands, each absent one replaced by its placeholder text.
pub fn entry_preview(entry: &Entry, channel: &str) -> (r: EntryPreview)
    ensures
        r.channel@ == channel@,
        r.title@ == text_or(entry.title, no_title_text()),
        r.content@ == text_or(entry.summary, no_content_text()),
        r.time@ == text_or(entry.updated, no_time_text()),
        r.link@ == first_or(entry.links@, no_link_text()),
        match r.author {
            Some(a) => entry.authors@.len() > 0 && a@ == entry.authors@[0]@,
            None => entry.authors@.len() == 0,
        },
{
    let title = match &entry.title {
        Some(s) => s.clone(),
        None => "unnamed".to_owned(),
    };
    let content = match &entry.summary {
        Some(s) => s.clone(),
        None => "no content".to_owned(),
    };
    let time = match &entry.updated {
        Some(s) => s.clone(),
        None => "no time".to_owned(),
    };
    let link = if entries_first_exists(&entry.links) {
        entry.links[0].clone()
    } else {
        "no link".to_owned()
    };
    let author = if entries_first_exists(&entry.authors) {
        Some(entry.authors[0].clone())
    } else {
        None
    };
    EntryPreview { channel: channel.to_owned(), author, title, link, time, content }
}

/// Whether a list of texts has a first element.
fn entries_first_exists(v: &Vec<String>) -> (r: bool)
    ensures
        r == (v@.len() > 0),
{
    v.len() > 0
}

/// Whether the feed flow must show the sync prompt instead of entries:
/// exactly when the feed has never been synced, so it has no content yet.
pub fn needs_sync_prompt(feed: &Feed) -> (r: bool)
    ensures
        r == (feed.model is None),
{
    match &feed.model {
        Some(_) => false,
        None => true,
    }
}

/// The caption above a feed's entries that tells when it was last updated.
pub fn updated_label(updated: &str) -> (r: String)
    ensures
        r@ == "更新于 "@ + updated@,
{
    "更新于 ".to_owned().concat(updated)
}

/// The sidebar with the subscription list.
pub struct LeftSidePanel<'app> {
    pub app: &'app AppState,
}

impl<'app> LeftSidePanel<'app> {
    pub fn new(app: &'app AppState) -> (p: LeftSidePanel<'app>)
        ensures
            p.app == app,
    {
        LeftSidePanel { app }
    }

    /// The subscription list the sidebar shows, row by row: the folders
    /// first, then the feeds that belong to no folder, each in order.
    pub fn rows(&self) -> (r: Vec<SidebarRow>)
        ensures
            r@ == sidebar_rows(*self.app),
    {
        let nf: usize = self.app.folders.len();
        let no: usize = self.app.orphan_feeds.len();
        let mut r: Vec<SidebarRow> = Vec::new();
        let mut j: usize = 0;
        while j < nf
            invariant
                0 <= j <= nf == self.app.folders@.len(),
                r@.len() == j,
                forall|k: int|
                    0 <= k < j ==> r@[k] == SidebarRow::Folder(#[trigger] self.app.folders@[k]),
            decreases nf - j,
        {
            r.push(SidebarRow::Folder(self.app.folders[j]));
            j += 1;
        }
        let mut m: usize = 0;
        while m < no
            invariant
                0 <= m <= no == self.app.orphan_feeds@.len(),
                nf == self.app.folders@.len(),
                r@.len() == nf + m,
                forall|k: int|
                    0 <= k < nf ==> r@[k] == SidebarRow::Folder(#[trigger] self.app.folders@[k]),
                forall|k: int|
                    0 <= k < m ==> r@[nf + k] == SidebarRow::Feed(
                        #[trigger] self.app.orphan_feeds@[k],
                    ),
            decreases no - m,
        {
            r.push(SidebarRow::Feed(self.app.orphan_feeds[m]));
            m += 1;
        }
        proof {
            assert(r@ =~= sidebar_rows(*self.app));
        }
        r
    }
}

/// The central panel, which draws whatever view is active.
pub struct CentralPanel<'app> {
    pub app: &'app AppState,
}

impl<'app> CentralPanel<'app> {
    pub fn new(app: &'app AppState) -> (p: CentralPanel<'app>)
        ensures
            p.app == app,
    {
        CentralPanel { app }
    }
}

/// A stand-in view shown while a real one is not selected.
pub struct DummyView {}

impl Default for DummyView {
    fn default() -> (d: DummyView)
        ensures
            d == (DummyView {  }),
    {
        DummyView {  }
    }
}

} // verus!

