//! Scrubbing a spammer's recent messages from a channel: the history is
//! read page by page, newest first, and the spammer's messages on each page
//! are deleted.

use vstd::prelude::*;

verus! {

/// At most this many pages of history are read.
pub const PURGE_MAX_PAGES: usize = 10;

/// The number of messages asked for per page.
pub const PURGE_PAGE_SIZE: u16 = 100;

/// A message in a page of channel history.
pub struct PageEntry {
    pub id: u64,
    pub author_id: u64,
}

/// A request for the next page of history: up to `limit` messages, all
/// older than `before` when it is given.
pub struct FetchRequest {
    pub channel_id: u64,
    pub before: Option<u64>,
    pub limit: u16,
}

/// What to delete after reading a page.
pub enum PurgeAction {
    Nothing,
    DeleteOne { channel_id: u64, message_id: u64 },
    DeleteMany { channel_id: u64, message_ids: Vec<u64> },
}

/// The ids of the messages on `page` written by `author_id`, in page order.
pub open spec fn authored_ids(page: Seq<PageEntry>, author_id: u64) -> Seq<u64>
    decreases page.len(),
{
    if page.len() == 0 {
        seq![]
    } else {
        let rest = authored_ids(page.drop_last(), author_id);
        if page.last().author_id == author_id {
            rest.push(page.last().id)
        } else {
            rest
        }
    }
}

/// Whether `page` holds a message with id `id` written by `author_id`.
pub open spec fn written_by(page: Seq<PageEntry>, author_id: u64, id: u64) -> bool {
    exists|j: int| 0 <= j < page.len() && page[j].id == id && page[j].author_id == author_id
}

/// Every id picked from a page belongs to a message on the page written by
/// the author, and every such message is picked.
pub proof fn lemma_authored_ids_exact(page: Seq<PageEntry>, author_id: u64)
    ensures
        forall|k: int| 0 <= k < authored_ids(page, author_id).len()
            ==> written_by(page, author_id, #[trigger] authored_ids(page, author_id)[k]),
        forall|j: int| 0 <= j < page.len() && #[trigger] page[j].author_id == author_id
            ==> authored_ids(page, author_id).contains(page[j].id),
    decreases page.len(),
{
    if page.len() > 0 {
        let prefix = page.drop_last();
        lemma_authored_ids_exact(prefix, author_id);
        let ids = authored_ids(page, author_id);
        let rest = authored_ids(prefix, author_id);
        assert forall|k: int| 0 <= k < ids.len() implies written_by(page, author_id, #[trigger] ids[k]) by {
            if k < rest.len() {
                assert(ids[k] == rest[k]);
                assert(written_by(prefix, author_id, rest[k]));
                let j = choose|j: int| 0 <= j < prefix.len() && prefix[j].id == rest[k]
                    && prefix[j].author_id == author_id;
                assert(page[j] == prefix[j]);
            } else {
                assert(page[page.len() - 1].id == ids[k]);
            }
        }
        assert forall|j: int| 0 <= j < page.len() && #[trigger] page[j].author_id == author_id
            implies ids.contains(page[j].id) by {
            if j < prefix.len() {
                assert(page[j] == prefix[j]);
                assert(prefix[j].author_id == author_id);
                assert(rest.contains(prefix[j].id));
                let k = choose|k: int| 0 <= k < rest.len() && rest[k] == prefix[j].id;
                assert(ids[k] == rest[k]);
            } else {
                assert(ids[ids.len() - 1] == page[j].id);
            }
        }
    }
}

/// Each page read counts toward the bound, an empty page ends the scan, a
/// non-empty page moves the scan before its last (oldest) message whoever
/// wrote the page's messages,
/// and no page is wanted once `PURGE_MAX_PAGES` pages have been read, so a
/// scan reads at most `PURGE_MAX_PAGES` pages.
pub proof fn lemma_scan_is_bounded(scan: PurgeScanView, page: Seq<PageEntry>)
    ensures
        scan.after_page(page).pages_read == scan.pages_read + 1,
        page.len() == 0 ==> !scan.after_page(page).wants_page(),
        scan.pages_read >= PURGE_MAX_PAGES ==> !scan.wants_page(),
        scan.after_page(page).author_id == scan.author_id,
        page.len() > 0 ==> scan.after_page(page).before == Some(page[page.len() - 1].id),
        page.len() > 0 ==> scan.after_page(page).wants_page() == (scan.pages_read + 1 < PURGE_MAX_PAGES),
        scan.after_page(page).channel_id == scan.channel_id,
{
}

/// The state of a scan over a channel's history.
pub struct PurgeScan {
    channel_id: u64,
    author_id: u64,
    pages_read: usize,
    before: Option<u64>,
    exhausted: bool,
    total_deleted: usize,
}

pub struct PurgeScanView {
    pub channel_id: u64,
    pub author_id: u64,
    pub pages_read: nat,
    pub before: Option<u64>,
    pub exhausted: bool,
    pub total_deleted: nat,
}

impl View for PurgeScan {
    type V = PurgeScanView;

    closed spec fn view(&self) -> PurgeScanView {
        PurgeScanView {
            channel_id: self.channel_id,
            author_id: self.author_id,
            pages_read: self.pages_read as nat,
            before: self.before,
            exhausted: self.exhausted,
            total_deleted: self.total_deleted as nat,
        }
    }
}

impl PurgeScanView {
    /// Whether another page is to be read.
    pub open spec fn wants_page(self) -> bool {
        !self.exhausted && self.pages_read < PURGE_MAX_PAGES
    }

    /// The scan after reading `page`: an empty page ends it, otherwise the
    /// next page starts before the last message of this one.
    pub open spec fn after_page(self, page: Seq<PageEntry>) -> PurgeScanView {
        PurgeScanView {
            pages_read: self.pages_read + 1,
            before: if page.len() == 0 { self.before } else { Some(page.last().id) },
            exhausted: page.len() == 0,
            ..self
        }
    }
}

impl PurgeAction {
    /// The channel and the ids this action deletes.
    pub open spec fn deletes(&self) -> (Option<u64>, Seq<u64>) {
        match self {
            PurgeAction::Nothing => (None, seq![]),
            PurgeAction::DeleteOne { channel_id, message_id } => (Some(*channel_id), seq![*message_id]),
            PurgeAction::DeleteMany { channel_id, message_ids } => (Some(*channel_id), message_ids@),
        }
    }
}

impl PurgeScan {
    #[verifier::type_invariant]
    spec fn bounded(self) -> bool {
        self.pages_read <= PURGE_MAX_PAGES
    }

    /// A scan of `channel_id` for messages written by `author_id`.
    pub fn new(channel_id: u64, author_id: u64) -> (r: PurgeScan)
        ensures
            r@ == (PurgeScanView {
                channel_id,
                author_id,
                pages_read: 0,
                before: None,
                exhausted: false,
                total_deleted: 0,
            }),
    {
        PurgeScan { channel_id, author_id, pages_read: 0, before: None, exhausted: false, total_deleted: 0 }
    }

    /// The next page to read, or `None` once the scan is over: after an
    /// empty page or after `PURGE_MAX_PAGES` pages.
    pub fn next_fetch(&self) -> (r: Option<FetchRequest>)
        ensures
            self@.pages_read <= PURGE_MAX_PAGES,
            r is Some <==> self@.wants_page(),
            r matches Some(req) ==> req.channel_id == self@.channel_id && req.before == self@.before
                && req.limit == PURGE_PAGE_SIZE,
    {
        proof {
            use_type_invariant(self);
        }
        if self.exhausted || self.pages_read >= PURGE_MAX_PAGES {
            None
        } else {
            Some(FetchRequest { channel_id: self.channel_id, before: self.before, limit: PURGE_PAGE_SIZE })
        }
    }

    /// Takes in the page that `next_fetch` asked for (empty when it could
    /// not be read) and says what to delete: the author's messages on it,
    /// one by one when there is one, in bulk when there are more.
    pub fn on_page(&mut self, page: &Vec<PageEntry>) -> (r: PurgeAction)
        requires
            old(self)@.wants_page(),
        ensures
            final(self)@ == old(self)@.after_page(page@),
            r.deletes().1 == authored_ids(page@, old(self)@.author_id),
            r.deletes().1.len() > 0 ==> r.deletes().0 == Some(old(self)@.channel_id),
            r is DeleteOne <==> authored_ids(page@, old(self)@.author_id).len() == 1,
            r is DeleteMany <==> authored_ids(page@, old(self)@.author_id).len() >= 2,
    {
        proof {
            use_type_invariant(&*self);
        }
        self.pages_read = self.pages_read + 1;
        if page.len() == 0 {
            self.exhausted = true;
            return PurgeAction::Nothing;
        }
        self.before = Some(page[page.len() - 1].id);
        let mut ids: Vec<u64> = Vec::new();
        let mut i: usize = 0;
        while i < page.len()
            invariant
                i <= page@.len(),
                ids@ == authored_ids(page@.take(i as int), self.author_id),
            decreases page.len() - i,
        {
            assert(page@.take(i + 1).drop_last() =~= page@.take(i as int));
            if page[i].author_id == self.author_id {
                ids.push(page[i].id);
            }
            i = i + 1;
        }
        assert(page@.take(page@.len() as int) =~= page@);
        if ids.len() >= 2 {
            PurgeAction::DeleteMany { channel_id: self.channel_id, message_ids: ids }
        } else if ids.len() == 1 {
            PurgeAction::DeleteOne { channel_id: self.channel_id, message_id: ids[0] }
        } else {
            assert(ids@ =~= Seq::<u64>::empty());
            PurgeAction::Nothing
        }
    }

    /// Records that `count` messages were deleted.
    pub fn record_deleted(&mut self, count: usize)
        requires
            old(self)@.total_deleted + count <= usize::MAX,
        ensures
            final(self)@ == (PurgeScanView { total_deleted: (old(self)@.total_deleted + count) as nat, ..old(self)@ }),
    {
        proof {
            use_type_invariant(&*self);
        }
        self.total_deleted = self.total_deleted + count;
    }

    /// How many messages the scan has deleted so far.
    pub fn total_deleted(&self) -> (r: usize)
        ensures
            r == self@.total_deleted,
    {
        self.total_deleted
    }
}

} // verus!
