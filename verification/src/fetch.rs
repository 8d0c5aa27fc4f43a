//! What has to be on disk and what has to be fetched: the units the
//! integrity check and the downloads work on.

use vstd::prelude::*;
use crate::integrity::{check_file, content_view, file_valid};
use crate::text::views;

verus! {

/// A file that must be present with a given size and digest, and where to
/// fetch it from when it is not.
#[derive(Debug)]
pub struct FileCheck {
    pub path: String,
    pub sha1: String,
    pub size: u64,
    pub url: String,
    pub label: String,
}

/// The mathematical value of a [`FileCheck`].
pub struct FileCheckView {
    pub path: Seq<char>,
    pub sha1: Seq<char>,
    pub size: u64,
    pub url: Seq<char>,
    pub label: Seq<char>,
}

impl View for FileCheck {
    type V = FileCheckView;

    open spec fn view(&self) -> FileCheckView {
        FileCheckView {
            path: self.path@,
            sha1: self.sha1@,
            size: self.size,
            url: self.url@,
            label: self.label@,
        }
    }
}

impl Clone for FileCheck {
    fn clone(&self) -> (copy: FileCheck)
        ensures
            copy@ == self@,
    {
        FileCheck {
            path: self.path.clone(),
            sha1: self.sha1.clone(),
            size: self.size,
            url: self.url.clone(),
            label: self.label.clone(),
        }
    }
}

/// One download: the address, the file it is written to, and the name it
/// is reported under.
#[derive(Debug)]
pub struct FetchItem {
    pub destination: String,
    pub url: String,
    pub label: String,
}

/// The mathematical value of a [`FetchItem`].
pub struct FetchItemView {
    pub destination: Seq<char>,
    pub url: Seq<char>,
    pub label: Seq<char>,
}

impl View for FetchItem {
    type V = FetchItemView;

    open spec fn view(&self) -> FetchItemView {
        FetchItemView { destination: self.destination@, url: self.url@, label: self.label@ }
    }
}

/// The download that brings a checked file.
pub open spec fn fetch_of(check: FileCheckView) -> FetchItemView {
    FetchItemView { destination: check.path, url: check.url, label: check.label }
}

impl FileCheck {
    /// Whether the file, with the given contents (`None` where it does not
    /// exist), is what this check expects.
    pub fn is_valid(&self, content: Option<&[u8]>) -> (ok: bool)
        ensures
            ok == file_valid(content_view(content), self.sha1@, self.size),
    {
        check_file(content, self.sha1.as_str(), self.size)
    }

    /// The download that brings this file.
    pub fn fetch(&self) -> (item: FetchItem)
        ensures
            item@ == fetch_of(self@),
    {
        FetchItem {
            destination: self.path.clone(),
            url: self.url.clone(),
            label: self.label.clone(),
        }
    }

    /// The download that this file needs, given its present contents: none
    /// where the file is valid, and otherwise the one that brings it.
    pub fn fetch_unless_valid(&self, content: Option<&[u8]>) -> (item: Option<FetchItem>)
        ensures
            match item {
                Some(fetch) => !file_valid(content_view(content), self.sha1@, self.size)
                    && fetch@ == fetch_of(self@),
                None => file_valid(content_view(content), self.sha1@, self.size),
            },
    {
        if self.is_valid(content) {
            None
        } else {
            Some(self.fetch())
        }
    }
}

impl Clone for FetchItem {
    fn clone(&self) -> (copy: FetchItem)
        ensures
            copy@ == self@,
    {
        FetchItem {
            destination: self.destination.clone(),
            url: self.url.clone(),
            label: self.label.clone(),
        }
    }
}

/// How many downloads of a batch run at the same time, unless told
/// otherwise. The origin fails under more.
pub const MAX_CONCURRENT_FETCHES: usize = 25;

/// A batch of downloads that are started in order of submission, never
/// more than a fixed number of them at a time.
pub struct FetchBatch {
    items: Vec<FetchItem>,
    started: usize,
    finished: usize,
    failed: usize,
    limit: usize,
}

/// The mathematical value of a [`FetchBatch`].
pub struct FetchBatchView {
    /// The downloads of the batch, in order of submission.
    pub items: Seq<FetchItemView>,
    /// How many of them have been started: the first that many.
    pub started: nat,
    /// How many of the started ones have finished, well or not.
    pub finished: nat,
    /// How many of the finished ones have failed.
    pub failed: nat,
    /// How many may run at the same time.
    pub limit: nat,
}

impl FetchBatchView {
    /// How many downloads are running.
    pub open spec fn in_flight(self) -> int {
        self.started - self.finished
    }

    /// What holds of every batch: no more downloads are running than the
    /// limit allows.
    pub open spec fn well_formed(self) -> bool {
        &&& self.limit >= 1
        &&& self.failed <= self.finished <= self.started <= self.items.len()
        &&& self.in_flight() <= self.limit
    }

    /// Whether another download may be started: one is left, and the limit
    /// is not reached.
    pub open spec fn can_start(self) -> bool {
        self.started < self.items.len() && self.in_flight() < self.limit
    }

    /// Whether every download has finished.
    pub open spec fn is_done(self) -> bool {
        self.finished == self.items.len()
    }

    /// The batch once its next download has been started.
    pub open spec fn start(self) -> FetchBatchView {
        FetchBatchView { started: self.started + 1, ..self }
    }

    /// The batch once one of its running downloads has finished. A failure
    /// is counted and changes nothing else.
    pub open spec fn finish(self, success: bool) -> FetchBatchView {
        FetchBatchView {
            finished: self.finished + 1,
            failed: if success {
                self.failed
            } else {
                self.failed + 1
            },
            ..self
        }
    }

    /// How many starts and finishes are still to come.
    pub open spec fn steps_left(self) -> int {
        (self.items.len() - self.started) + (self.items.len() - self.finished)
    }
}

impl View for FetchBatch {
    type V = FetchBatchView;

    closed spec fn view(&self) -> FetchBatchView {
        FetchBatchView {
            items: views(self.items@),
            started: self.started as nat,
            finished: self.finished as nat,
            failed: self.failed as nat,
            limit: self.limit as nat,
        }
    }
}

impl FetchBatch {
    #[verifier::type_invariant]
    spec fn within_limit(self) -> bool {
        self@.well_formed()
    }

    /// A batch of the given downloads, none of them started, of which at
    /// most `limit` run at a time. There is no batch with a limit of zero.
    pub fn with_limit(items: Vec<FetchItem>, limit: usize) -> (batch: Option<FetchBatch>)
        ensures
            match batch {
                Some(b) => limit >= 1 && b@ == (FetchBatchView {
                    items: views(items@),
                    started: 0,
                    finished: 0,
                    failed: 0,
                    limit: limit as nat,
                }) && b@.well_formed(),
                None => limit == 0,
            },
    {
        if limit == 0 {
            None
        } else {
            Some(FetchBatch { items, started: 0, finished: 0, failed: 0, limit })
        }
    }

    /// A batch of the given downloads with the usual limit.
    pub fn new(items: Vec<FetchItem>) -> (batch: FetchBatch)
        ensures
            batch@ == (FetchBatchView {
                items: views(items@),
                started: 0,
                finished: 0,
                failed: 0,
                limit: MAX_CONCURRENT_FETCHES as nat,
            }),
            batch@.well_formed(),
    {
        FetchBatch { items, started: 0, finished: 0, failed: 0, limit: MAX_CONCURRENT_FETCHES }
    }

    /// Starts the next download, if one is left and the limit allows it, and
    /// hands it out.
    pub fn start_next(&mut self) -> (item: Option<FetchItem>)
        ensures
            final(self)@.well_formed(),
            match item {
                Some(fetch) => old(self)@.can_start() && final(self)@ == old(self)@.start()
                    && fetch@ == old(self)@.items[old(self)@.started as int],
                None => !old(self)@.can_start() && final(self)@ == old(self)@,
            },
    {
        proof {
            use_type_invariant(&*self);
        }
        if self.started < self.items.len() && self.started - self.finished < self.limit {
            let item = self.items[self.started].clone();
            self.started = self.started + 1;
            Some(item)
        } else {
            None
        }
    }

    /// Records that one of the running downloads has finished, well or not.
    /// Returns whether one was running; nothing changes where none was.
    pub fn finish_one(&mut self, success: bool) -> (recorded: bool)
        ensures
            final(self)@.well_formed(),
            recorded == (old(self)@.in_flight() > 0),
            recorded ==> final(self)@ == old(self)@.finish(success),
            !recorded ==> final(self)@ == old(self)@,
    {
        proof {
            use_type_invariant(&*self);
        }
        if self.finished < self.started {
            self.finished = self.finished + 1;
            if !success {
                self.failed = self.failed + 1;
            }
            true
        } else {
            false
        }
    }

    /// How many downloads are running.
    pub fn in_flight(&self) -> (n: usize)
        ensures
            n == self@.in_flight(),
            n <= self@.limit,
    {
        proof {
            use_type_invariant(self);
        }
        self.started - self.finished
    }

    /// How many downloads have failed.
    pub fn failed(&self) -> (n: usize)
        ensures
            n == self@.failed,
    {
        self.failed
    }

    /// Whether every download has finished.
    pub fn is_done(&self) -> (done: bool)
        ensures
            done == self@.is_done(),
    {
        proof {
            use_type_invariant(self);
        }
        self.finished == self.items.len()
    }
}

/// Starting a download that may be started keeps the batch within its
/// limit, and so does a finish: at no time are more downloads running than
/// the limit allows.
pub proof fn lemma_limit_is_kept(batch: FetchBatchView, success: bool)
    requires
        batch.well_formed(),
    ensures
        batch.can_start() ==> batch.start().well_formed() && batch.start().in_flight()
            <= batch.limit,
        batch.in_flight() > 0 ==> batch.finish(success).well_formed(),
{
}

/// A batch that is not done is never stuck: its next download can be
/// started, or a download is running and will finish.
pub proof fn lemma_batch_makes_progress(batch: FetchBatchView)
    requires
        batch.well_formed(),
        !batch.is_done(),
    ensures
        batch.can_start() || batch.in_flight() > 0,
{
}

/// A finish frees a slot: where downloads are left, the next one can be
/// started at once.
pub proof fn lemma_freed_slot_is_reused(batch: FetchBatchView, success: bool)
    requires
        batch.well_formed(),
        batch.in_flight() > 0,
        batch.started < batch.items.len(),
    ensures
        batch.finish(success).can_start(),
{
}

/// Every start and every finish brings the batch one step nearer to its
/// end; a failed download counts as any other. The batch is done exactly
/// when no step is left, so all its downloads finish in the end.
pub proof fn lemma_batch_completes(batch: FetchBatchView, success: bool)
    requires
        batch.well_formed(),
    ensures
        batch.steps_left() >= 0,
        batch.is_done() <==> batch.steps_left() == 0,
        batch.can_start() ==> batch.start().steps_left() == batch.steps_left() - 1,
        batch.in_flight() > 0 ==> batch.finish(success).steps_left() == batch.steps_left() - 1,
{
}

} // verus!
