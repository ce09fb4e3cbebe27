//! The download queue: which task runs next and what became of each.
//!
//! Running a download is done by the front end: when
//! [`DownloadManager::poll_downloads`] asks it to start a task, it runs the
//! task in the background and hands the outcome to the next poll.

use vstd::prelude::*;
use crate::config::Config;
use crate::text::{owned, push_str, string_of};
use crate::yt_dlp_progress::DownloadProgress;

verus! {

/// Where a task stands.
#[derive(Debug, Clone, PartialEq, Eq)]
pub enum DownloadStatus {
    Pending,
    InProgress { percent: u8, message: String },
    Complete,
    Failed(String),
}

/// The outcome of a download.
#[derive(Debug, Clone)]
pub struct DownloadResult {
    pub success: bool,
    pub tracks_count: usize,
    pub output_path: String,
    pub error: Option<String>,
}

/// A URL to download, with an artist and album set by hand (if any).
pub struct DownloadTask {
    pub url: String,
    pub artist: Option<String>,
    pub album: Option<String>,
    pub status: DownloadStatus,
    pub result: Option<DownloadResult>,
}

impl DownloadTask {
    /// A pending task for `url`, without artist or album.
    pub fn new(url: String) -> (r: Self)
        ensures
            r.url == url,
            r.artist is None,
            r.album is None,
            r.status == DownloadStatus::Pending,
            r.result is None,
    {
        DownloadTask { url, artist: None, album: None, status: DownloadStatus::Pending, result: None }
    }

    /// The task with an artist and album.
    pub fn with_metadata(self, artist: Option<String>, album: Option<String>) -> (r: Self)
        ensures
            r.url == self.url,
            r.artist == artist,
            r.album == album,
            r.status == self.status,
            r.result == self.result,
    {
        let mut s = self;
        s.artist = artist;
        s.album = album;
        s
    }
}

/// A task the front end is asked to run: its position, URL, artist and
/// album.
pub struct TaskStart {
    pub index: usize,
    pub url: String,
    pub artist: Option<String>,
    pub album: Option<String>,
}

/// How many tasks are pending.
pub open spec fn count_pending(t: Seq<DownloadTask>) -> nat
    decreases t.len(),
{
    if t.len() == 0 {
        0
    } else {
        count_pending(t.drop_last()) + if t.last().status is Pending { 1nat } else { 0nat }
    }
}

/// How many tasks are complete.
pub open spec fn count_complete(t: Seq<DownloadTask>) -> nat
    decreases t.len(),
{
    if t.len() == 0 {
        0
    } else {
        count_complete(t.drop_last()) + if t.last().status is Complete { 1nat } else { 0nat }
    }
}

/// How many tasks failed.
pub open spec fn count_failed(t: Seq<DownloadTask>) -> nat
    decreases t.len(),
{
    if t.len() == 0 {
        0
    } else {
        count_failed(t.drop_last()) + if t.last().status is Failed { 1nat } else { 0nat }
    }
}

/// The first pending task at or after `i`, or -1.
pub open spec fn first_pending(t: Seq<DownloadTask>, i: int) -> int
    decreases t.len() - i,
{
    if i < 0 || i >= t.len() {
        -1
    } else if t[i].status is Pending {
        i
    } else {
        first_pending(t, i + 1)
    }
}

proof fn lemma_counts_bounded(t: Seq<DownloadTask>)
    ensures
        count_complete(t) + count_failed(t) <= t.len(),
        count_pending(t) <= t.len(),
    decreases t.len(),
{
    if t.len() > 0 {
        lemma_counts_bounded(t.drop_last());
    }
}

proof fn lemma_first_pending(t: Seq<DownloadTask>, i: int)
    requires
        0 <= i,
    ensures
        first_pending(t, i) == -1 || (i <= first_pending(t, i) < t.len() && t[first_pending(
            t,
            i,
        )].status is Pending),
    decreases t.len() - i,
{
    if i < t.len() && !(t[i].status is Pending) {
        lemma_first_pending(t, i + 1);
    }
}

/// The queue of downloads.
pub struct DownloadManager {
    pub tasks: Vec<DownloadTask>,
    pub current_index: usize,
    pub config: Config,
    pub is_active: bool,
    /// The task being run, if any.
    pub processing_task_index: Option<usize>,
    /// Whether the front end is running a task.
    pub download_running: bool,
}

/// The record of a finished download in its task: complete with its
/// result, or failed with the error (and a result saying so).
pub open spec fn recorded(task: DownloadTask, new: DownloadTask, outcome: Result<DownloadResult, String>) -> bool {
    &&& new.url == task.url
    &&& new.artist == task.artist
    &&& new.album == task.album
    &&& match outcome {
        Ok(res) => new.status == DownloadStatus::Complete && new.result == Some(res),
        Err(e) => new.status is Failed && new.status->Failed_0@ == e@ && match new.result {
            Some(r) => !r.success && r.tracks_count == 0 && r.output_path@ == Seq::<char>::empty()
                && r.error is Some && r.error->0@ == e@,
            None => false,
        },
    }
}

/// How the queue moves along: from `before` to `after`, given the outcome `finished` of the task being run, answering `r`.
pub open spec fn polled(before: DownloadManager, finished: Option<Result<DownloadResult, String>>, after: DownloadManager, r: (bool, Option<TaskStart>)) -> bool {
    &&& after.wf()
    &&& after.config == before.config
    &&& !before.is_active ==> after == before && r.0 == false && r.1 is None
    &&& before.is_active && before.download_running && finished is None ==> after
                    == before && r.0 == true && r.1 is None
    &&& before.is_active && (!before.download_running || finished is Some) && before.download_running && before.processing_task_index is Some ==> {
                    let i = before.processing_task_index->0 as int;
                    &&& after.tasks@.len() == before.tasks@.len()
                    &&& recorded(before.tasks@[i], after.tasks@[i], finished->0)
                }
    &&& before.is_active && (!before.download_running || finished is Some) ==> after.tasks@.len() == before.tasks@.len()
    &&& before.is_active && (!before.download_running || finished is Some) ==> {
                    let running = if before.download_running { before.processing_task_index } else { None };
                    forall|j: int|
                        0 <= j < before.tasks@.len() && Some(j as usize) != running && match r.1 {
                            Some(start) => j != start.index,
                            None => true,
                        } ==> #[trigger] after.tasks@[j] == before.tasks@[j]
                }
    &&& before.is_active && (!before.download_running || finished is Some) ==> match r.1 {
                    Some(start) => forall|j: int|
                        0 <= j < start.index ==> !((#[trigger] after.tasks@[j]).status is Pending),
                    None => forall|j: int|
                        0 <= j < after.tasks@.len() ==> !((#[trigger] after.tasks@[j]).status is Pending),
                }
    &&& before.is_active && (!before.download_running || finished is Some) ==> match r.1 {
                    Some(start) => {
                        let running = if before.download_running { before.processing_task_index } else { None };
                        &&& r.0
                        &&& after.is_active
                        &&& after.download_running
                        &&& after.processing_task_index == Some(start.index)
                        &&& after.current_index == start.index
                        &&& start.index < after.tasks@.len()
                        &&& after.tasks@[start.index as int].status == (DownloadStatus::InProgress {
                            percent: 0,
                            message: after.tasks@[start.index as int].status->message,
                        })
                        &&& after.tasks@[start.index as int].status->message@ == "Starting..."@
                        &&& start.url@ == after.tasks@[start.index as int].url@
                        &&& after.tasks@[start.index as int].url == before.tasks@[start.index as int].url
                        &&& after.tasks@[start.index as int].artist == before.tasks@[start.index as int].artist
                        &&& after.tasks@[start.index as int].album == before.tasks@[start.index as int].album
                        &&& Some(start.index) != running ==> before.tasks@[start.index as int].status is Pending
                    },
                    None => !r.0 && !after.is_active && !after.download_running,
                }
}

/// The whole percents of a progress, as a byte (at most 255).
pub open spec fn shown_percent(p: DownloadProgress) -> u8 {
    let w = p.percentage / 1000;
    if w > 255 {
        255
    } else {
        w as u8
    }
}

/// The line shown for a progress: the downloaded size, the speed and the
/// time left, or the size alone when the speed is unknown.
pub open spec fn progress_message_spec(p: DownloadProgress) -> Seq<char> {
    if p.speed@.len() == 0 {
        p.downloaded@
    } else {
        p.downloaded@ + " | "@ + p.speed@ + " | ETA: "@ + p.eta@
    }
}

/// The progress to show for a step of the background task (`percent`,
/// with `message` in place of the size): it replaces the progress shown
/// only while yt-dlp has reported none, or less than 1 %; otherwise
/// `None`, and yt-dlp's own progress stays.
pub fn manual_progress(current: Option<&DownloadProgress>, percent: u8, message: &str) -> (r: Option<DownloadProgress>)
    ensures
        match r {
            Some(p) => (current matches Some(c) ==> c.percentage < 1000) && p.percentage == percent as u64 * 1000
                && p.downloaded@ == message@ && p.total@.len() == 0 && p.speed@.len() == 0 && p.eta@.len() == 0,
            None => current matches Some(c) && c.percentage >= 1000,
        },
{
    match current {
        Some(c) => if c.percentage >= 1000 {
            return None;
        },
        None => {},
    }
    Some(DownloadProgress {
        percentage: percent as u64 * 1000,
        downloaded: owned(message),
        total: String::new(),
        speed: String::new(),
        eta: String::new(),
    })
}

impl DownloadManager {
    /// The task being run exists.
    pub open spec fn wf(&self) -> bool {
        match self.processing_task_index {
            Some(i) => i < self.tasks@.len(),
            None => true,
        }
    }

    /// An empty, inactive queue.
    pub fn new(config: Config) -> (r: Self)
        ensures
            r.wf(),
            r.tasks@.len() == 0,
            r.current_index == 0,
            r.config == config,
            !r.is_active,
            r.processing_task_index is None,
            !r.download_running,
    {
        DownloadManager {
            tasks: Vec::new(),
            current_index: 0,
            config,
            is_active: false,
            processing_task_index: None,
            download_running: false,
        }
    }

    /// Queues a URL with an artist and album.
    pub fn add_url(&mut self, url: String, artist: Option<String>, album: Option<String>)
        requires
            old(self).wf(),
        ensures
            final(self).wf(),
            final(self).tasks@.len() == old(self).tasks@.len() + 1,
            final(self).tasks@.drop_last() == old(self).tasks@,
            final(self).tasks@.last().url == url,
            final(self).tasks@.last().artist == artist,
            final(self).tasks@.last().album == album,
            final(self).tasks@.last().status == DownloadStatus::Pending,
            final(self).tasks@.last().result is None,
            final(self).is_active == old(self).is_active,
            final(self).processing_task_index == old(self).processing_task_index,
            final(self).download_running == old(self).download_running,
            final(self).current_index == old(self).current_index,
            final(self).config == old(self).config,
    {
        self.tasks.push(DownloadTask::new(url).with_metadata(artist, album));
        assert(self.tasks@.drop_last() =~= old(self).tasks@);
    }

    /// Queues the URLs of a playlist, in order, without artist or album.
    pub fn add_playlist_urls(&mut self, urls: Vec<String>)
        requires
            old(self).wf(),
        ensures
            final(self).wf(),
            final(self).tasks@.len() == old(self).tasks@.len() + urls@.len(),
            final(self).tasks@.take(old(self).tasks@.len() as int) == old(self).tasks@,
            forall|i: int|
                0 <= i < urls@.len() ==> {
                    let t = #[trigger] final(self).tasks@[old(self).tasks@.len() + i];
                    t.url@ == urls@[i]@ && t.artist is None && t.album is None && t.status
                        == DownloadStatus::Pending && t.result is None
                },
            final(self).is_active == old(self).is_active,
            final(self).processing_task_index == old(self).processing_task_index,
            final(self).download_running == old(self).download_running,
            final(self).current_index == old(self).current_index,
            final(self).config == old(self).config,
    {
        let n0 = self.tasks.len();
        let mut i: usize = 0;
        while i < urls.len()
            invariant
                i <= urls@.len(),
                n0 == old(self).tasks@.len(),
                self.tasks@.len() == n0 + i,
                self.tasks@.take(n0 as int) == old(self).tasks@,
                forall|j: int|
                    0 <= j < i ==> {
                        let t = #[trigger] self.tasks@[n0 + j];
                        t.url@ == urls@[j]@ && t.artist is None && t.album is None && t.status
                            == DownloadStatus::Pending && t.result is None
                    },
                self.is_active == old(self).is_active,
                self.processing_task_index == old(self).processing_task_index,
                self.download_running == old(self).download_running,
                self.current_index == old(self).current_index,
                self.config == old(self).config,
                self.wf(),
            decreases urls@.len() - i,
        {
            self.tasks.push(DownloadTask::new(owned(urls[i].as_str())));
            assert(self.tasks@.take(n0 as int) =~= old(self).tasks@);
            i = i + 1;
        }
    }

    /// How many tasks are pending.
    pub fn pending_count(&self) -> (r: usize)
        ensures
            r == count_pending(self.tasks@),
    {
        let mut n: usize = 0;
        let mut i: usize = 0;
        while i < self.tasks.len()
            invariant
                i <= self.tasks@.len(),
                n == count_pending(self.tasks@.take(i as int)),
                n <= i,
            decreases self.tasks@.len() - i,
        {
            assert(self.tasks@.take(i + 1).drop_last() =~= self.tasks@.take(i as int));
            match self.tasks[i].status {
                DownloadStatus::Pending => {
                    n = n + 1;
                },
                _ => {},
            }
            i = i + 1;
        }
        assert(self.tasks@.take(i as int) =~= self.tasks@);
        n
    }

    /// How many tasks are complete.
    pub fn completed_count(&self) -> (r: usize)
        ensures
            r == count_complete(self.tasks@),
    {
        let mut n: usize = 0;
        let mut i: usize = 0;
        while i < self.tasks.len()
            invariant
                i <= self.tasks@.len(),
                n == count_complete(self.tasks@.take(i as int)),
                n <= i,
            decreases self.tasks@.len() - i,
        {
            assert(self.tasks@.take(i + 1).drop_last() =~= self.tasks@.take(i as int));
            match self.tasks[i].status {
                DownloadStatus::Complete => {
                    n = n + 1;
                },
                _ => {},
            }
            i = i + 1;
        }
        assert(self.tasks@.take(i as int) =~= self.tasks@);
        n
    }

    /// How many tasks failed.
    pub fn failed_count(&self) -> (r: usize)
        ensures
            r == count_failed(self.tasks@),
    {
        let mut n: usize = 0;
        let mut i: usize = 0;
        while i < self.tasks.len()
            invariant
                i <= self.tasks@.len(),
                n == count_failed(self.tasks@.take(i as int)),
                n <= i,
            decreases self.tasks@.len() - i,
        {
            assert(self.tasks@.take(i + 1).drop_last() =~= self.tasks@.take(i as int));
            match self.tasks[i].status {
                DownloadStatus::Failed(_) => {
                    n = n + 1;
                },
                _ => {},
            }
            i = i + 1;
        }
        assert(self.tasks@.take(i as int) =~= self.tasks@);
        n
    }

    /// The tasks.
    pub fn tasks(&self) -> (r: &Vec<DownloadTask>)
        ensures
            *r == self.tasks,
    {
        &self.tasks
    }

    /// The percentage of the download in progress, from the progress the
    /// download reported last (if any): see [`shown_percent`].
    pub fn current_progress(&self, shared: Option<&DownloadProgress>) -> (r: Option<u8>)
        ensures
            r == match shared {
                Some(p) => Some(shown_percent(*p)),
                None => None,
            },
    {
        match shared {
            Some(p) => {
                let w = p.percentage / 1000;
                Some(if w > 255 { 255u8 } else { w as u8 })
            },
            None => None,
        }
    }

    /// The message of the download in progress, from the progress the
    /// download reported last (if any): see [`progress_message_spec`].
    pub fn current_progress_message(&self, shared: Option<&DownloadProgress>) -> (r: Option<String>)
        ensures
            match shared {
                Some(p) => r matches Some(m) && m@ == progress_message_spec(*p),
                None => r is None,
            },
    {
        match shared {
            Some(p) => {
                if p.speed.as_str().is_empty() {
                    Some(owned(p.downloaded.as_str()))
                } else {
                    let mut out: Vec<char> = Vec::new();
                    push_str(&mut out, p.downloaded.as_str());
                    push_str(&mut out, " | ");
                    push_str(&mut out, p.speed.as_str());
                    push_str(&mut out, " | ETA: ");
                    push_str(&mut out, p.eta.as_str());
                    Some(string_of(&out))
                }
            },
            None => None,
        }
    }

    /// Whether the queue is being worked through.
    pub fn is_active(&self) -> (r: bool)
        ensures
            r == self.is_active,
    {
        self.is_active
    }

    /// Whether a task is being run.
    pub fn is_downloading(&self) -> (r: bool)
        ensures
            r == self.download_running,
    {
        self.download_running
    }

    /// The position of the last task started.
    pub fn current_index(&self) -> (r: usize)
        ensures
            r == self.current_index,
    {
        self.current_index
    }

    /// Starts working through the queue from its beginning.
    pub fn start(&mut self)
        requires
            old(self).wf(),
        ensures
            final(self).wf(),
            *final(self) == (DownloadManager { is_active: true, current_index: 0, ..*old(self) }),
    {
        self.is_active = true;
        self.current_index = 0;
    }

    /// Stops working through the queue and forgets the task being run.
    pub fn stop(&mut self)
        ensures
            final(self).wf(),
            *final(self) == (DownloadManager {
                is_active: false,
                download_running: false,
                processing_task_index: None,
                ..*old(self)
            }),
    {
        self.is_active = false;
        self.download_running = false;
        self.processing_task_index = None;
    }

    /// Empties the queue and stops.
    pub fn reset(&mut self)
        ensures
            final(self).wf(),
            final(self).tasks@.len() == 0,
            final(self).current_index == 0,
            !final(self).is_active,
            !final(self).download_running,
            final(self).processing_task_index is None,
            final(self).config == old(self).config,
    {
        self.tasks = Vec::new();
        self.current_index = 0;
        self.is_active = false;
        self.download_running = false;
        self.processing_task_index = None;
    }

    /// The share of tasks that have ended (complete or failed), in whole
    /// percent; 0 for an empty queue.
    pub fn overall_percent(&self) -> (r: u8)
        ensures
            r == (if self.tasks@.len() == 0 {
                0
            } else {
                (count_complete(self.tasks@) + count_failed(self.tasks@)) * 100 / self.tasks@.len()
            }),
    {
        if self.tasks.len() == 0 {
            return 0;
        }
        proof {
            lemma_counts_bounded(self.tasks@);
        }
        let total = self.tasks.len() as u128;
        let done = self.completed_count() as u128 + self.failed_count() as u128;
        assert(done * 100 <= total * 100);
        let p = done * 100 / total;
        assert(p <= 100) by (nonlinear_arith)
            requires
                p == (done * 100) as int / total as int,
                done <= total,
                total > 0,
        {
        }
        p as u8
    }

    /// Moves the queue along. An outcome handed in for the task being run
    /// is recorded in it (see [`recorded`]); while a task runs with no
    /// outcome yet, nothing changes. Then the first pending task, if any,
    /// is marked as starting and handed back to be run; with none left the
    /// queue stops. Returns whether work remains, and the task to start.
    pub fn poll_downloads(&mut self, finished: Option<Result<DownloadResult, String>>) -> (r: (bool, Option<TaskStart>))
        requires
            old(self).wf(),
        ensures
            polled(*old(self), finished, *final(self), r),
    {
        if !self.is_active {
            return (false, None);
        }
        if self.download_running {
            match finished {
                Some(outcome) => {
                    match self.processing_task_index {
                        Some(idx) => {
                            let mut task = self.tasks.remove(idx);
                            match outcome {
                                Ok(res) => {
                                    task.status = DownloadStatus::Complete;
                                    task.result = Some(res);
                                },
                                Err(e) => {
                                    task.status = DownloadStatus::Failed(e.clone());
                                    task.result = Some(
                                        DownloadResult {
                                            success: false,
                                            tracks_count: 0,
                                            output_path: String::new(),
                                            error: Some(e),
                                        },
                                    );
                                },
                            }
                            self.tasks.insert(idx, task);
                        },
                        None => {},
                    }
                    self.processing_task_index = None;
                    self.download_running = false;
                },
                None => {
                    return (true, None);
                },
            }
        }
        let mut i: usize = 0;
        let mut found: Option<usize> = None;
        let ghost snap = *self;
        while i < self.tasks.len()
            invariant_except_break
                found is None,
            invariant
                *self == snap,
                i <= self.tasks@.len(),
                forall|j: int| 0 <= j < i ==> !(self.tasks@[j].status is Pending),
            ensures
                match found {
                    Some(k) => k < self.tasks@.len() && self.tasks@[k as int].status is Pending && k == i
                        && forall|j: int| 0 <= j < k ==> !(self.tasks@[j].status is Pending),
                    None => forall|j: int| 0 <= j < self.tasks@.len() ==> !(self.tasks@[j].status is Pending),
                },
            decreases self.tasks@.len() - i,
        {
            let pending = match self.tasks[i].status {
                DownloadStatus::Pending => true,
                _ => false,
            };
            if pending {
                found = Some(i);
                break;
            }
            i = i + 1;
        }
        match found {
            None => {
                self.is_active = false;
                (false, None)
            },
            Some(idx) => {
                self.current_index = idx;
                self.processing_task_index = Some(idx);
                let mut task = self.tasks.remove(idx);
                task.status = DownloadStatus::InProgress { percent: 0, message: owned("Starting...") };
                let start = TaskStart {
                    index: idx,
                    url: owned(task.url.as_str()),
                    artist: match &task.artist {
                        Some(a) => Some(owned(a.as_str())),
                        None => None,
                    },
                    album: match &task.album {
                        Some(a) => Some(owned(a.as_str())),
                        None => None,
                    },
                };
                self.tasks.insert(idx, task);
                assert(forall|j: int| 0 <= j < idx ==> #[trigger] self.tasks@[j] == snap.tasks@[j]);
                self.download_running = true;
                (true, Some(start))
            },
        }
    }
}

} // verus!
