//! Playlist jobs: once the tracks of a playlist are downloaded, the playlist is rebuilt on the
//! media server.
use vstd::prelude::*;
use vstd::string::*;

use crate::deemix::outcome;
use crate::http::{given, pairs};
use crate::mediaserver::{label_of, MediaServer};
use crate::text::{cat2, cat3, cat5, clip, clipped, contained_parts_stay, contains, decimal, same};
use crate::text::{parts_are_contained, texts, texts_contain_themselves, write_decimal};

verus! {

// ---- Jobs ----------------------------------------------------------------------------------

/// A track of a playlist. The key is that of its download in the queue of deemix; it is empty
/// where there is no download to wait for.
#[derive(Clone, Debug, PartialEq)]
pub struct JobTrack<S = String> {
    pub title: S,
    pub artist: S,
    pub uuid: S,
}

/// A track of a playlist.
pub type JobTrackV = JobTrack<Seq<char>>;

impl View for JobTrack {
    type V = JobTrackV;

    open spec fn view(&self) -> JobTrackV {
        JobTrack { title: self.title@, artist: self.artist@, uuid: self.uuid@ }
    }
}

/// The tracks of a list, in order.
pub open spec fn tracks_of(list: Seq<JobTrack>) -> Seq<JobTrackV> {
    list.map_values(|t: JobTrack| t@)
}

/// A playlist that is to be rebuilt once its tracks are downloaded.
#[derive(Clone, Debug, PartialEq)]
pub struct PlaylistJob {
    pub id: String,
    pub chat_id: i64,
    pub name: String,
    pub tracks: Vec<JobTrack>,
}

/// A playlist that is to be rebuilt once its tracks are downloaded.
pub ghost struct PlaylistJobV {
    pub id: Seq<char>,
    pub chat_id: i64,
    pub name: Seq<char>,
    pub tracks: Seq<JobTrackV>,
}

impl View for PlaylistJob {
    type V = PlaylistJobV;

    open spec fn view(&self) -> PlaylistJobV {
        PlaylistJobV {
            id: self.id@,
            chat_id: self.chat_id,
            name: self.name@,
            tracks: tracks_of(self.tracks@),
        }
    }
}

impl JobTrack {
    fn copy(&self) -> (r: JobTrack)
        ensures
            r@ == self@,
    {
        JobTrack {
            title: self.title.clone(),
            artist: self.artist.clone(),
            uuid: self.uuid.clone(),
        }
    }
}

impl PlaylistJob {
    fn copy(&self) -> (r: PlaylistJob)
        ensures
            r@ == self@,
    {
        let mut tracks: Vec<JobTrack> = Vec::new();
        let mut i: usize = 0;
        while i < self.tracks.len()
            invariant
                i <= self.tracks@.len(),
                tracks@.len() == i,
                forall|k: int| 0 <= k < i ==> (#[trigger] tracks@[k])@ == self.tracks@[k]@,
            decreases self.tracks@.len() - i,
        {
            tracks.push(self.tracks[i].copy());
            i = i + 1;
        }
        assert(tracks_of(tracks@) =~= tracks_of(self.tracks@));
        PlaylistJob { id: self.id.clone(), chat_id: self.chat_id, name: self.name.clone(), tracks }
    }
}

// ---- The store -----------------------------------------------------------------------------

/// The jobs that are not finished, in the order in which they came.
pub struct Jobs {
    entries: Vec<PlaylistJob>,
}

/// The jobs of a list, in order.
pub open spec fn jobs_of(list: Seq<PlaylistJob>) -> Seq<PlaylistJobV> {
    list.map_values(|j: PlaylistJob| j@)
}

impl View for Jobs {
    type V = Seq<PlaylistJobV>;

    closed spec fn view(&self) -> Seq<PlaylistJobV> {
        jobs_of(self.entries@)
    }
}

/// The jobs but for those of the given identifier, in order.
pub open spec fn without(jobs: Seq<PlaylistJobV>, id: Seq<char>) -> Seq<PlaylistJobV>
    decreases jobs.len(),
{
    if jobs.len() == 0 {
        Seq::empty()
    } else if jobs.last().id == id {
        without(jobs.drop_last(), id)
    } else {
        without(jobs.drop_last(), id).push(jobs.last())
    }
}

impl Jobs {
    /// No jobs.
    pub fn new() -> (r: Jobs)
        ensures
            r@ == Seq::<PlaylistJobV>::empty(),
    {
        let r = Jobs { entries: Vec::new() };
        assert(r@ =~= Seq::empty());
        r
    }

    /// Keeps a job until it is removed.
    pub fn add(&mut self, job: PlaylistJob)
        ensures
            final(self)@ == old(self)@.push(job@),
    {
        let ghost before = self.entries@;
        self.entries.push(job);
        assert(self@ =~= jobs_of(before).push(job@));
    }

    /// Forgets the job of an identifier.
    pub fn remove(&mut self, job_id: &str)
        ensures
            final(self)@ == without(old(self)@, job_id@),
    {
        let ghost all = self@;
        let mut kept: Vec<PlaylistJob> = Vec::new();
        let mut i: usize = 0;
        assert(jobs_of(kept@) =~= Seq::empty());
        while i < self.entries.len()
            invariant
                i <= self.entries@.len(),
                all == jobs_of(self.entries@),
                jobs_of(kept@) == without(all.take(i as int), job_id@),
            decreases self.entries@.len() - i,
        {
            assert(all.take(i + 1).drop_last() =~= all.take(i as int));
            assert(all.take(i + 1).last() == self.entries@[i as int]@);
            if !same(self.entries[i].id.as_str(), job_id) {
                let ghost before = kept@;
                let job = self.entries[i].copy();
                kept.push(job);
                assert(jobs_of(kept@) =~= jobs_of(before).push(job@));
            }
            i = i + 1;
        }
        assert(all.take(i as int) =~= all);
        self.entries = kept;
    }

    /// How many jobs there are.
    pub fn len(&self) -> (r: usize)
        ensures
            r == self@.len(),
    {
        self.entries.len()
    }

    /// All jobs, to be taken up again after a restart or to be written down.
    pub fn resume_all(&self) -> (r: Vec<PlaylistJob>)
        ensures
            jobs_of(r@) == self@,
    {
        let mut out: Vec<PlaylistJob> = Vec::new();
        let mut i: usize = 0;
        while i < self.entries.len()
            invariant
                i <= self.entries@.len(),
                out@.len() == i,
                forall|k: int| 0 <= k < i ==> (#[trigger] out@[k])@ == self.entries@[k]@,
            decreases self.entries@.len() - i,
        {
            out.push(self.entries[i].copy());
            i = i + 1;
        }
        assert(jobs_of(out@) =~= self@);
        out
    }
}

/// A removed job is gone, and every other job stays.
pub proof fn removed_jobs_are_gone(jobs: Seq<PlaylistJobV>, id: Seq<char>)
    ensures
        forall|job: PlaylistJobV| #[trigger]
            without(jobs, id).contains(job) <==> jobs.contains(job) && job.id != id,
    decreases jobs.len(),
{
    let kept = without(jobs, id);
    if jobs.len() > 0 {
        let shorter = jobs.drop_last();
        let rest = without(shorter, id);
        removed_jobs_are_gone(shorter, id);
        assert forall|job: PlaylistJobV| #[trigger] kept.contains(job) <==> jobs.contains(job)
            && job.id != id by {
            if kept.contains(job) {
                let k = choose|k: int| 0 <= k < kept.len() && kept[k] == job;
                if k < rest.len() {
                    assert(rest[k] == job);
                    assert(rest.contains(job));
                    let m = choose|m: int| 0 <= m < shorter.len() && shorter[m] == job;
                    assert(jobs[m] == job);
                } else {
                    assert(jobs[jobs.len() - 1] == job);
                }
            }
            if jobs.contains(job) && job.id != id {
                let m = choose|m: int| 0 <= m < jobs.len() && jobs[m] == job;
                if m < shorter.len() {
                    assert(shorter[m] == job);
                    assert(rest.contains(job));
                    let k = choose|k: int| 0 <= k < rest.len() && rest[k] == job;
                    assert(kept[k] == job);
                } else {
                    assert(kept[rest.len() as int] == job);
                }
            }
        }
    }
}

/// A job that is added and removed again leaves no trace.
pub proof fn finished_jobs_leave_no_trace(jobs: Seq<PlaylistJobV>, job: PlaylistJobV)
    requires
        forall|i: int| 0 <= i < jobs.len() ==> (#[trigger] jobs[i]).id != job.id,
    ensures
        without(jobs.push(job), job.id) == jobs,
    decreases jobs.len(),
{
    let more = jobs.push(job);
    assert(more.drop_last() =~= jobs);
    assert(without(more, job.id) == without(jobs, job.id));
    if jobs.len() == 0 {
        assert(without(jobs, job.id) =~= jobs);
    } else {
        let shorter = jobs.drop_last();
        assert forall|i: int| 0 <= i < shorter.len() implies (#[trigger] shorter[i]).id
            != job.id by {
            assert(shorter[i] == jobs[i]);
        }
        finished_jobs_leave_no_trace(shorter, job);
        assert(shorter.push(job).drop_last() =~= shorter);
        assert(without(shorter, job.id) == shorter);
        assert(jobs[jobs.len() - 1] == jobs.last());
        assert(without(jobs, job.id) =~= jobs);
    }
}

// ---- Downloads -----------------------------------------------------------------------------

/// The status that is reported of a download.
pub open spec fn status_in(statuses: Seq<(Seq<char>, Seq<char>)>, uuid: Seq<char>) -> Option<
    Seq<char>,
>
    decreases statuses.len(),
{
    if statuses.len() == 0 {
        None
    } else if statuses.last().0 == uuid {
        Some(statuses.last().1)
    } else {
        status_in(statuses.drop_last(), uuid)
    }
}

fn find_status<'a>(statuses: &'a Vec<(String, String)>, uuid: &str) -> (r: Option<&'a String>)
    ensures
        match r {
            Some(s) => status_in(pairs(statuses@), uuid@) == Some(s@),
            None => status_in(pairs(statuses@), uuid@) is None,
        },
{
    let ghost all = pairs(statuses@);
    let mut i: usize = statuses.len();
    assert(all.take(i as int) =~= all);
    while i > 0
        invariant
            i <= statuses@.len(),
            all == pairs(statuses@),
            status_in(all, uuid@) == status_in(all.take(i as int), uuid@),
        decreases i,
    {
        assert(all.take(i as int).drop_last() =~= all.take(i - 1));
        assert(all.take(i as int).last() == (statuses@[i - 1].0@, statuses@[i - 1].1@));
        i = i - 1;
        if same(statuses[i].0.as_str(), uuid) {
            return Some(&statuses[i].1);
        }
    }
    None
}

/// The download of the track is still to come or going on.
pub open spec fn is_pending(t: JobTrackV, statuses: Seq<(Seq<char>, Seq<char>)>) -> bool {
    &&& t.uuid.len() > 0
    &&& status_in(statuses, t.uuid) == Some("inQueue"@) || status_in(statuses, t.uuid) == Some(
        "downloading"@,
    )
}

/// The download of the track has failed. One that is missing from the queue counts as done.
pub open spec fn has_failed(t: JobTrackV, statuses: Seq<(Seq<char>, Seq<char>)>) -> bool {
    status_in(statuses, t.uuid) == Some("failed"@)
}

/// The number of tracks with a download to wait for.
pub open spec fn awaited(tracks: Seq<JobTrackV>) -> nat
    decreases tracks.len(),
{
    if tracks.len() == 0 {
        0
    } else if tracks.last().uuid.len() > 0 {
        awaited(tracks.drop_last()) + 1
    } else {
        awaited(tracks.drop_last())
    }
}

/// The number of tracks whose download is still to come or going on.
pub open spec fn pending(tracks: Seq<JobTrackV>, statuses: Seq<(Seq<char>, Seq<char>)>) -> nat
    decreases tracks.len(),
{
    if tracks.len() == 0 {
        0
    } else if is_pending(tracks.last(), statuses) {
        pending(tracks.drop_last(), statuses) + 1
    } else {
        pending(tracks.drop_last(), statuses)
    }
}

/// The tracks whose download has failed, or those whose download has not, in order.
pub open spec fn part(
    tracks: Seq<JobTrackV>,
    statuses: Seq<(Seq<char>, Seq<char>)>,
    failed: bool,
) -> Seq<JobTrackV>
    decreases tracks.len(),
{
    if tracks.len() == 0 {
        Seq::empty()
    } else if has_failed(tracks.last(), statuses) == failed {
        part(tracks.drop_last(), statuses, failed).push(tracks.last())
    } else {
        part(tracks.drop_last(), statuses, failed)
    }
}

fn count_awaited(tracks: &Vec<JobTrack>) -> (r: usize)
    ensures
        r == awaited(tracks_of(tracks@)),
{
    let ghost all = tracks_of(tracks@);
    let mut n: usize = 0;
    let mut i: usize = 0;
    while i < tracks.len()
        invariant
            n <= i <= tracks@.len(),
            all == tracks_of(tracks@),
            n == awaited(all.take(i as int)),
        decreases tracks@.len() - i,
    {
        assert(all.take(i + 1).drop_last() =~= all.take(i as int));
        assert(all.take(i + 1).last() == tracks@[i as int]@);
        if !tracks[i].uuid.as_str().is_empty() {
            n = n + 1;
        }
        i = i + 1;
    }
    assert(all.take(i as int) =~= all);
    n
}

fn count_pending(tracks: &Vec<JobTrack>, statuses: &Vec<(String, String)>) -> (r: usize)
    ensures
        r == pending(tracks_of(tracks@), pairs(statuses@)),
{
    let ghost all = tracks_of(tracks@);
    let mut n: usize = 0;
    let mut i: usize = 0;
    while i < tracks.len()
        invariant
            n <= i <= tracks@.len(),
            all == tracks_of(tracks@),
            n == pending(all.take(i as int), pairs(statuses@)),
        decreases tracks@.len() - i,
    {
        assert(all.take(i + 1).drop_last() =~= all.take(i as int));
        assert(all.take(i + 1).last() == tracks@[i as int]@);
        if !tracks[i].uuid.as_str().is_empty() {
            match find_status(statuses, tracks[i].uuid.as_str()) {
                Some(s) => {
                    if same(s.as_str(), "inQueue") || same(s.as_str(), "downloading") {
                        n = n + 1;
                    }
                },
                None => {},
            }
        }
        i = i + 1;
    }
    assert(all.take(i as int) =~= all);
    n
}

fn tracks_that(
    tracks: &Vec<JobTrack>,
    statuses: &Vec<(String, String)>,
    failed: bool,
) -> (r: Vec<JobTrack>)
    ensures
        tracks_of(r@) == part(tracks_of(tracks@), pairs(statuses@), failed),
{
    let ghost all = tracks_of(tracks@);
    let mut out: Vec<JobTrack> = Vec::new();
    let mut i: usize = 0;
    assert(tracks_of(out@) =~= Seq::empty());
    while i < tracks.len()
        invariant
            i <= tracks@.len(),
            all == tracks_of(tracks@),
            tracks_of(out@) == part(all.take(i as int), pairs(statuses@), failed),
        decreases tracks@.len() - i,
    {
        assert(all.take(i + 1).drop_last() =~= all.take(i as int));
        assert(all.take(i + 1).last() == tracks@[i as int]@);
        let fails = match find_status(statuses, tracks[i].uuid.as_str()) {
            Some(s) => same(s.as_str(), "failed"),
            None => false,
        };
        if fails == failed {
            let ghost before = out@;
            let t = tracks[i].copy();
            out.push(t);
            assert(tracks_of(out@) =~= tracks_of(before).push(t@));
        }
        i = i + 1;
    }
    assert(all.take(i as int) =~= all);
    out
}

/// Every track is on one side of the partition, and on the right one.
pub proof fn failed_downloads_are_set_apart(
    tracks: Seq<JobTrackV>,
    statuses: Seq<(Seq<char>, Seq<char>)>,
)
    ensures
        part(tracks, statuses, true).len() + part(tracks, statuses, false).len() == tracks.len(),
        forall|i: int|
            0 <= i < part(tracks, statuses, false).len() ==> tracks.contains(
                #[trigger] part(tracks, statuses, false)[i],
            ) && !has_failed(part(tracks, statuses, false)[i], statuses),
        forall|i: int|
            0 <= i < part(tracks, statuses, true).len() ==> tracks.contains(
                #[trigger] part(tracks, statuses, true)[i],
            ) && has_failed(part(tracks, statuses, true)[i], statuses),
    decreases tracks.len(),
{
    if tracks.len() > 0 {
        let shorter = tracks.drop_last();
        failed_downloads_are_set_apart(shorter, statuses);
        assert forall|t: JobTrackV| shorter.contains(t) implies #[trigger] tracks.contains(t) by {
            let k = choose|k: int| 0 <= k < shorter.len() && shorter[k] == t;
            assert(tracks[k] == t);
        }
        assert(tracks.contains(tracks.last())) by {
            assert(tracks[tracks.len() - 1] == tracks.last());
        }
        assert forall|failed: bool, i: int| 0 <= i < part(tracks, statuses, failed).len() implies
            tracks.contains(#[trigger] part(tracks, statuses, failed)[i]) && has_failed(
            part(tracks, statuses, failed)[i],
            statuses,
        ) == failed by {
            let before = part(shorter, statuses, failed);
            if i < before.len() {
                assert(part(tracks, statuses, failed)[i] == before[i]);
                assert(shorter.contains(before[i]));
            }
        }
    }
}

// ---- Lists of tracks -----------------------------------------------------------------------

/// At most so many tracks are listed.
pub const LISTED: usize = 10;

/// How a track is listed: a long line is cut short.
pub open spec fn track_line(t: JobTrackV) -> Seq<char> {
    let label = if t.artist.len() == 0 {
        t.title
    } else {
        t.title + " — "@ + t.artist
    };
    "• "@ + clipped(label, 80, 79, "…"@) + "\n"@
}

/// The lines of the tracks.
pub open spec fn track_lines(tracks: Seq<JobTrackV>) -> Seq<char>
    decreases tracks.len(),
{
    if tracks.len() == 0 {
        Seq::empty()
    } else {
        track_lines(tracks.drop_last()) + track_line(tracks.last())
    }
}

/// The list of the tracks: the first ones, and how many more there are.
pub open spec fn track_list(tracks: Seq<JobTrackV>) -> Seq<char> {
    if tracks.len() > LISTED {
        track_lines(tracks.take(LISTED as int)) + ("…and "@ + decimal(
            (tracks.len() - LISTED) as nat,
        ) + " more\n"@)
    } else {
        track_lines(tracks)
    }
}

fn write_track(t: &JobTrack) -> (r: String)
    ensures
        r@ == track_line(t@),
{
    let label = if t.artist.as_str().is_empty() {
        t.title.clone()
    } else {
        cat3(t.title.as_str(), " — ", t.artist.as_str())
    };
    cat3("• ", clip(label.as_str(), 80, 79, "…").as_str(), "\n")
}

/// Writes the list of the tracks behind a text.
pub fn push_track_list(text: &mut String, tracks: &Vec<JobTrack>)
    ensures
        final(text)@ == old(text)@ + track_list(tracks_of(tracks@)),
{
    let ghost all = tracks_of(tracks@);
    let ghost start = text@;
    let shown: usize = if tracks.len() > LISTED {
        LISTED
    } else {
        tracks.len()
    };
    let mut i: usize = 0;
    assert(text@ =~= start + track_lines(all.take(0)));
    while i < shown
        invariant
            i <= shown <= tracks@.len(),
            all == tracks_of(tracks@),
            text@ == start + track_lines(all.take(i as int)),
        decreases shown - i,
    {
        assert(all.take(i + 1).drop_last() =~= all.take(i as int));
        assert(all.take(i + 1).last() == tracks@[i as int]@);
        text.append(write_track(&tracks[i]).as_str());
        assert(text@ =~= start + track_lines(all.take(i + 1)));
        i = i + 1;
    }
    if tracks.len() > LISTED {
        let more = cat3(
            "…and ",
            write_decimal((tracks.len() - LISTED) as u64).as_str(),
            " more\n",
        );
        text.append(more.as_str());
        assert(text@ =~= start + track_list(all));
    } else {
        assert(all.take(i as int) =~= all);
    }
}

// ---- The course of a job -------------------------------------------------------------------

/// How often deemix is asked before the downloads are given up.
pub const DOWNLOAD_MAX_POLLS: u64 = 240;

/// The pause between two questions to deemix, in seconds.
pub const DOWNLOAD_POLL_INTERVAL: u64 = 30;

/// The user hears of the progress after every so many questions to deemix.
pub const PROGRESS_POLLS: u64 = 10;

/// How often a connection to the media server is tried.
pub const CONNECT_ATTEMPTS: u64 = 3;

/// The pause between two tries, in seconds.
pub const CONNECT_RETRY_INTERVAL: u64 = 300;

/// How long a scan is left alone before it is asked for, in seconds.
pub const SCAN_GRACE: u64 = 60;

/// How often a scan that is going on is waited for.
pub const SCAN_MAX_POLLS: u64 = 30;

/// The pause between two questions for the scan, in seconds.
pub const SCAN_POLL_INTERVAL: u64 = 10;

/// How often tracks are looked for in the library.
pub const MATCH_ATTEMPTS: u64 = 12;

/// The pause between two searches of the library, in seconds.
pub const MATCH_RETRY_INTERVAL: u64 = 30;

/// Where a job stands.
#[derive(Clone, Copy, Debug, PartialEq, Eq, Structural)]
pub enum Step {
    /// Deemix is asked for its queue; it has been asked so often before.
    Poll { polls: u64 },
    /// The user hears of the progress.
    Progress { polls: u64 },
    PollPause { polls: u64 },
    /// The message on the progress is taken back.
    ClearProgress,
    Connect { attempt: u64 },
    ConnectPause { attempt: u64 },
    Scan,
    ScanGrace,
    AskScan { polls: u64 },
    ScanPause { polls: u64 },
    /// One of the downloaded tracks is looked for.
    Find { attempt: u64, at: usize },
    FindPause { attempt: u64 },
    Rebuild,
    /// The user hears how it ended; the job is removed behind that.
    Report,
    /// The user hears that the server is out of reach; the job is kept.
    Unreachable,
    Remove,
    Finished,
}

/// What is to be done next for a job.
#[derive(Debug, PartialEq)]
pub enum JobAction {
    /// Ask deemix for its queue; the answer is `JobEvent::Queue`.
    AskQueue,
    /// Send the message on the progress; the answer is `JobEvent::Sent`.
    SendProgress(String),
    /// Change that message.
    EditProgress(String),
    /// Take that message back.
    DeleteProgress,
    /// Wait so many seconds.
    Sleep(u64),
    /// Connect to the media server; the answer is `JobEvent::Connected`.
    Connect,
    /// Start a scan.
    Scan,
    /// Ask whether the scan is going on; the answer is `JobEvent::Scanning`.
    AskScan,
    /// Look for a track; the answer is `JobEvent::Found`.
    Find { title: String, artist: String },
    /// Rebuild the playlist; the answer is `JobEvent::Rebuilt`.
    Rebuild { name: String, ids: Vec<String> },
    /// Send a message.
    Notify(String),
    /// Forget the job of the identifier.
    Remove(String),
    /// Nothing more is to be done.
    Finish,
}

/// What is to be done next for a job.
pub ghost enum JobActionV {
    AskQueue,
    SendProgress(Seq<char>),
    EditProgress(Seq<char>),
    DeleteProgress,
    Sleep(u64),
    Connect,
    Scan,
    AskScan,
    Find { title: Seq<char>, artist: Seq<char> },
    Rebuild { name: Seq<char>, ids: Seq<Seq<char>> },
    Notify(Seq<char>),
    Remove(Seq<char>),
    Finish,
}

impl View for JobAction {
    type V = JobActionV;

    open spec fn view(&self) -> JobActionV {
        match self {
            JobAction::AskQueue => JobActionV::AskQueue,
            JobAction::SendProgress(t) => JobActionV::SendProgress(t@),
            JobAction::EditProgress(t) => JobActionV::EditProgress(t@),
            JobAction::DeleteProgress => JobActionV::DeleteProgress,
            JobAction::Sleep(n) => JobActionV::Sleep(*n),
            JobAction::Connect => JobActionV::Connect,
            JobAction::Scan => JobActionV::Scan,
            JobAction::AskScan => JobActionV::AskScan,
            JobAction::Find { title, artist } => JobActionV::Find {
                title: title@,
                artist: artist@,
            },
            JobAction::Rebuild { name, ids } => JobActionV::Rebuild {
                name: name@,
                ids: texts(ids@),
            },
            JobAction::Notify(t) => JobActionV::Notify(t@),
            JobAction::Remove(id) => JobActionV::Remove(id@),
            JobAction::Finish => JobActionV::Finish,
        }
    }
}

/// What came of an action.
#[derive(Debug, PartialEq)]
pub enum JobEvent {
    /// The status of each download, where deemix answered.
    Queue(Option<Vec<(String, String)>>),
    /// Whether the message was sent.
    Sent(bool),
    /// Whether the server was reached.
    Connected(bool),
    /// Whether a scan is going on.
    Scanning(bool),
    /// The track in the library.
    Found(Option<String>),
    Rebuilt(Result<(), String>),
    /// It is done, whatever came of it.
    Done,
}

/// What came of an action.
pub ghost enum JobEventV {
    Queue(Option<Seq<(Seq<char>, Seq<char>)>>),
    Sent(bool),
    Connected(bool),
    Scanning(bool),
    Found(Option<Seq<char>>),
    Rebuilt(Result<(), Seq<char>>),
    Done,
}

impl View for JobEvent {
    type V = JobEventV;

    open spec fn view(&self) -> JobEventV {
        match self {
            JobEvent::Queue(Some(list)) => JobEventV::Queue(Some(pairs(list@))),
            JobEvent::Queue(None) => JobEventV::Queue(None),
            JobEvent::Sent(b) => JobEventV::Sent(*b),
            JobEvent::Connected(b) => JobEventV::Connected(*b),
            JobEvent::Scanning(b) => JobEventV::Scanning(*b),
            JobEvent::Found(id) => JobEventV::Found(given(*id)),
            JobEvent::Rebuilt(r) => JobEventV::Rebuilt(outcome(*r)),
            JobEvent::Done => JobEventV::Done,
        }
    }
}

/// A job that is being worked on.
pub struct JobRun {
    job: PlaylistJob,
    server: Option<&'static str>,
    step: Step,
    statuses: Vec<(String, String)>,
    pending: usize,
    progress: bool,
    done: Vec<JobTrack>,
    failed: Vec<JobTrack>,
    matched: Vec<Option<String>>,
    text: String,
}

/// A job that is being worked on.
pub ghost struct JobRunV {
    pub job: PlaylistJobV,
    /// The name of the media server, where there is one.
    pub server: Option<Seq<char>>,
    pub step: Step,
    /// The statuses that deemix reported last.
    pub statuses: Seq<(Seq<char>, Seq<char>)>,
    /// The number of downloads that were to be waited for then.
    pub pending: nat,
    /// A message on the progress stands in the chat.
    pub progress: bool,
    /// The tracks whose download is done.
    pub done: Seq<JobTrackV>,
    /// The tracks whose download failed.
    pub failed: Seq<JobTrackV>,
    /// The downloaded tracks as they were found in the library.
    pub matched: Seq<Option<Seq<char>>>,
    /// What the user will hear at the end.
    pub text: Seq<char>,
}

/// The texts of a list, where they are there.
pub open spec fn matches_of(list: Seq<Option<String>>) -> Seq<Option<Seq<char>>> {
    list.map_values(|m: Option<String>| given(m))
}

/// The name of a server, where there is one.
pub open spec fn name_of(server: Option<&'static str>) -> Option<Seq<char>> {
    match server {
        Some(s) => Some(s@),
        None => None,
    }
}

impl View for JobRun {
    type V = JobRunV;

    closed spec fn view(&self) -> JobRunV {
        JobRunV {
            job: self.job@,
            server: name_of(self.server),
            step: self.step,
            statuses: pairs(self.statuses@),
            pending: self.pending as nat,
            progress: self.progress,
            done: tracks_of(self.done@),
            failed: tracks_of(self.failed@),
            matched: matches_of(self.matched@),
            text: self.text@,
        }
    }
}

/// The identifiers of the tracks that were found, in the order of the tracks.
pub open spec fn found_ids(matched: Seq<Option<Seq<char>>>) -> Seq<Seq<char>>
    decreases matched.len(),
{
    if matched.len() == 0 {
        Seq::empty()
    } else {
        match matched.last() {
            Some(id) => found_ids(matched.drop_last()).push(id),
            None => found_ids(matched.drop_last()),
        }
    }
}

/// The tracks that were not found, in order.
pub open spec fn not_found(tracks: Seq<JobTrackV>, matched: Seq<Option<Seq<char>>>) -> Seq<
    JobTrackV,
>
    decreases tracks.len(),
{
    if tracks.len() == 0 || matched.len() != tracks.len() {
        Seq::empty()
    } else {
        let rest = not_found(tracks.drop_last(), matched.drop_last());
        if matched.last() is None {
            rest.push(tracks.last())
        } else {
            rest
        }
    }
}

/// The first track from a place on that is not found yet; the end of the list where there is none.
pub open spec fn next_open(matched: Seq<Option<Seq<char>>>, from: int) -> int
    decreases matched.len() - from,
{
    if from >= matched.len() || matched[from] is None {
        from
    } else {
        next_open(matched, from + 1)
    }
}

/// What the user hears of the progress.
pub open spec fn progress_text(run: JobRunV) -> Seq<char> {
    "⏳ Playlist \""@ + run.job.name + "\" — "@ + decimal(run.pending)
        + " track(s) still downloading. Next check in 30 s."@
}

/// The name of the server, as texts have it.
pub open spec fn server_name(run: JobRunV) -> Seq<char> {
    match run.server {
        Some(s) => s,
        None => Seq::empty(),
    }
}

/// What the user hears where no download succeeded.
pub open spec fn all_failed_text(run: JobRunV) -> Seq<char> {
    "😕 Playlist \""@ + run.job.name + "\": all downloads failed, nothing to rebuild in "@
        + server_name(run) + "."@
}

/// What the user hears where the server is out of reach.
pub open spec fn unreachable_text(run: JobRunV) -> Seq<char> {
    "⚠️ Playlist \""@ + run.job.name + "\" downloaded, but I couldn't reach "@ + server_name(run)
        + ".\nThe job is saved and will retry on the next bot restart."@
}

/// What the user hears where no track was found in the library.
pub open spec fn none_found_text(run: JobRunV) -> Seq<char> {
    "😕 Playlist \""@ + run.job.name
        + "\": none of the downloaded tracks showed up in the "@ + server_name(run)
        + " library, so I couldn't build the playlist."@
}

/// A part of the report that lists tracks, where there are any.
pub open spec fn listing(
    before: Seq<char>,
    behind: Seq<char>,
    tracks: Seq<JobTrackV>,
) -> Seq<char> {
    if tracks.len() == 0 {
        Seq::empty()
    } else {
        before + decimal(tracks.len()) + behind + track_list(tracks)
    }
}

/// What the user hears once the playlist was rebuilt, or could not be.
pub open spec fn report_text(run: JobRunV, result: Result<(), Seq<char>>) -> Seq<char> {
    (match result {
        Ok(()) => "🎧 Playlist \""@ + run.job.name + "\" rebuilt in "@ + server_name(run) + ": "@
            + decimal(found_ids(run.matched).len()) + "/"@ + decimal(run.job.tracks.len())
            + " tracks."@,
        Err(e) => "❌ Playlist \""@ + run.job.name + "\": failed to create the playlist in "@
            + server_name(run) + ": "@ + e,
    }) + listing("\n\n⚠️ "@, " download(s) failed:\n"@, run.failed) + listing(
        "\n\n😕 "@,
        " track(s) not found in the library:\n"@,
        not_found(run.done, run.matched),
    )
}

/// The run at another step.
pub open spec fn at_step(run: JobRunV, step: Step) -> JobRunV {
    JobRunV { step, ..run }
}

/// The run that ends with a message.
pub open spec fn ending(run: JobRunV, step: Step, text: Seq<char>) -> JobRunV {
    JobRunV { step, text, ..run }
}

/// The run once the downloads are waited for: the tracks are parted by the last statuses.
pub open spec fn after_downloads(run: JobRunV) -> JobRunV {
    let done = part(run.job.tracks, run.statuses, false);
    let failed = part(run.job.tracks, run.statuses, true);
    let parted = JobRunV { done, failed, ..run };
    if run.progress {
        at_step(parted, Step::ClearProgress)
    } else {
        after_clearing(parted)
    }
}

/// The run once nothing of the progress is left: without a server the job is removed, without a
/// single download that succeeded it is reported and removed.
pub open spec fn after_clearing(run: JobRunV) -> JobRunV {
    if run.server is None {
        at_step(run, Step::Remove)
    } else if run.done.len() == 0 {
        ending(run, Step::Report, all_failed_text(run))
    } else {
        at_step(run, Step::Connect { attempt: 0 })
    }
}

/// The run once deemix was asked in vain for the nth time.
pub open spec fn after_poll(run: JobRunV, polls: u64) -> JobRunV {
    if polls + 1 >= DOWNLOAD_MAX_POLLS {
        after_downloads(run)
    } else if (polls + 1) % (PROGRESS_POLLS as int) == 0 {
        at_step(run, Step::Progress { polls: (polls + 1) as u64 })
    } else {
        at_step(run, Step::PollPause { polls: (polls + 1) as u64 })
    }
}

/// The run once deemix told its queue.
pub open spec fn after_queue(
    run: JobRunV,
    polls: u64,
    statuses: Seq<(Seq<char>, Seq<char>)>,
) -> JobRunV {
    let pending = pending(run.job.tracks, statuses);
    let seen = JobRunV { statuses, pending, ..run };
    if pending == 0 {
        after_downloads(seen)
    } else {
        after_poll(seen, polls)
    }
}

/// The run as the library is looked at for the first time: no track is found yet.
pub open spec fn before_matching(run: JobRunV) -> JobRunV {
    JobRunV {
        matched: Seq::new(run.done.len(), |i: int| None),
        step: Step::Find { attempt: 0, at: 0 },
        ..run
    }
}

/// The run once the library was looked at often enough.
pub open spec fn after_matching(run: JobRunV) -> JobRunV {
    if found_ids(run.matched).len() == 0 {
        ending(run, Step::Report, none_found_text(run))
    } else {
        at_step(run, Step::Rebuild)
    }
}

/// The run once a track was looked for.
pub open spec fn after_find(
    run: JobRunV,
    attempt: u64,
    at: usize,
    id: Option<Seq<char>>,
) -> JobRunV {
    let seen = JobRunV { matched: run.matched.update(at as int, id), ..run };
    let next = next_open(seen.matched, at + 1);
    if next < seen.matched.len() {
        at_step(seen, Step::Find { attempt, at: next as usize })
    } else if next_open(seen.matched, 0) >= seen.matched.len() || attempt + 1 >= MATCH_ATTEMPTS {
        after_matching(seen)
    } else {
        at_step(seen, Step::FindPause { attempt: (attempt + 1) as u64 })
    }
}

/// The run of a job at its start. Where there is no download to wait for, none is waited for.
pub open spec fn started(job: PlaylistJobV, server: Option<Seq<char>>) -> JobRunV {
    let run = JobRunV {
        job,
        server,
        step: Step::Poll { polls: 0 },
        statuses: Seq::empty(),
        pending: awaited(job.tracks),
        progress: false,
        done: Seq::empty(),
        failed: Seq::empty(),
        matched: Seq::empty(),
        text: Seq::empty(),
    };
    if awaited(job.tracks) == 0 {
        after_downloads(run)
    } else {
        run
    }
}

/// What is to be done next.
pub open spec fn action_of(run: JobRunV) -> JobActionV {
    match run.step {
        Step::Poll { .. } => JobActionV::AskQueue,
        Step::Progress { .. } => if run.progress {
            JobActionV::EditProgress(progress_text(run))
        } else {
            JobActionV::SendProgress(progress_text(run))
        },
        Step::PollPause { .. } => JobActionV::Sleep(DOWNLOAD_POLL_INTERVAL),
        Step::ClearProgress => JobActionV::DeleteProgress,
        Step::Connect { .. } => JobActionV::Connect,
        Step::ConnectPause { .. } => JobActionV::Sleep(CONNECT_RETRY_INTERVAL),
        Step::Scan => JobActionV::Scan,
        Step::ScanGrace => JobActionV::Sleep(SCAN_GRACE),
        Step::AskScan { .. } => JobActionV::AskScan,
        Step::ScanPause { .. } => JobActionV::Sleep(SCAN_POLL_INTERVAL),
        Step::Find { at, .. } => JobActionV::Find {
            title: run.done[at as int].title,
            artist: run.done[at as int].artist,
        },
        Step::FindPause { .. } => JobActionV::Sleep(MATCH_RETRY_INTERVAL),
        Step::Rebuild => JobActionV::Rebuild { name: run.job.name, ids: found_ids(run.matched) },
        Step::Report => JobActionV::Notify(run.text),
        Step::Unreachable => JobActionV::Notify(run.text),
        Step::Remove => JobActionV::Remove(run.job.id),
        Step::Finished => JobActionV::Finish,
    }
}

/// The event answers the action.
pub open spec fn answers(event: JobEventV, action: JobActionV) -> bool {
    match action {
        JobActionV::AskQueue => event is Queue,
        JobActionV::SendProgress(_) => event is Sent,
        JobActionV::Connect => event is Connected,
        JobActionV::AskScan => event is Scanning,
        JobActionV::Find { .. } => event is Found,
        JobActionV::Rebuild { .. } => event is Rebuilt,
        JobActionV::Finish => false,
        _ => event is Done,
    }
}

/// The run after an event. One that does not answer the action leaves the run as it is.
pub open spec fn advanced(run: JobRunV, event: JobEventV) -> JobRunV {
    match (run.step, event) {
        (Step::Poll { polls }, JobEventV::Queue(Some(statuses))) => after_queue(
            run,
            polls,
            statuses,
        ),
        (Step::Poll { polls }, JobEventV::Queue(None)) => after_poll(run, polls),
        (Step::Progress { polls }, JobEventV::Sent(sent)) => if run.progress {
            run
        } else {
            JobRunV { progress: sent, step: Step::PollPause { polls }, ..run }
        },
        (Step::Progress { polls }, JobEventV::Done) => if run.progress {
            at_step(run, Step::PollPause { polls })
        } else {
            run
        },
        (Step::PollPause { polls }, JobEventV::Done) => at_step(run, Step::Poll { polls }),
        (Step::ClearProgress, JobEventV::Done) => after_clearing(run),
        (Step::Connect { attempt }, JobEventV::Connected(there)) => if there {
            at_step(run, Step::Scan)
        } else if attempt + 1 < CONNECT_ATTEMPTS {
            at_step(run, Step::ConnectPause { attempt: (attempt + 1) as u64 })
        } else {
            ending(run, Step::Unreachable, unreachable_text(run))
        },
        (Step::ConnectPause { attempt }, JobEventV::Done) => at_step(
            run,
            Step::Connect { attempt },
        ),
        (Step::Scan, JobEventV::Done) => at_step(run, Step::ScanGrace),
        (Step::ScanGrace, JobEventV::Done) => at_step(run, Step::AskScan { polls: 0 }),
        (Step::AskScan { polls }, JobEventV::Scanning(on)) => if on && polls < SCAN_MAX_POLLS {
            at_step(run, Step::ScanPause { polls: (polls + 1) as u64 })
        } else {
            before_matching(run)
        },
        (Step::ScanPause { polls }, JobEventV::Done) => at_step(run, Step::AskScan { polls }),
        (Step::Find { attempt, at }, JobEventV::Found(id)) => after_find(run, attempt, at, id),
        (Step::FindPause { attempt }, JobEventV::Done) => at_step(
            run,
            Step::Find { attempt, at: next_open(run.matched, 0) as usize },
        ),
        (Step::Rebuild, JobEventV::Rebuilt(result)) => ending(
            run,
            Step::Report,
            report_text(run, result),
        ),
        (Step::Report, JobEventV::Done) => at_step(run, Step::Remove),
        (Step::Unreachable, JobEventV::Done) => at_step(run, Step::Finished),
        (Step::Remove, JobEventV::Done) => at_step(run, Step::Finished),
        _ => run,
    }
}

/// The downloads are still waited for.
pub open spec fn is_waiting(step: Step) -> bool {
    step is Poll || step is Progress || step is PollPause
}

/// What holds of every run, wherever it stands.
pub open spec fn is_sound(run: JobRunV) -> bool {
    let open = next_open(run.matched, 0);
    &&& run.job.tracks.len() <= usize::MAX
    &&& !is_waiting(run.step) ==> run.done == part(run.job.tracks, run.statuses, false)
    &&& !is_waiting(run.step) ==> run.failed == part(run.job.tracks, run.statuses, true)
    &&& match run.step {
        Step::Poll { polls } => polls < DOWNLOAD_MAX_POLLS,
        Step::Progress { polls } => polls < DOWNLOAD_MAX_POLLS,
        Step::PollPause { polls } => polls < DOWNLOAD_MAX_POLLS,
        Step::ClearProgress => run.progress,
        Step::Connect { attempt } => attempt < CONNECT_ATTEMPTS && run.server is Some
            && run.done.len() > 0,
        Step::ConnectPause { attempt } => attempt < CONNECT_ATTEMPTS && run.server is Some
            && run.done.len() > 0,
        Step::Scan => run.server is Some && run.done.len() > 0,
        Step::ScanGrace => run.server is Some && run.done.len() > 0,
        Step::AskScan { polls } => polls <= SCAN_MAX_POLLS && run.server is Some && run.done.len()
            > 0,
        Step::ScanPause { polls } => polls <= SCAN_MAX_POLLS && run.server is Some
            && run.done.len() > 0,
        Step::Find { attempt, at } => attempt < MATCH_ATTEMPTS && run.server is Some
            && run.matched.len() == run.done.len() && at < run.done.len() && run.matched[
            at as int] is None,
        Step::FindPause { attempt } => attempt < MATCH_ATTEMPTS && run.server is Some
            && run.matched.len() == run.done.len() && open < run.done.len(),
        Step::Rebuild => run.server is Some && run.matched.len() == run.done.len()
            && found_ids(run.matched).len() > 0,
        _ => true,
    }
}

proof fn open_is_first(matched: Seq<Option<Seq<char>>>, from: int)
    requires
        0 <= from <= matched.len(),
    ensures
        from <= next_open(matched, from) <= matched.len(),
        next_open(matched, from) < matched.len() ==> matched[next_open(matched, from)] is None,
        forall|k: int|
            from <= k < next_open(matched, from) ==> (#[trigger] matched[k]) is Some,
    decreases matched.len() - from,
{
    if from < matched.len() && matched[from] is Some {
        open_is_first(matched, from + 1);
    }
}

fn find_open(matched: &Vec<Option<String>>, from: usize) -> (r: usize)
    requires
        from <= matched@.len(),
    ensures
        r == next_open(matches_of(matched@), from as int),
        r <= matched@.len(),
{
    let ghost all = matches_of(matched@);
    let mut i: usize = from;
    while i < matched.len() && matched[i].is_some()
        invariant
            from <= i <= matched@.len(),
            all == matches_of(matched@),
            next_open(all, from as int) == next_open(all, i as int),
        decreases matched@.len() - i,
    {
        assert(all[i as int] is Some);
        i = i + 1;
    }
    assert(i < matched@.len() ==> all[i as int] is None);
    i
}

fn collect_ids(matched: &Vec<Option<String>>) -> (r: Vec<String>)
    ensures
        texts(r@) == found_ids(matches_of(matched@)),
{
    let ghost all = matches_of(matched@);
    let mut out: Vec<String> = Vec::new();
    let mut i: usize = 0;
    assert(texts(out@) =~= Seq::empty());
    while i < matched.len()
        invariant
            i <= matched@.len(),
            all == matches_of(matched@),
            texts(out@) == found_ids(all.take(i as int)),
        decreases matched@.len() - i,
    {
        assert(all.take(i + 1).drop_last() =~= all.take(i as int));
        assert(all.take(i + 1).last() == given(matched@[i as int]));
        match &matched[i] {
            Some(id) => {
                let ghost before = out@;
                let id = id.clone();
                out.push(id);
                assert(texts(out@) =~= texts(before).push(id@));
            },
            None => {},
        }
        i = i + 1;
    }
    assert(all.take(i as int) =~= all);
    out
}

fn collect_not_found(tracks: &Vec<JobTrack>, matched: &Vec<Option<String>>) -> (r: Vec<JobTrack>)
    requires
        tracks@.len() == matched@.len(),
    ensures
        tracks_of(r@) == not_found(tracks_of(tracks@), matches_of(matched@)),
{
    let ghost all = tracks_of(tracks@);
    let ghost found = matches_of(matched@);
    let mut out: Vec<JobTrack> = Vec::new();
    let mut i: usize = 0;
    assert(tracks_of(out@) =~= Seq::empty());
    while i < tracks.len()
        invariant
            i <= tracks@.len() == matched@.len(),
            all == tracks_of(tracks@),
            found == matches_of(matched@),
            tracks_of(out@) == not_found(all.take(i as int), found.take(i as int)),
        decreases tracks@.len() - i,
    {
        assert(all.take(i + 1).drop_last() =~= all.take(i as int));
        assert(found.take(i + 1).drop_last() =~= found.take(i as int));
        assert(all.take(i + 1).last() == tracks@[i as int]@);
        assert(found.take(i + 1).last() == given(matched@[i as int]));
        if matched[i].is_none() {
            let ghost before = out@;
            let t = tracks[i].copy();
            out.push(t);
            assert(tracks_of(out@) =~= tracks_of(before).push(t@));
        }
        i = i + 1;
    }
    assert(all.take(i as int) =~= all);
    assert(found.take(i as int) =~= found);
    out
}

fn push_listing(text: &mut String, before: &str, behind: &str, tracks: &Vec<JobTrack>)
    ensures
        final(text)@ == old(text)@ + listing(before@, behind@, tracks_of(tracks@)),
{
    if tracks.len() > 0 {
        let ghost start = text@;
        let head = cat3(before, write_decimal(tracks.len() as u64).as_str(), behind);
        text.append(head.as_str());
        push_track_list(text, tracks);
        assert(text@ =~= start + listing(before@, behind@, tracks_of(tracks@)));
    } else {
        assert(text@ =~= text@ + Seq::empty());
    }
}

impl JobRun {
    #[verifier::type_invariant]
    spec fn inv(self) -> bool {
        is_sound(self@)
    }

    /// Takes up a job. The downloads are waited for first, where there are any.
    pub fn new(job: PlaylistJob, server: Option<&MediaServer>) -> (r: JobRun)
        ensures
            r@ == started(
                job@,
                match server {
                    Some(s) => Some(label_of(s@)),
                    None => None,
                },
            ),
    {
        let server: Option<&'static str> = match server {
            Some(s) => Some(s.label()),
            None => None,
        };
        let awaited: usize = count_awaited(&job.tracks);
        assert(job.tracks.len() <= usize::MAX);
        let run = JobRun {
            job,
            server,
            step: Step::Poll { polls: 0 },
            statuses: Vec::new(),
            pending: awaited,
            progress: false,
            done: Vec::new(),
            failed: Vec::new(),
            matched: Vec::new(),
            text: String::new(),
        };
        assert(run@.statuses =~= Seq::empty());
        assert(run@.done =~= Seq::empty());
        assert(run@.failed =~= Seq::empty());
        assert(run@.matched =~= Seq::empty());
        assert(run@.text =~= Seq::empty());
        if awaited == 0 {
            run.end_downloads()
        } else {
            run
        }
    }

    fn label(&self) -> (r: &str)
        ensures
            r@ == server_name(self@),
    {
        match self.server {
            Some(s) => s,
            None => {
                proof {
                    reveal_strlit("");
                    assert(""@ =~= Seq::empty());
                }
                ""
            },
        }
    }

    fn end_downloads(self) -> (r: JobRun)
        ensures
            r@ == after_downloads(self@),
    {
        proof {
            use_type_invariant(&self);
        }
        let done = tracks_that(&self.job.tracks, &self.statuses, false);
        let failed = tracks_that(&self.job.tracks, &self.statuses, true);
        if self.progress {
            JobRun { done, failed, step: Step::ClearProgress, ..self }
        } else {
            let run = JobRun { done, failed, step: Step::Finished, ..self };
            run.end_clearing()
        }
    }

    fn end_clearing(self) -> (r: JobRun)
        requires
            !is_waiting(self@.step),
        ensures
            r@ == after_clearing(self@),
    {
        proof {
            use_type_invariant(&self);
        }
        if self.server.is_none() {
            JobRun { step: Step::Remove, ..self }
        } else if self.done.len() == 0 {
            let text = cat5(
                "😕 Playlist \"",
                self.job.name.as_str(),
                "\": all downloads failed, nothing to rebuild in ",
                self.label(),
                ".",
            );
            JobRun { text, step: Step::Report, ..self }
        } else {
            JobRun { step: Step::Connect { attempt: 0 }, ..self }
        }
    }

    fn end_poll(self, polls: u64) -> (r: JobRun)
        requires
            polls < DOWNLOAD_MAX_POLLS,
        ensures
            r@ == after_poll(self@, polls),
    {
        proof {
            use_type_invariant(&self);
        }
        let next: u64 = polls + 1;
        if next >= DOWNLOAD_MAX_POLLS {
            self.end_downloads()
        } else if next % PROGRESS_POLLS == 0 {
            JobRun { step: Step::Progress { polls: next }, ..self }
        } else {
            JobRun { step: Step::PollPause { polls: next }, ..self }
        }
    }

    fn end_matching(self) -> (r: JobRun)
        requires
            !is_waiting(self@.step),
            self@.server is Some,
            self@.matched.len() == self@.done.len(),
        ensures
            r@ == after_matching(self@),
    {
        proof {
            use_type_invariant(&self);
        }
        let ids = collect_ids(&self.matched);
        assert(texts(ids@).len() == ids@.len());
        if ids.len() == 0 {
            let text = cat5(
                "😕 Playlist \"",
                self.job.name.as_str(),
                "\": none of the downloaded tracks showed up in the ",
                self.label(),
                " library, so I couldn't build the playlist.",
            );
            JobRun { text, step: Step::Report, ..self }
        } else {
            JobRun { step: Step::Rebuild, ..self }
        }
    }

    fn end_find(self, attempt: u64, at: usize, id: Option<String>) -> (r: JobRun)
        requires
            self@.step == (Step::Find { attempt, at }),
        ensures
            r@ == after_find(self@, attempt, at, given(id)),
    {
        proof {
            use_type_invariant(&self);
        }
        let ghost found = given(id);
        let ghost before = self@;
        let JobRun { job, server, statuses, pending, progress, done, failed, matched, text, .. } =
            self;
        let mut matched = matched;
        matched.set(at, id);
        let ghost seen = JobRunV { matched: before.matched.update(at as int, found), ..before };
        assert(matches_of(matched@) =~= seen.matched);
        assert(at < matched.len());
        let next: usize = find_open(&matched, at + 1);
        let first: usize = find_open(&matched, 0);
        proof {
            open_is_first(seen.matched, at + 1);
            open_is_first(seen.matched, 0);
        }
        let step = if next < matched.len() {
            Step::Find { attempt, at: next }
        } else if first >= matched.len() || attempt + 1 >= MATCH_ATTEMPTS {
            Step::Finished
        } else {
            Step::FindPause { attempt: attempt + 1 }
        };
        let run = JobRun {
            job,
            server,
            step,
            statuses,
            pending,
            progress,
            done,
            failed,
            matched,
            text,
        };
        match step {
            Step::Finished => run.end_matching(),
            _ => run,
        }
    }

    fn report(&self, result: &Result<(), String>) -> (r: String)
        requires
            self@.matched.len() == self@.done.len(),
        ensures
            r@ == report_text(self@, outcome(*result)),
    {
        let mut text = match result {
            Ok(()) => {
                let ids = collect_ids(&self.matched);
                assert(texts(ids@).len() == ids@.len());
                let mut head = cat5(
                    "🎧 Playlist \"",
                    self.job.name.as_str(),
                    "\" rebuilt in ",
                    self.label(),
                    ": ",
                );
                head.append(write_decimal(ids.len() as u64).as_str());
                head.append("/");
                head.append(write_decimal(self.job.tracks.len() as u64).as_str());
                head.append(" tracks.");
                head
            },
            Err(e) => {
                let head = cat5(
                    "❌ Playlist \"",
                    self.job.name.as_str(),
                    "\": failed to create the playlist in ",
                    self.label(),
                    ": ",
                );
                cat2(head.as_str(), e.as_str())
            },
        };
        push_listing(&mut text, "\n\n⚠️ ", " download(s) failed:\n", &self.failed);
        let missing = collect_not_found(&self.done, &self.matched);
        push_listing(&mut text, "\n\n😕 ", " track(s) not found in the library:\n", &missing);
        text
    }

    fn progress_report(&self) -> (r: String)
        ensures
            r@ == progress_text(self@),
    {
        cat5(
            "⏳ Playlist \"",
            self.job.name.as_str(),
            "\" — ",
            write_decimal(self.pending as u64).as_str(),
            " track(s) still downloading. Next check in 30 s.",
        )
    }

    /// What is to be done next for the job.
    pub fn action(&self) -> (r: JobAction)
        ensures
            r@ == action_of(self@),
    {
        proof {
            use_type_invariant(self);
        }
        match self.step {
            Step::Poll { .. } => JobAction::AskQueue,
            Step::Progress { .. } => if self.progress {
                JobAction::EditProgress(self.progress_report())
            } else {
                JobAction::SendProgress(self.progress_report())
            },
            Step::PollPause { .. } => JobAction::Sleep(DOWNLOAD_POLL_INTERVAL),
            Step::ClearProgress => JobAction::DeleteProgress,
            Step::Connect { .. } => JobAction::Connect,
            Step::ConnectPause { .. } => JobAction::Sleep(CONNECT_RETRY_INTERVAL),
            Step::Scan => JobAction::Scan,
            Step::ScanGrace => JobAction::Sleep(SCAN_GRACE),
            Step::AskScan { .. } => JobAction::AskScan,
            Step::ScanPause { .. } => JobAction::Sleep(SCAN_POLL_INTERVAL),
            Step::Find { at, .. } => JobAction::Find {
                title: self.done[at].title.clone(),
                artist: self.done[at].artist.clone(),
            },
            Step::FindPause { .. } => JobAction::Sleep(MATCH_RETRY_INTERVAL),
            Step::Rebuild => JobAction::Rebuild {
                name: self.job.name.clone(),
                ids: collect_ids(&self.matched),
            },
            Step::Report => JobAction::Notify(self.text.clone()),
            Step::Unreachable => JobAction::Notify(self.text.clone()),
            Step::Remove => JobAction::Remove(self.job.id.clone()),
            Step::Finished => JobAction::Finish,
        }
    }

    /// Goes on with the job once it is known what came of the action. What does not answer the
    /// action leaves the job where it stands.
    pub fn advance(self, event: JobEvent) -> (r: JobRun)
        ensures
            r@ == advanced(self@, event@),
    {
        proof {
            use_type_invariant(&self);
        }
        match (self.step, event) {
            (Step::Poll { polls }, JobEvent::Queue(Some(statuses))) => {
                let pending: usize = count_pending(&self.job.tracks, &statuses);
                let run = JobRun { statuses, pending, ..self };
                if pending == 0 {
                    run.end_downloads()
                } else {
                    run.end_poll(polls)
                }
            },
            (Step::Poll { polls }, JobEvent::Queue(None)) => self.end_poll(polls),
            (Step::Progress { polls }, JobEvent::Sent(sent)) => if self.progress {
                self
            } else {
                JobRun { progress: sent, step: Step::PollPause { polls }, ..self }
            },
            (Step::Progress { polls }, JobEvent::Done) => if self.progress {
                JobRun { step: Step::PollPause { polls }, ..self }
            } else {
                self
            },
            (Step::PollPause { polls }, JobEvent::Done) => JobRun {
                step: Step::Poll { polls },
                ..self
            },
            (Step::ClearProgress, JobEvent::Done) => self.end_clearing(),
            (Step::Connect { attempt }, JobEvent::Connected(there)) => if there {
                JobRun { step: Step::Scan, ..self }
            } else if attempt + 1 < CONNECT_ATTEMPTS {
                JobRun { step: Step::ConnectPause { attempt: attempt + 1 }, ..self }
            } else {
                let text = cat5(
                    "⚠️ Playlist \"",
                    self.job.name.as_str(),
                    "\" downloaded, but I couldn't reach ",
                    self.label(),
                    ".\nThe job is saved and will retry on the next bot restart.",
                );
                JobRun { text, step: Step::Unreachable, ..self }
            },
            (Step::ConnectPause { attempt }, JobEvent::Done) => JobRun {
                step: Step::Connect { attempt },
                ..self
            },
            (Step::Scan, JobEvent::Done) => JobRun { step: Step::ScanGrace, ..self },
            (Step::ScanGrace, JobEvent::Done) => JobRun { step: Step::AskScan { polls: 0 }, ..self },
            (Step::AskScan { polls }, JobEvent::Scanning(on)) => if on && polls < SCAN_MAX_POLLS {
                JobRun { step: Step::ScanPause { polls: polls + 1 }, ..self }
            } else {
                self.begin_matching()
            },
            (Step::ScanPause { polls }, JobEvent::Done) => JobRun {
                step: Step::AskScan { polls },
                ..self
            },
            (Step::Find { attempt, at }, JobEvent::Found(id)) => self.end_find(attempt, at, id),
            (Step::FindPause { attempt }, JobEvent::Done) => {
                let at: usize = find_open(&self.matched, 0);
                proof {
                    open_is_first(self@.matched, 0);
                }
                JobRun { step: Step::Find { attempt, at }, ..self }
            },
            (Step::Rebuild, JobEvent::Rebuilt(result)) => {
                let text = self.report(&result);
                JobRun { text, step: Step::Report, ..self }
            },
            (Step::Report, JobEvent::Done) => JobRun { step: Step::Remove, ..self },
            (Step::Unreachable, JobEvent::Done) => JobRun { step: Step::Finished, ..self },
            (Step::Remove, JobEvent::Done) => JobRun { step: Step::Finished, ..self },
            _ => self,
        }
    }

    fn begin_matching(self) -> (r: JobRun)
        requires
            !is_waiting(self@.step),
            self@.server is Some,
            self@.done.len() > 0,
        ensures
            r@ == before_matching(self@),
    {
        proof {
            use_type_invariant(&self);
        }
        let mut matched: Vec<Option<String>> = Vec::new();
        let ghost none = before_matching(self@).matched;
        while matched.len() < self.done.len()
            invariant
                matched@.len() <= self.done@.len(),
                forall|k: int| 0 <= k < matched@.len() ==> (#[trigger] matched@[k]) is None,
            decreases self.done@.len() - matched@.len(),
        {
            matched.push(None);
        }
        assert(matches_of(matched@) =~= none);
        JobRun { matched, step: Step::Find { attempt: 0, at: 0 }, ..self }
    }
}

// ---- Laws of jobs --------------------------------------------------------------------------

/// A run is sound from its start to its end: no limit on questions and tries is ever passed, only
/// tracks that are still missing are looked for, and the failed downloads stay set apart.
pub proof fn runs_stay_sound(
    job: PlaylistJobV,
    server: Option<Seq<char>>,
    run: JobRunV,
    event: JobEventV,
)
    requires
        job.tracks.len() <= usize::MAX,
        is_sound(run),
    ensures
        is_sound(started(job, server)),
        is_sound(advanced(run, event)),
{
    failed_downloads_are_set_apart(run.job.tracks, run.statuses);
    match (run.step, event) {
        (Step::Find { attempt, at }, JobEventV::Found(id)) => {
            let seen = run.matched.update(at as int, id);
            open_is_first(seen, at + 1);
            open_is_first(seen, 0);
        },
        (Step::FindPause { attempt }, JobEventV::Done) => {
            open_is_first(run.matched, 0);
        },
        _ => {},
    }
}

/// The work that is left of the search through the library.
pub open spec fn searches_left(tracks: nat, attempt: u64) -> int {
    (MATCH_ATTEMPTS - 1 - attempt) * (tracks + 1) as int
}

/// A bound on the number of actions that are left until the job is finished.
pub open spec fn actions_left(run: JobRunV) -> int {
    let all: int = 12 * run.job.tracks.len() as int + 16;
    let done: int = 12 * run.done.len() as int + 16;
    match run.step {
        Step::Poll { polls } => all + 70 + 3 * (DOWNLOAD_MAX_POLLS - polls),
        Step::PollPause { polls } => all + 71 + 3 * (DOWNLOAD_MAX_POLLS - polls),
        Step::Progress { polls } => all + 72 + 3 * (DOWNLOAD_MAX_POLLS - polls),
        Step::ClearProgress => all + 69,
        Step::Connect { attempt } => done + 64 + 2 * (CONNECT_ATTEMPTS - 1 - attempt),
        Step::ConnectPause { attempt } => done + 65 + 2 * (CONNECT_ATTEMPTS - 1 - attempt),
        Step::Scan => done + 63,
        Step::ScanGrace => done + 62,
        Step::AskScan { polls } => done + 1 + 2 * (SCAN_MAX_POLLS - polls),
        Step::ScanPause { polls } => done + 2 + 2 * (SCAN_MAX_POLLS - polls),
        Step::Find { attempt, at } => 4 + searches_left(run.done.len(), attempt) + (run.done.len()
            - at),
        Step::FindPause { attempt } => 5 + searches_left(run.done.len(), attempt)
            + run.done.len(),
        Step::Rebuild => 4,
        Step::Report => 3,
        Step::Remove => 2,
        Step::Unreachable => 1,
        Step::Finished => 0,
    }
}

proof fn searches_add_up(tracks: nat, attempt: u64)
    requires
        attempt < MATCH_ATTEMPTS,
    ensures
        searches_left(tracks, attempt) >= 0,
        searches_left(tracks, 0) == 11 * tracks + 11,
        attempt + 1 < MATCH_ATTEMPTS ==> searches_left(tracks, (attempt + 1) as u64)
            == searches_left(tracks, attempt) - (tracks + 1),
{
    let left = MATCH_ATTEMPTS - 1 - attempt;
    let n = tracks + 1;
    assert(left * n >= 0) by (nonlinear_arith)
        requires
            left >= 0,
            n >= 0,
    ;
    assert((left - 1) * n == left * n - n) by (nonlinear_arith);
}

/// Every answered action brings a job nearer to its end.
pub proof fn jobs_make_progress(run: JobRunV, event: JobEventV)
    requires
        is_sound(run),
        answers(event, action_of(run)),
    ensures
        0 <= actions_left(advanced(run, event)) < actions_left(run),
{
    failed_downloads_are_set_apart(run.job.tracks, run.statuses);
    match (run.step, event) {
        (Step::Poll { polls }, JobEventV::Queue(Some(statuses))) => {
            failed_downloads_are_set_apart(run.job.tracks, statuses);
        },
        (Step::AskScan { polls }, JobEventV::Scanning(_)) => {
            searches_add_up(run.done.len(), 0);
        },
        (Step::Find { attempt, at }, JobEventV::Found(id)) => {
            let seen = run.matched.update(at as int, id);
            open_is_first(seen, at + 1);
            open_is_first(seen, 0);
            searches_add_up(run.done.len(), attempt);
        },
        (Step::FindPause { attempt }, JobEventV::Done) => {
            open_is_first(run.matched, 0);
            searches_add_up(run.done.len(), attempt);
        },
        _ => {},
    }
}

/// The run after a number of events.
pub open spec fn after_events(run: JobRunV, events: Seq<JobEventV>) -> JobRunV
    decreases events.len(),
{
    if events.len() == 0 {
        run
    } else {
        advanced(after_events(run, events.drop_last()), events.last())
    }
}

/// Each of the events answers the action that was due.
pub open spec fn all_answered(run: JobRunV, events: Seq<JobEventV>) -> bool
    decreases events.len(),
{
    events.len() == 0 || (all_answered(run, events.drop_last()) && answers(
        events.last(),
        action_of(after_events(run, events.drop_last())),
    ))
}

proof fn events_use_up_actions(run: JobRunV, events: Seq<JobEventV>)
    requires
        is_sound(run),
        all_answered(run, events),
    ensures
        is_sound(after_events(run, events)),
        actions_left(after_events(run, events)) + events.len() <= actions_left(run),
        events.len() > 0 ==> actions_left(after_events(run, events)) >= 0,
    decreases events.len(),
{
    if events.len() > 0 {
        let before = after_events(run, events.drop_last());
        events_use_up_actions(run, events.drop_last());
        runs_stay_sound(run.job, run.server, before, events.last());
        jobs_make_progress(before, events.last());
    }
}

/// Whatever comes of its actions, a job ends: the number of its actions is bounded by its tracks.
pub proof fn jobs_end(job: PlaylistJobV, server: Option<Seq<char>>, events: Seq<JobEventV>)
    requires
        job.tracks.len() <= usize::MAX,
        all_answered(started(job, server), events),
    ensures
        events.len() <= 12 * job.tracks.len() + 806,
{
    let run = started(job, server);
    failed_downloads_are_set_apart(job.tracks, run.statuses);
    events_use_up_actions(run, events);
}

/// A job that is finished is removed, unless the media server stayed out of reach to the last try:
/// then it is kept, and the user hears so.
pub proof fn jobs_are_kept_only_for_a_server_out_of_reach(run: JobRunV, event: JobEventV)
    requires
        is_sound(run),
    ensures
        run.step !is Finished && advanced(run, event).step is Finished ==> (action_of(run)
            == JobActionV::Remove(run.job.id)) || run.step is Unreachable,
        run.step !is Unreachable && advanced(run, event).step is Unreachable ==> {
            &&& run.step == (Step::Connect { attempt: (CONNECT_ATTEMPTS - 1) as u64 })
            &&& event == JobEventV::Connected(false)
            &&& action_of(advanced(run, event)) == JobActionV::Notify(unreachable_text(run))
        },
{
}

/// How often the removal of the job was asked for.
pub open spec fn removals(run: JobRunV, events: Seq<JobEventV>) -> nat
    decreases events.len(),
{
    if events.len() == 0 {
        0
    } else {
        let before = events.drop_last();
        removals(run, before) + if action_of(after_events(run, before)) is Remove {
            1nat
        } else {
            0nat
        }
    }
}

/// How often the playlist was to be rebuilt.
pub open spec fn rebuilds(run: JobRunV, events: Seq<JobEventV>) -> nat
    decreases events.len(),
{
    if events.len() == 0 {
        0
    } else {
        let before = events.drop_last();
        rebuilds(run, before) + if action_of(after_events(run, before)) is Rebuild {
            1nat
        } else {
            0nat
        }
    }
}

/// How often the media server was not reached.
pub open spec fn failed_connections(run: JobRunV, events: Seq<JobEventV>) -> nat
    decreases events.len(),
{
    if events.len() == 0 {
        0
    } else {
        let before = events.drop_last();
        failed_connections(run, before) + if action_of(after_events(run, before)) is Connect
            && events.last() == JobEventV::Connected(false) {
            1nat
        } else {
            0nat
        }
    }
}

/// What a run has done by the time it stands where it stands.
spec fn accounts(run: JobRunV, removed: nat, rebuilt: nat, failed: nat) -> bool {
    match run.step {
        Step::Connect { attempt } => removed == 0 && rebuilt == 0 && failed == attempt,
        Step::ConnectPause { attempt } => removed == 0 && rebuilt == 0 && failed == attempt,
        Step::Report => removed == 0 && rebuilt <= 1 && failed < CONNECT_ATTEMPTS,
        Step::Remove => removed == 0 && rebuilt <= 1 && failed < CONNECT_ATTEMPTS,
        Step::Unreachable => removed == 0 && rebuilt == 0 && failed == CONNECT_ATTEMPTS,
        Step::Finished => {
            &&& rebuilt <= 1
            &&& failed == CONNECT_ATTEMPTS && removed == 0 || failed < CONNECT_ATTEMPTS && removed
                == 1
        },
        Step::Scan => removed == 0 && rebuilt == 0 && failed < CONNECT_ATTEMPTS,
        Step::ScanGrace => removed == 0 && rebuilt == 0 && failed < CONNECT_ATTEMPTS,
        Step::AskScan { .. } => removed == 0 && rebuilt == 0 && failed < CONNECT_ATTEMPTS,
        Step::ScanPause { .. } => removed == 0 && rebuilt == 0 && failed < CONNECT_ATTEMPTS,
        Step::Find { .. } => removed == 0 && rebuilt == 0 && failed < CONNECT_ATTEMPTS,
        Step::FindPause { .. } => removed == 0 && rebuilt == 0 && failed < CONNECT_ATTEMPTS,
        Step::Rebuild => removed == 0 && rebuilt == 0 && failed < CONNECT_ATTEMPTS,
        _ => removed == 0 && rebuilt == 0 && failed == 0,
    }
}

proof fn accounts_are_kept(run: JobRunV, events: Seq<JobEventV>)
    requires
        is_sound(run),
        all_answered(run, events),
        accounts(run, 0, 0, 0),
    ensures
        after_events(run, events).job == run.job,
        is_sound(after_events(run, events)),
        accounts(
            after_events(run, events),
            removals(run, events),
            rebuilds(run, events),
            failed_connections(run, events),
        ),
    decreases events.len(),
{
    if events.len() > 0 {
        let before = after_events(run, events.drop_last());
        accounts_are_kept(run, events.drop_last());
        runs_stay_sound(run.job, run.server, before, events.last());
    }
}

/// Whatever comes of its actions, the playlist of a job is rebuilt at most once, the removal of the
/// job is asked for at most once, and it is the job's own. A job that is finished was removed,
/// exactly once, unless the media server was not reached at any of the tries: then it is kept, to be
/// taken up again.
pub proof fn finished_jobs_are_removed_once(
    job: PlaylistJobV,
    server: Option<Seq<char>>,
    events: Seq<JobEventV>,
)
    requires
        job.tracks.len() <= usize::MAX,
        all_answered(started(job, server), events),
    ensures
        ({
            let run = started(job, server);
            let end = after_events(run, events);
            &&& rebuilds(run, events) <= 1
            &&& removals(run, events) <= 1
            &&& failed_connections(run, events) <= CONNECT_ATTEMPTS
            &&& action_of(end) is Remove ==> action_of(end) == JobActionV::Remove(job.id)
            &&& action_of(end) is Finish ==> (removals(run, events) == 1 <==> failed_connections(
                run,
                events,
            ) < CONNECT_ATTEMPTS)
        }),
{
    accounts_are_kept(started(job, server), events);
}

/// The downloads are waited for until none of them is pending any more, or deemix was asked as often
/// as it may be.
pub proof fn downloads_are_waited_for(run: JobRunV, event: JobEventV)
    requires
        is_sound(run),
        is_waiting(run.step),
        !is_waiting(advanced(run, event).step),
    ensures
        run.step is Poll,
        ({
            let after = advanced(run, event);
            pending(after.job.tracks, after.statuses) == 0 && event is Queue || run.step == (
            Step::Poll { polls: (DOWNLOAD_MAX_POLLS - 1) as u64 })
        }),
{
}

/// A playlist with no download to wait for is rebuilt without a question to deemix.
pub proof fn downloaded_playlists_are_rebuilt_at_once(job: PlaylistJobV, server: Seq<char>)
    requires
        job.tracks.len() > 0,
        forall|i: int| 0 <= i < job.tracks.len() ==> (#[trigger] job.tracks[i]).uuid.len() == 0,
    ensures
        action_of(started(job, Some(server))) == JobActionV::Connect,
        started(job, Some(server)).done == job.tracks,
{
    none_awaited(job.tracks);
}

proof fn none_awaited(tracks: Seq<JobTrackV>)
    requires
        forall|i: int| 0 <= i < tracks.len() ==> (#[trigger] tracks[i]).uuid.len() == 0,
    ensures
        awaited(tracks) == 0,
        part(tracks, Seq::empty(), false) == tracks,
    decreases tracks.len(),
{
    if tracks.len() > 0 {
        let shorter = tracks.drop_last();
        assert forall|i: int| 0 <= i < shorter.len() implies (#[trigger] shorter[i]).uuid.len()
            == 0 by {
            assert(shorter[i] == tracks[i]);
        }
        none_awaited(shorter);
        assert(tracks[tracks.len() - 1] == tracks.last());
        assert(part(tracks, Seq::empty(), false) =~= tracks);
    } else {
        assert(part(tracks, Seq::empty(), false) =~= tracks);
    }
}

/// The playlist holds what the library gave for the downloaded tracks and nothing else, and every
/// downloaded track is in the playlist or is reported as not found.
pub proof fn playlists_hold_the_found_tracks(
    tracks: Seq<JobTrackV>,
    matched: Seq<Option<Seq<char>>>,
)
    requires
        tracks.len() == matched.len(),
    ensures
        found_ids(matched).len() + not_found(tracks, matched).len() == tracks.len(),
        forall|id: Seq<char>| #[trigger]
            found_ids(matched).contains(id) <==> matched.contains(Some(id)),
    decreases tracks.len(),
{
    let ids = found_ids(matched);
    if matched.len() > 0 {
        let fewer = matched.drop_last();
        let before = found_ids(fewer);
        playlists_hold_the_found_tracks(tracks.drop_last(), fewer);
        assert forall|id: Seq<char>| #[trigger] ids.contains(id) <==> matched.contains(
            Some(id),
        ) by {
            if ids.contains(id) {
                let k = choose|k: int| 0 <= k < ids.len() && ids[k] == id;
                if k < before.len() {
                    assert(before[k] == id);
                    assert(before.contains(id));
                    let m = choose|m: int| 0 <= m < fewer.len() && fewer[m] == Some(id);
                    assert(matched[m] == Some(id));
                } else {
                    assert(matched[matched.len() - 1] == Some(id));
                }
            }
            if matched.contains(Some(id)) {
                let m = choose|m: int| 0 <= m < matched.len() && matched[m] == Some(id);
                if m < fewer.len() {
                    assert(fewer[m] == Some(id));
                    assert(fewer.contains(Some(id)));
                    assert(before.contains(id));
                    let k = choose|k: int| 0 <= k < before.len() && before[k] == id;
                    assert(ids[k] == id);
                } else {
                    assert(ids[before.len() as int] == id);
                }
            }
        }
    }
}

// ---- Laws of waiting -----------------------------------------------------------------------

/// Of several reports on a download the last counts; a download without a report has no status.
pub proof fn last_report_counts(statuses: Seq<(Seq<char>, Seq<char>)>, uuid: Seq<char>, i: int)
    requires
        -1 <= i < statuses.len(),
        i >= 0 ==> statuses[i].0 == uuid,
        forall|j: int| i < j < statuses.len() ==> (#[trigger] statuses[j]).0 != uuid,
    ensures
        status_in(statuses, uuid) == if i >= 0 {
            Some(statuses[i].1)
        } else {
            None
        },
    decreases statuses.len(),
{
    if statuses.len() > 0 && i < statuses.len() - 1 {
        let fewer = statuses.drop_last();
        assert(statuses[statuses.len() - 1] == statuses.last());
        assert forall|j: int| i < j < fewer.len() implies (#[trigger] fewer[j]).0 != uuid by {
            assert(fewer[j] == statuses[j]);
        }
        last_report_counts(fewer, uuid, i);
    }
}

/// The downloads that are waited for are those of the tracks with a key that deemix reports as
/// `inQueue` or `downloading`, each counted once; at the start, those of all tracks with a key.
pub proof fn pending_downloads_are_counted(
    tracks: Seq<JobTrackV>,
    statuses: Seq<(Seq<char>, Seq<char>)>,
)
    ensures
        pending(tracks, statuses) == tracks.filter(
            |t: JobTrackV|
                t.uuid.len() > 0 && (status_in(statuses, t.uuid) == Some("inQueue"@) || status_in(
                    statuses,
                    t.uuid,
                ) == Some("downloading"@)),
        ).len(),
        awaited(tracks) == tracks.filter(|t: JobTrackV| t.uuid.len() > 0).len(),
    decreases tracks.len(),
{
    reveal(Seq::filter);
    if tracks.len() > 0 {
        pending_downloads_are_counted(tracks.drop_last(), statuses);
    }
}

proof fn pending_means_some(tracks: Seq<JobTrackV>, statuses: Seq<(Seq<char>, Seq<char>)>)
    ensures
        pending(tracks, statuses) > 0 <==> exists|i: int|
            0 <= i < tracks.len() && (#[trigger] tracks[i]).uuid.len() > 0 && (status_in(
                statuses,
                tracks[i].uuid,
            ) == Some("inQueue"@) || status_in(statuses, tracks[i].uuid) == Some("downloading"@)),
        awaited(tracks) > 0 <==> exists|i: int|
            0 <= i < tracks.len() && (#[trigger] tracks[i]).uuid.len() > 0,
    decreases tracks.len(),
{
    if tracks.len() > 0 {
        let fewer = tracks.drop_last();
        pending_means_some(fewer, statuses);
        assert(tracks[tracks.len() - 1] == tracks.last());
        assert(forall|i: int| 0 <= i < fewer.len() ==> fewer[i] == #[trigger] tracks[i]);
        assert(forall|i: int| 0 <= i < fewer.len() ==> #[trigger] fewer[i] == tracks[i]);
    }
}

/// A job goes on waiting as long as one of its downloads is `inQueue` or `downloading`, up to two
/// hours: deemix is asked again after thirty seconds, and every tenth time the user hears how many
/// downloads are left.
pub proof fn jobs_wait_for_every_download(
    run: JobRunV,
    polls: u64,
    statuses: Seq<(Seq<char>, Seq<char>)>,
    i: int,
)
    requires
        run.step == (Step::Poll { polls }),
        polls + 1 < 240,
        0 <= i < run.job.tracks.len(),
        run.job.tracks[i].uuid.len() > 0,
        status_in(statuses, run.job.tracks[i].uuid) == Some("inQueue"@) || status_in(
            statuses,
            run.job.tracks[i].uuid,
        ) == Some("downloading"@),
    ensures
        ({
            let after = advanced(run, JobEventV::Queue(Some(statuses)));
            let told = advanced(after, JobEventV::Done);
            let heard = advanced(after, JobEventV::Sent(true));
            let unheard = advanced(after, JobEventV::Sent(false));
            &&& is_waiting(after.step)
            &&& after.statuses == statuses
            &&& after.pending == run.job.tracks.filter(
                |t: JobTrackV|
                    t.uuid.len() > 0 && (status_in(statuses, t.uuid) == Some("inQueue"@) || status_in(
                        statuses,
                        t.uuid,
                    ) == Some("downloading"@)),
            ).len()
            &&& (polls + 1) % 10 != 0 ==> action_of(after) == JobActionV::Sleep(30) && action_of(told)
                == JobActionV::AskQueue
            &&& (polls + 1) % 10 == 0 && run.progress ==> action_of(after) is EditProgress
                && action_of(told) == JobActionV::Sleep(30)
            &&& (polls + 1) % 10 == 0 && !run.progress ==> action_of(after) is SendProgress
                && action_of(heard) == JobActionV::Sleep(30) && heard.progress
            &&& (polls + 1) % 10 == 0 && !run.progress ==> action_of(unheard)
                == JobActionV::Sleep(30) && !unheard.progress
        }),
{
    pending_downloads_are_counted(run.job.tracks, statuses);
    pending_means_some(run.job.tracks, statuses);
}

/// A job stops waiting as soon as none of its downloads is `inQueue` or `downloading`: those that
/// are done, failed or gone from the queue are not waited for.
pub proof fn settled_downloads_end_the_waiting(
    run: JobRunV,
    polls: u64,
    statuses: Seq<(Seq<char>, Seq<char>)>,
)
    requires
        run.step == (Step::Poll { polls }),
        forall|i: int|
            0 <= i < run.job.tracks.len() && (#[trigger] run.job.tracks[i]).uuid.len() > 0 ==> {
                &&& status_in(statuses, run.job.tracks[i].uuid) != Some("inQueue"@)
                &&& status_in(statuses, run.job.tracks[i].uuid) != Some("downloading"@)
            },
    ensures
        ({
            let after = advanced(run, JobEventV::Queue(Some(statuses)));
            &&& !is_waiting(after.step)
            &&& after.statuses == statuses
            &&& run.progress ==> action_of(after) == JobActionV::DeleteProgress
            &&& !run.progress && run.server is None ==> action_of(after) == JobActionV::Remove(
                run.job.id,
            )
            &&& !run.progress && run.server is Some ==> action_of(after) == JobActionV::Connect
                || action_of(after) is Notify
        }),
{
    pending_means_some(run.job.tracks, statuses);
}

/// Where deemix does not answer, the job waits on with what it knew, and asks again; after two hours
/// of questions it goes on with what is there.
pub proof fn silence_is_waited_out(run: JobRunV, polls: u64, event: JobEventV)
    requires
        run.step == (Step::Poll { polls }),
        event is Queue,
    ensures
        polls + 1 < 240 ==> is_waiting(advanced(run, JobEventV::Queue(None)).step) && advanced(
            run,
            JobEventV::Queue(None),
        ).statuses == run.statuses && advanced(run, JobEventV::Queue(None)).pending == run.pending,
        polls + 1 >= 240 ==> !is_waiting(advanced(run, event).step),
        polls + 1 >= 240 ==> advanced(run, JobEventV::Queue(None)).done == run.job.tracks.filter(
            |t: JobTrackV| status_in(run.statuses, t.uuid) != Some("failed"@),
        ),
        polls + 1 >= 240 ==> advanced(run, JobEventV::Queue(None)).failed == run.job.tracks.filter(
            |t: JobTrackV| status_in(run.statuses, t.uuid) == Some("failed"@),
        ),
{
    failed_downloads_are_left_out(run.job.tracks, run.statuses);
}

/// The message on the progress is taken back before the job goes on: without a server the job is
/// removed, without a download that succeeded the user hears so, else the server is tried.
pub proof fn progress_is_taken_back(run: JobRunV)
    requires
        run.step is ClearProgress,
    ensures
        ({
            let after = advanced(run, JobEventV::Done);
            &&& action_of(run) == JobActionV::DeleteProgress
            &&& run.server is None ==> action_of(after) == JobActionV::Remove(run.job.id)
            &&& run.server is Some && run.done.len() == 0 ==> action_of(after) == JobActionV::Notify(
                all_failed_text(run),
            )
            &&& run.server is Some && run.done.len() > 0 ==> action_of(after) == JobActionV::Connect
            &&& after.done == run.done && after.failed == run.failed
        }),
{
}

/// A job begins with a question to deemix exactly where some track has a download to wait for.
pub proof fn jobs_begin_by_waiting(job: PlaylistJobV, server: Option<Seq<char>>)
    ensures
        action_of(started(job, server)) == JobActionV::AskQueue <==> exists|i: int|
            0 <= i < job.tracks.len() && (#[trigger] job.tracks[i]).uuid.len() > 0,
        started(job, server).job == job,
        started(job, server).server == server,
        started(job, server).pending == job.tracks.filter(
            |t: JobTrackV| t.uuid.len() > 0,
        ).len(),
        !started(job, server).progress,
{
    pending_downloads_are_counted(job.tracks, Seq::empty());
    pending_means_some(job.tracks, Seq::empty());
}

/// The message on the progress names the playlist and how many downloads are left.
pub proof fn progress_is_told(run: JobRunV)
    ensures
        contains(progress_text(run), run.job.name),
        contains(progress_text(run), decimal(run.pending)),
{
    let end = " track(s) still downloading. Next check in 30 s."@;
    let a = "⏳ Playlist \""@ + run.job.name;
    let b = a + "\" — "@;
    let none = Seq::<char>::empty();
    parts_are_contained("⏳ Playlist \""@, run.job.name, none);
    assert(a + none =~= a);
    contained_parts_stay(a, "\" — "@, run.job.name);
    contained_parts_stay(b, decimal(run.pending), run.job.name);
    contained_parts_stay(b + decimal(run.pending), end, run.job.name);
    parts_are_contained(b, decimal(run.pending), end);
}

// ---- Laws of the playlist ------------------------------------------------------------------

/// Exactly the tracks that deemix reports as `failed` are left out of the playlist, and both the
/// others and the failed ones keep their order.
pub proof fn failed_downloads_are_left_out(
    tracks: Seq<JobTrackV>,
    statuses: Seq<(Seq<char>, Seq<char>)>,
)
    ensures
        part(tracks, statuses, true) == tracks.filter(
            |t: JobTrackV| status_in(statuses, t.uuid) == Some("failed"@),
        ),
        part(tracks, statuses, false) == tracks.filter(
            |t: JobTrackV| status_in(statuses, t.uuid) != Some("failed"@),
        ),
    decreases tracks.len(),
{
    reveal(Seq::filter);
    if tracks.len() > 0 {
        failed_downloads_are_left_out(tracks.drop_last(), statuses);
    }
}

/// Once the waiting is over, the tracks are parted by what deemix reported last.
pub proof fn tracks_are_parted_by_the_last_reports(
    run: JobRunV,
    polls: u64,
    statuses: Seq<(Seq<char>, Seq<char>)>,
)
    requires
        run.step == (Step::Poll { polls }),
        !is_waiting(advanced(run, JobEventV::Queue(Some(statuses))).step),
    ensures
        ({
            let after = advanced(run, JobEventV::Queue(Some(statuses)));
            &&& after.done == run.job.tracks.filter(
                |t: JobTrackV| status_in(statuses, t.uuid) != Some("failed"@),
            )
            &&& after.failed == run.job.tracks.filter(
                |t: JobTrackV| status_in(statuses, t.uuid) == Some("failed"@),
            )
        }),
{
    failed_downloads_are_left_out(run.job.tracks, statuses);
}

/// Every other job stays in the store, in its order, when one is removed.
pub proof fn removing_keeps_the_order(jobs: Seq<PlaylistJobV>, id: Seq<char>)
    ensures
        without(jobs, id) == jobs.filter(|j: PlaylistJobV| j.id != id),
    decreases jobs.len(),
{
    reveal(Seq::filter);
    if jobs.len() > 0 {
        removing_keeps_the_order(jobs.drop_last(), id);
    }
}

/// The server is tried three times, five minutes apart. Once it is reached a scan is started, left
/// alone for a minute and then asked for. At the third failure the user hears of it, and the job
/// ends without being removed.
pub proof fn servers_are_tried_three_times(run: JobRunV, attempt: u64)
    requires
        run.step == (Step::Connect { attempt }),
        attempt < 3,
    ensures
        ({
            let reached = advanced(run, JobEventV::Connected(true));
            let missed = advanced(run, JobEventV::Connected(false));
            let left_alone = advanced(reached, JobEventV::Done);
            let later = advanced(missed, JobEventV::Done);
            &&& action_of(run) == JobActionV::Connect
            &&& action_of(reached) == JobActionV::Scan
            &&& action_of(left_alone) == JobActionV::Sleep(60)
            &&& action_of(advanced(left_alone, JobEventV::Done)) == JobActionV::AskScan
            &&& attempt < 2 ==> action_of(missed) == JobActionV::Sleep(300)
            &&& attempt < 2 ==> later == at_step(run, Step::Connect { attempt: (attempt + 1) as u64 })
            &&& attempt == 2 ==> action_of(missed) == JobActionV::Notify(unreachable_text(run))
            &&& attempt == 2 ==> action_of(later) == JobActionV::Finish
        }),
{
}

/// A scan that goes on is asked for again after ten seconds, up to thirty times. Then no track is
/// found yet, and the first one is looked for.
pub proof fn scans_are_waited_for(run: JobRunV, polls: u64)
    requires
        run.step == (Step::AskScan { polls }),
        run.done.len() > 0,
    ensures
        ({
            let idle = advanced(run, JobEventV::Scanning(false));
            let busy = advanced(run, JobEventV::Scanning(true));
            let later = advanced(busy, JobEventV::Done);
            &&& action_of(idle) == (JobActionV::Find {
                title: run.done[0].title,
                artist: run.done[0].artist,
            })
            &&& idle.matched.len() == run.done.len()
            &&& forall|i: int| 0 <= i < idle.matched.len() ==> (#[trigger] idle.matched[i]) is None
            &&& polls < 30 ==> action_of(busy) == JobActionV::Sleep(10)
            &&& polls < 30 ==> later == at_step(run, Step::AskScan { polls: (polls + 1) as u64 })
            &&& polls >= 30 ==> busy == idle
        }),
{
}

/// A track is looked for by its own title and artist, and what the library gives for it is kept in
/// its place; what was found of the other tracks stays.
pub proof fn tracks_are_looked_for_one_by_one(
    run: JobRunV,
    attempt: u64,
    at: usize,
    id: Option<Seq<char>>,
    other: int,
)
    requires
        is_sound(run),
        run.step == (Step::Find { attempt, at }),
        0 <= other < run.done.len(),
    ensures
        action_of(run) == (JobActionV::Find {
            title: run.done[at as int].title,
            artist: run.done[at as int].artist,
        }),
        ({
            let after = advanced(run, JobEventV::Found(id));
            &&& after.matched.len() == run.done.len()
            &&& after.matched[at as int] == id
            &&& other != at ==> after.matched[other] == run.matched[other]
            &&& after.done == run.done && after.failed == run.failed && after.job == run.job
        }),
{
}

/// The library is gone through from the first track to the last, past the tracks that are found
/// already. Where some are still missing then, it is gone through again from the first of them after
/// thirty seconds, twelve times in all. Once no track is missing, or at the last, the playlist is
/// rebuilt of what was found.
pub proof fn missing_tracks_are_looked_for_again(
    run: JobRunV,
    attempt: u64,
    at: usize,
    id: Option<Seq<char>>,
)
    requires
        is_sound(run),
        run.step == (Step::Find { attempt, at }),
    ensures
        ({
            let after = advanced(run, JobEventV::Found(id));
            let again = advanced(after, JobEventV::Done);
            let ahead = exists|k: int| at < k < run.done.len() && run.matched[k] is None;
            let missing = exists|k: int|
                0 <= k < run.done.len() && (#[trigger] after.matched[k]) is None;
            &&& after.step matches Step::Find { attempt: same, at: next } ==> {
                &&& ahead
                &&& same == attempt
                &&& at < next < run.done.len()
                &&& run.matched[next as int] is None
                &&& forall|k: int| at < k < next ==> (#[trigger] run.matched[k]) is Some
            }
            &&& ahead ==> after.step is Find
            &&& !ahead && missing && attempt + 1 < 12 ==> {
                &&& action_of(after) == JobActionV::Sleep(30)
                &&& again.step matches Step::Find { attempt: later, at: first }
                &&& later == attempt + 1
                &&& after.matched[first as int] is None
                &&& forall|k: int| 0 <= k < first ==> (#[trigger] after.matched[k]) is Some
            }
            &&& !ahead && (!missing || attempt + 1 >= 12) ==> {
                if found_ids(after.matched).len() > 0 {
                    action_of(after) == (JobActionV::Rebuild {
                        name: run.job.name,
                        ids: found_ids(after.matched),
                    })
                } else {
                    action_of(after) == JobActionV::Notify(none_found_text(run)) && action_of(again)
                        == JobActionV::Remove(run.job.id)
                }
            }
        }),
{
    failed_downloads_are_set_apart(run.job.tracks, run.statuses);
    let seen = run.matched.update(at as int, id);
    let next = next_open(seen, at + 1);
    let first = next_open(seen, 0);
    open_is_first(seen, at + 1);
    open_is_first(seen, 0);
    let after = advanced(run, JobEventV::Found(id));
    assert(after.matched == seen);
    assert(forall|k: int| at < k < run.done.len() ==> run.matched[k] == #[trigger] seen[k]);
    assert(forall|k: int| at < k < run.done.len() ==> #[trigger] run.matched[k] == seen[k]);
    if next < seen.len() {
        assert(run.matched[next] is None);
    }
    if first < seen.len() {
        assert(after.matched[first] is None);
    }
}

/// The playlist holds the tracks that were found, in the order of the tracks.
pub proof fn playlists_keep_the_order(matched: Seq<Option<Seq<char>>>)
    ensures
        found_ids(matched) == matched.filter(|m: Option<Seq<char>>| m is Some).map_values(
            |m: Option<Seq<char>>| m->0,
        ),
    decreases matched.len(),
{
    reveal(Seq::filter);
    if matched.len() > 0 {
        let fewer = matched.drop_last();
        playlists_keep_the_order(fewer);
        let kept = fewer.filter(|m: Option<Seq<char>>| m is Some);
        let all = matched.filter(|m: Option<Seq<char>>| m is Some);
        assert(found_ids(matched) =~= all.map_values(|m: Option<Seq<char>>| m->0));
    } else {
        assert(found_ids(matched) =~= matched.filter(
            |m: Option<Seq<char>>| m is Some,
        ).map_values(|m: Option<Seq<char>>| m->0));
    }
}

/// The tracks that are reported as not found are those that were not found, and no others.
pub proof fn missing_tracks_are_reported(
    tracks: Seq<JobTrackV>,
    matched: Seq<Option<Seq<char>>>,
)
    requires
        tracks.len() == matched.len(),
    ensures
        forall|t: JobTrackV| #[trigger]
            not_found(tracks, matched).contains(t) <==> exists|i: int|
                0 <= i < tracks.len() && (#[trigger] matched[i]) is None && tracks[i] == t,
    decreases tracks.len(),
{
    let all = not_found(tracks, matched);
    if tracks.len() > 0 {
        let (fewer, found) = (tracks.drop_last(), matched.drop_last());
        let rest = not_found(fewer, found);
        let last = tracks.len() - 1;
        missing_tracks_are_reported(fewer, found);
        assert forall|t: JobTrackV| #[trigger] all.contains(t) <==> exists|i: int|
            0 <= i < tracks.len() && (#[trigger] matched[i]) is None && tracks[i] == t by {
            if all.contains(t) {
                let k = choose|k: int| 0 <= k < all.len() && all[k] == t;
                if k < rest.len() {
                    assert(rest[k] == t);
                    assert(rest.contains(t));
                    let i = choose|i: int|
                        0 <= i < fewer.len() && (#[trigger] found[i]) is None && fewer[i] == t;
                    assert(matched[i] is None && tracks[i] == t);
                } else {
                    assert(matched[last] is None && tracks[last] == t);
                }
            }
            if exists|i: int|
                0 <= i < tracks.len() && (#[trigger] matched[i]) is None && tracks[i] == t {
                let i = choose|i: int|
                    0 <= i < tracks.len() && (#[trigger] matched[i]) is None && tracks[i] == t;
                if i < last {
                    assert(found[i] is None && fewer[i] == t);
                    assert(rest.contains(t));
                    let k = choose|k: int| 0 <= k < rest.len() && rest[k] == t;
                    assert(all[k] == t);
                } else {
                    assert(all[rest.len() as int] == t);
                }
            }
        }
    }
}

// ---- Laws of the report --------------------------------------------------------------------

/// A track is listed on a line of its own by its title and its artist, where the line is short
/// enough, and no line is longer than eighty characters and what stands round them.
pub proof fn tracks_are_listed_by_name(t: JobTrackV)
    ensures
        t.title.len() + t.artist.len() + 3 <= 80 ==> contains(track_line(t), t.title) && contains(
            track_line(t),
            t.artist,
        ),
        track_line(t).len() <= 83,
        track_line(t).last() == '\n',
        t.title.len() >= 79 ==> contains(track_line(t), t.title.take(79)),
{
    reveal_strlit(" — ");
    reveal_strlit("• ");
    reveal_strlit("\n");
    reveal_strlit("…");
    let none = Seq::<char>::empty();
    let label = if t.artist.len() == 0 {
        t.title
    } else {
        t.title + " — "@ + t.artist
    };
    let shown = clipped(label, 80, 79, "…"@);
    if t.title.len() + t.artist.len() + 3 <= 80 {
        texts_contain_themselves(t.title);
        texts_contain_themselves(t.artist);
        if t.artist.len() > 0 {
            contained_parts_stay(t.title, " — "@, t.title);
            contained_parts_stay(t.title + " — "@, t.artist, t.title);
            contained_parts_stay(t.title + " — "@, t.artist, t.artist);
        } else {
            contained_parts_stay(none, label, none);
            assert(label.subrange(0, 0) =~= t.artist);
            assert(crate::text::occurs_at(label, t.artist, 0));
        }
        contained_parts_stay("• "@, shown, t.title);
        contained_parts_stay("• "@ + shown, "\n"@, t.title);
        contained_parts_stay("• "@, shown, t.artist);
        contained_parts_stay("• "@ + shown, "\n"@, t.artist);
    }
    if t.title.len() >= 79 {
        let head = t.title.take(79);
        assert(shown.subrange(0, 79) =~= head);
        assert(crate::text::occurs_at(shown, head, 0));
        contained_parts_stay("• "@, shown, head);
        contained_parts_stay("• "@ + shown, "\n"@, head);
    }
}

proof fn lines_are_contained(tracks: Seq<JobTrackV>, i: int)
    requires
        0 <= i < tracks.len(),
    ensures
        contains(track_lines(tracks), track_line(tracks[i])),
    decreases tracks.len(),
{
    let fewer = tracks.drop_last();
    let line = track_line(tracks[i]);
    if i < fewer.len() {
        lines_are_contained(fewer, i);
        assert(fewer[i] == tracks[i]);
    } else {
        texts_contain_themselves(line);
    }
    contained_parts_stay(track_lines(fewer), track_line(tracks.last()), line);
}

/// A list of tracks shows the first ten of them, each on its line, and how many more there are.
pub proof fn ten_tracks_are_listed(tracks: Seq<JobTrackV>, i: int)
    ensures
        0 <= i < tracks.len() && i < 10 ==> contains(track_list(tracks), track_line(tracks[i])),
        tracks.len() > 10 ==> contains(track_list(tracks), decimal((tracks.len() - 10) as nat)),
        tracks.len() <= 10 ==> track_list(tracks) == track_lines(tracks),
{
    let more = "…and "@ + decimal((tracks.len() - 10) as nat) + " more\n"@;
    if 0 <= i < tracks.len() && i < 10 {
        if tracks.len() > 10 {
            let shown = tracks.take(10);
            lines_are_contained(shown, i);
            assert(shown[i] == tracks[i]);
            contained_parts_stay(track_lines(shown), more, track_line(tracks[i]));
        } else {
            lines_are_contained(tracks, i);
        }
    }
    if tracks.len() > 10 {
        let n = decimal((tracks.len() - 10) as nat);
        parts_are_contained("…and "@, n, " more\n"@);
        contained_parts_stay(track_lines(tracks.take(10)), more, n);
    }
}

proof fn listings_are_contained(
    before: Seq<char>,
    behind: Seq<char>,
    tracks: Seq<JobTrackV>,
    i: int,
)
    requires
        0 <= i < tracks.len(),
    ensures
        contains(listing(before, behind, tracks), before + decimal(tracks.len()) + behind),
        i < 10 ==> contains(listing(before, behind, tracks), track_line(tracks[i])),
{
    let head = before + decimal(tracks.len()) + behind;
    texts_contain_themselves(head);
    contained_parts_stay(head, track_list(tracks), head);
    ten_tracks_are_listed(tracks, i);
    contained_parts_stay(head, track_list(tracks), track_line(tracks[i]));
}

/// The report names the playlist and the server and tells how many of the tracks of the playlist
/// are in it, or why it could not be created. It counts and lists the downloads that failed and the
/// tracks that were not found.
pub proof fn reports_tell_what_came_of_it(
    run: JobRunV,
    server: Seq<char>,
    result: Result<(), Seq<char>>,
    i: int,
)
    requires
        run.server == Some(server),
    ensures
        ({
            let text = report_text(run, result);
            let missing = not_found(run.done, run.matched);
            &&& contains(text, run.job.name)
            &&& contains(text, server)
            &&& result is Ok ==> contains(
                text,
                decimal(found_ids(run.matched).len()) + "/"@ + decimal(run.job.tracks.len()),
            )
            &&& result is Ok ==> contains(text, "\" rebuilt in "@)
            &&& result matches Err(e) ==> contains(text, e) && contains(
                text,
                "failed to create the playlist"@,
            )
            &&& 0 <= i < run.failed.len() && i < 10 ==> contains(text, track_line(run.failed[i]))
            &&& 0 <= i < missing.len() && i < 10 ==> contains(text, track_line(missing[i]))
            &&& run.failed.len() > 0 ==> contains(
                text,
                decimal(run.failed.len()) + " download(s) failed:\n"@,
            )
            &&& missing.len() > 0 ==> contains(
                text,
                decimal(missing.len()) + " track(s) not found in the library:\n"@,
            )
        }),
{
    let missing = not_found(run.done, run.matched);
    let failures = listing("\n\n⚠️ "@, " download(s) failed:\n"@, run.failed);
    let lost = listing("\n\n😕 "@, " track(s) not found in the library:\n"@, missing);
    let name = run.job.name;
    let none = Seq::<char>::empty();
    let head = match result {
        Ok(()) => "🎧 Playlist \""@ + name + "\" rebuilt in "@ + server_name(run) + ": "@ + decimal(
            found_ids(run.matched).len(),
        ) + "/"@ + decimal(run.job.tracks.len()) + " tracks."@,
        Err(e) => "❌ Playlist \""@ + name + "\": failed to create the playlist in "@ + server_name(
            run,
        ) + ": "@ + e,
    };
    let text = report_text(run, result);
    assert(text == head + failures + lost);
    match result {
        Ok(()) => {
            let n = decimal(found_ids(run.matched).len());
            let total = decimal(run.job.tracks.len());
            let share = n + "/"@ + total;
            let a = "🎧 Playlist \""@;
            let b = "\" rebuilt in "@;
            let end = ": "@ + n + "/"@ + total + " tracks."@;
            assert(head =~= a + name + (b + server + end));
            parts_are_contained(a, name, b + server + end);
            assert(head =~= (a + name + b) + server + end);
            parts_are_contained(a + name + b, server, end);
            assert(head =~= (a + name + b + server + ": "@) + share + " tracks."@);
            parts_are_contained(a + name + b + server + ": "@, share, " tracks."@);
            contained_parts_stay(head, failures, share);
            contained_parts_stay(head + failures, lost, share);
            assert(head =~= (a + name) + b + (server + end));
            parts_are_contained(a + name, b, server + end);
            contained_parts_stay(head, failures, b);
            contained_parts_stay(head + failures, lost, b);
        },
        Err(e) => {
            let a = "❌ Playlist \""@;
            let b = "\": failed to create the playlist in "@;
            assert(head =~= a + name + (b + server + ": "@ + e));
            parts_are_contained(a, name, b + server + ": "@ + e);
            assert(head =~= (a + name + b) + server + (": "@ + e));
            parts_are_contained(a + name + b, server, ": "@ + e);
            assert(head =~= (a + name + b + server + ": "@) + e + none);
            parts_are_contained(a + name + b + server + ": "@, e, none);
            contained_parts_stay(head, failures, e);
            contained_parts_stay(head + failures, lost, e);
            let said = "failed to create the playlist"@;
            reveal_strlit("failed to create the playlist");
            reveal_strlit("\": failed to create the playlist in ");
            reveal_strlit("\": ");
            reveal_strlit(" in ");
            assert(b =~= "\": "@ + said + " in "@);
            parts_are_contained("\": "@, said, " in "@);
            contained_parts_stay(a + name, b, said);
            contained_parts_stay(a + name + b, server, said);
            contained_parts_stay(a + name + b + server, ": "@, said);
            contained_parts_stay(a + name + b + server + ": "@, e, said);
            contained_parts_stay(head, failures, said);
            contained_parts_stay(head + failures, lost, said);
        },
    }
    contained_parts_stay(head, failures, name);
    contained_parts_stay(head + failures, lost, name);
    contained_parts_stay(head, failures, server);
    contained_parts_stay(head + failures, lost, server);
    if run.failed.len() > 0 {
        let k = if 0 <= i < run.failed.len() {
            i
        } else {
            0
        };
        let line = track_line(run.failed[k]);
        let said = decimal(run.failed.len()) + " download(s) failed:\n"@;
        listings_are_contained("\n\n⚠️ "@, " download(s) failed:\n"@, run.failed, k);
        let list = track_list(run.failed);
        assert(failures =~= "\n\n⚠️ "@ + said + list);
        parts_are_contained("\n\n⚠️ "@, said, list);
        contained_parts_stay(head, failures, line);
        contained_parts_stay(head + failures, lost, line);
        contained_parts_stay(head, failures, said);
        contained_parts_stay(head + failures, lost, said);
    }
    if missing.len() > 0 {
        let k = if 0 <= i < missing.len() {
            i
        } else {
            0
        };
        let said = decimal(missing.len()) + " track(s) not found in the library:\n"@;
        listings_are_contained(
            "\n\n😕 "@,
            " track(s) not found in the library:\n"@,
            missing,
            k,
        );
        let list = track_list(missing);
        assert(lost =~= "\n\n😕 "@ + said + list);
        parts_are_contained("\n\n😕 "@, said, list);
        contained_parts_stay(head + failures, lost, track_line(missing[k]));
        contained_parts_stay(head + failures, lost, said);
    }
}

/// Once the playlist was rebuilt, or could not be, the user hears the report, and then the job is
/// removed and finished.
pub proof fn reports_come_before_the_end(run: JobRunV, result: Result<(), Seq<char>>)
    requires
        run.step is Rebuild,
    ensures
        ({
            let told = advanced(run, JobEventV::Rebuilt(result));
            let heard = advanced(told, JobEventV::Done);
            &&& action_of(run) == (JobActionV::Rebuild {
                name: run.job.name,
                ids: found_ids(run.matched),
            })
            &&& action_of(told) == JobActionV::Notify(report_text(run, result))
            &&& action_of(heard) == JobActionV::Remove(run.job.id)
            &&& action_of(advanced(heard, JobEventV::Done)) == JobActionV::Finish
        }),
{
}

/// What the user hears where nothing can be rebuilt names the playlist and the server.
pub proof fn failures_name_playlist_and_server(run: JobRunV, server: Seq<char>)
    requires
        run.server == Some(server),
    ensures
        contains(all_failed_text(run), run.job.name) && contains(all_failed_text(run), server),
        contains(unreachable_text(run), run.job.name) && contains(unreachable_text(run), server),
        contains(none_found_text(run), run.job.name) && contains(none_found_text(run), server),
        contains(all_failed_text(run), "\": all downloads failed, nothing to rebuild in "@),
        contains(unreachable_text(run), "\" downloaded, but I couldn't reach "@),
        contains(
            none_found_text(run),
            "\": none of the downloaded tracks showed up in the "@,
        ),
{
    let name = run.job.name;
    let (a, b, c) = ("😕 Playlist \""@, "\": all downloads failed, nothing to rebuild in "@, "."@);
    assert(all_failed_text(run) =~= a + name + (b + server + c));
    assert(all_failed_text(run) =~= (a + name) + b + (server + c));
    parts_are_contained(a + name, b, server + c);
    parts_are_contained(a, name, b + server + c);
    parts_are_contained(a + name + b, server, c);
    let (a, b, c) = (
        "⚠️ Playlist \""@,
        "\" downloaded, but I couldn't reach "@,
        ".\nThe job is saved and will retry on the next bot restart."@,
    );
    assert(unreachable_text(run) =~= a + name + (b + server + c));
    assert(unreachable_text(run) =~= (a + name) + b + (server + c));
    parts_are_contained(a + name, b, server + c);
    parts_are_contained(a, name, b + server + c);
    parts_are_contained(a + name + b, server, c);
    let (a, b, c) = (
        "😕 Playlist \""@,
        "\": none of the downloaded tracks showed up in the "@,
        " library, so I couldn't build the playlist."@,
    );
    assert(none_found_text(run) =~= a + name + (b + server + c));
    assert(none_found_text(run) =~= (a + name) + b + (server + c));
    parts_are_contained(a + name, b, server + c);
    parts_are_contained(a, name, b + server + c);
    parts_are_contained(a + name + b, server, c);
}

/// Where every download failed, or there is no server to rebuild the playlist on, none is tried:
/// the user hears of the failures, and the job is removed.
pub proof fn nothing_to_rebuild_ends_the_job(
    run: JobRunV,
    polls: u64,
    statuses: Seq<(Seq<char>, Seq<char>)>,
)
    requires
        run.step == (Step::Poll { polls }),
        !run.progress,
        run.server is Some,
        forall|i: int|
            0 <= i < run.job.tracks.len() ==> status_in(
                statuses,
                (#[trigger] run.job.tracks[i]).uuid,
            ) == Some("failed"@),
    ensures
        ({
            let after = advanced(run, JobEventV::Queue(Some(statuses)));
            let heard = advanced(after, JobEventV::Done);
            &&& action_of(after) == JobActionV::Notify(all_failed_text(run))
            &&& action_of(heard) == JobActionV::Remove(run.job.id)
            &&& after.failed == run.job.tracks
        }),
{
    reveal_strlit("failed");
    reveal_strlit("inQueue");
    reveal_strlit("downloading");
    assert("failed"@[0] == 'f' && "inQueue"@[0] == 'i' && "downloading"@[0] == 'd');
    pending_means_some(run.job.tracks, statuses);
    all_failed(run.job.tracks, statuses);
}

proof fn all_failed(tracks: Seq<JobTrackV>, statuses: Seq<(Seq<char>, Seq<char>)>)
    requires
        forall|i: int|
            0 <= i < tracks.len() ==> status_in(statuses, (#[trigger] tracks[i]).uuid) == Some(
                "failed"@,
            ),
    ensures
        part(tracks, statuses, true) == tracks,
        part(tracks, statuses, false).len() == 0,
    decreases tracks.len(),
{
    if tracks.len() > 0 {
        let fewer = tracks.drop_last();
        assert forall|i: int| 0 <= i < fewer.len() implies status_in(
            statuses,
            (#[trigger] fewer[i]).uuid,
        ) == Some("failed"@) by {
            assert(fewer[i] == tracks[i]);
        }
        all_failed(fewer, statuses);
        assert(tracks[tracks.len() - 1] == tracks.last());
        assert(part(tracks, statuses, true) =~= tracks);
    } else {
        assert(part(tracks, statuses, true) =~= tracks);
    }
}

} // verus!
