//! The download of one file: where it is written, how its progress advances,
//! and in which order its steps follow one another.

use vstd::prelude::*;
use vstd::string::{StrSliceExecFns, StringExecFns};

verus! {

/// The position in `url` at which its last `/`-delimited segment begins: just
/// behind the last `/`, or 0 where there is none.
pub open spec fn segment_start(url: Seq<char>) -> nat
    decreases url.len(),
{
    if url.len() == 0 {
        0
    } else if url.last() == '/' {
        url.len()
    } else {
        segment_start(url.drop_last())
    }
}

/// The last `/`-delimited segment of `url`.
pub open spec fn last_segment(url: Seq<char>) -> Seq<char> {
    url.subrange(segment_start(url) as int, url.len() as int)
}

/// The file name used where a URL has no last segment.
pub open spec fn fallback_name() -> Seq<char> {
    "unknown"@
}

/// The local file name that a download of `url` is written under.
pub open spec fn file_name_of(url: Seq<char>) -> Seq<char> {
    if last_segment(url).len() == 0 {
        fallback_name()
    } else {
        last_segment(url)
    }
}

/// The path of the local file: directory, `/`, file name.
pub open spec fn local_path_of(dir: Seq<char>, url: Seq<char>) -> Seq<char> {
    dir + seq!['/'] + file_name_of(url)
}

/// The last segment is the end of the URL from just behind its last `/`: it
/// holds no `/`, and it begins at the start of the URL or behind a `/`.
pub proof fn lemma_last_segment(url: Seq<char>)
    ensures
        segment_start(url) <= url.len(),
        forall|k: int| segment_start(url) <= k < url.len() ==> url[k] != '/',
        segment_start(url) == 0 || url[segment_start(url) - 1] == '/',
        last_segment(url).len() == url.len() - segment_start(url),
        forall|k: int| 0 <= k < last_segment(url).len() ==> last_segment(url)[k] != '/',
    decreases url.len(),
{
    if url.len() > 0 && url.last() != '/' {
        let front = url.drop_last();
        lemma_last_segment(front);
        assert forall|k: int| segment_start(url) <= k < url.len() implies url[k] != '/' by {
            if k < front.len() {
                assert(front[k] == url[k]);
            }
        }
        if segment_start(url) > 0 {
            assert(front[segment_start(url) - 1] == url[segment_start(url) - 1]);
        }
    }
}

/// A URL with a non-empty last segment is saved under that segment; a URL
/// that is empty or ends in `/` is saved under the fallback name.
pub proof fn lemma_file_name(url: Seq<char>)
    ensures
        url.len() > 0 && url.last() != '/' ==> file_name_of(url) == last_segment(url)
            && file_name_of(url).len() > 0,
        url.len() == 0 || url.last() == '/' ==> file_name_of(url) == fallback_name(),
{
    lemma_last_segment(url);
}

/// How far a download has come: bytes so far, and the total that the server
/// declared.
#[derive(Clone, Copy, Debug, PartialEq, Eq, Structural)]
pub struct DownloadProgress {
    pub downloaded: u64,
    pub total: u64,
}

/// `downloaded + len`, but no more than `total`.
pub open spec fn clamped_sum(downloaded: int, len: int, total: int) -> int {
    if downloaded + len <= total {
        downloaded + len
    } else {
        total
    }
}

impl DownloadProgress {
    /// The bytes so far do not exceed the declared total.
    pub open spec fn wf(self) -> bool {
        self.downloaded <= self.total
    }

    /// The progress after a chunk of `len` bytes.
    pub open spec fn after_chunk(self, len: int) -> DownloadProgress {
        DownloadProgress {
            downloaded: clamped_sum(self.downloaded as int, len, self.total as int) as u64,
            total: self.total,
        }
    }

    /// The progress of a download of `total` bytes that has received nothing.
    pub fn new(total: u64) -> (p: DownloadProgress)
        ensures
            p == (DownloadProgress { downloaded: 0, total }),
            p.wf(),
    {
        DownloadProgress { downloaded: 0, total }
    }

    /// Counts a chunk of `len` bytes: the bytes so far grow by `len`, clamped
    /// to the declared total.
    pub fn advance(self, len: usize) -> (p: DownloadProgress)
        ensures
            p == self.after_chunk(len as int),
            p.total == self.total,
            p.downloaded == clamped_sum(self.downloaded as int, len as int, self.total as int),
            p.wf(),
            self.wf() ==> self.downloaded <= p.downloaded,
    {
        let room: u64 = if self.downloaded < self.total {
            self.total - self.downloaded
        } else {
            0
        };
        if len as u64 >= room {
            DownloadProgress { downloaded: self.total, total: self.total }
        } else {
            DownloadProgress { downloaded: self.downloaded + len as u64, total: self.total }
        }
    }

    /// All declared bytes have arrived.
    pub fn is_complete(&self) -> (b: bool)
        ensures
            b == (self.downloaded >= self.total),
    {
        self.downloaded >= self.total
    }
}

/// Which side of the transfer of a chunk failed.
#[derive(Clone, Copy, Debug, PartialEq, Eq, Structural)]
pub enum StreamFault {
    /// Reading the next chunk of the response body.
    Read,
    /// Appending the chunk to the local file.
    Write,
}

/// Why a download stopped, without the text that names the place.
#[derive(Clone, Copy, Debug, PartialEq, Eq, Structural)]
pub enum DownloadErrorKind {
    /// The output directory could not be created.
    Directory,
    /// The request could not be sent or got no response.
    Request,
    /// The response declared no content length.
    ContentLength,
    /// The local file could not be created.
    FileCreate,
    /// A chunk could not be read or written.
    Stream(StreamFault),
}

/// What a download is waiting for.
#[derive(Clone, Copy, Debug, PartialEq, Eq, Structural)]
pub enum DownloadState {
    /// Whether the output directory exists.
    CheckingDir,
    /// The creation of the output directory.
    CreatingDir,
    /// The response to the request.
    Requesting,
    /// The creation of the local file, for a body of `total` bytes.
    CreatingFile { total: u64 },
    /// The next chunk of the body.
    Transferring(DownloadProgress),
    /// Nothing: the body has ended.
    Finished(DownloadProgress),
    /// Nothing: the download has failed.
    Failed(DownloadErrorKind),
}

/// What came of the action that a state asked for.
#[derive(Clone, Copy, Debug, PartialEq, Eq, Structural)]
pub enum DownloadEvent {
    /// The output directory exists, or does not.
    DirExists(bool),
    /// The directory or the file was created.
    Done,
    /// The directory or the file could not be created, or the request failed.
    Failed,
    /// The response arrived, with the content length that it declares.
    Response(Option<u64>),
    /// A chunk of this many bytes was read and appended to the file.
    Chunk(usize),
    /// The next chunk could not be read.
    ReadFailed,
    /// The chunk could not be appended to the file.
    WriteFailed,
    /// The body has ended.
    EndOfStream,
}

/// What the caller is to do for a state.
#[derive(Clone, Copy, Debug, PartialEq, Eq, Structural)]
pub enum DownloadAction {
    /// Find out whether the output directory exists.
    CheckDir,
    /// Create the output directory and its missing ancestors.
    CreateDir,
    /// Send the GET request.
    Get,
    /// Create the local file, or truncate it.
    CreateFile,
    /// Report this progress, then read the next chunk and append it.
    Transfer(DownloadProgress),
    /// Return the path of the local file.
    Finish,
    /// Return the error.
    Abort(DownloadErrorKind),
}

/// The state that follows `state` when `event` arrives. An event that does
/// not answer what the state is waiting for leaves the state as it is.
pub open spec fn next_state(state: DownloadState, event: DownloadEvent) -> DownloadState {
    match (state, event) {
        (DownloadState::CheckingDir, DownloadEvent::DirExists(true)) => DownloadState::Requesting,
        (DownloadState::CheckingDir, DownloadEvent::DirExists(false)) => DownloadState::CreatingDir,
        (DownloadState::CreatingDir, DownloadEvent::Done) => DownloadState::Requesting,
        (DownloadState::CreatingDir, DownloadEvent::Failed) => DownloadState::Failed(
            DownloadErrorKind::Directory,
        ),
        (DownloadState::Requesting, DownloadEvent::Response(Some(total))) => {
            DownloadState::CreatingFile { total }
        },
        (DownloadState::Requesting, DownloadEvent::Response(None)) => DownloadState::Failed(
            DownloadErrorKind::ContentLength,
        ),
        (DownloadState::Requesting, DownloadEvent::Failed) => DownloadState::Failed(
            DownloadErrorKind::Request,
        ),
        (DownloadState::CreatingFile { total }, DownloadEvent::Done) => DownloadState::Transferring(
            DownloadProgress { downloaded: 0, total },
        ),
        (DownloadState::CreatingFile { .. }, DownloadEvent::Failed) => DownloadState::Failed(
            DownloadErrorKind::FileCreate,
        ),
        (DownloadState::Transferring(p), DownloadEvent::Chunk(len)) => DownloadState::Transferring(
            p.after_chunk(len as int),
        ),
        (DownloadState::Transferring(_), DownloadEvent::ReadFailed) => DownloadState::Failed(
            DownloadErrorKind::Stream(StreamFault::Read),
        ),
        (DownloadState::Transferring(_), DownloadEvent::WriteFailed) => DownloadState::Failed(
            DownloadErrorKind::Stream(StreamFault::Write),
        ),
        (DownloadState::Transferring(p), DownloadEvent::EndOfStream) => DownloadState::Finished(p),
        _ => state,
    }
}

/// The action that `state` asks the caller for.
pub open spec fn action_of(state: DownloadState) -> DownloadAction {
    match state {
        DownloadState::CheckingDir => DownloadAction::CheckDir,
        DownloadState::CreatingDir => DownloadAction::CreateDir,
        DownloadState::Requesting => DownloadAction::Get,
        DownloadState::CreatingFile { .. } => DownloadAction::CreateFile,
        DownloadState::Transferring(p) => DownloadAction::Transfer(p),
        DownloadState::Finished(_) => DownloadAction::Finish,
        DownloadState::Failed(kind) => DownloadAction::Abort(kind),
    }
}

/// The progress that `state` holds, if it holds one.
pub open spec fn progress_of(state: DownloadState) -> Option<DownloadProgress> {
    match state {
        DownloadState::Transferring(p) => Some(p),
        DownloadState::Finished(p) => Some(p),
        _ => None,
    }
}

/// The progress that `state` holds, if any, does not exceed its total.
pub open spec fn state_wf(state: DownloadState) -> bool {
    progress_of(state) matches Some(p) ==> p.wf()
}

/// Where both states hold a progress, the later one has the same total and
/// at least as many bytes.
pub open spec fn progress_kept(before: DownloadState, after: DownloadState) -> bool {
    match (progress_of(before), progress_of(after)) {
        (Some(p), Some(q)) => q.total == p.total && p.downloaded <= q.downloaded,
        _ => true,
    }
}

impl DownloadState {
    /// The state in which every download begins.
    pub fn start() -> (s: DownloadState)
        ensures
            s == DownloadState::CheckingDir,
    {
        DownloadState::CheckingDir
    }

    /// Takes in what came of the last action and gives the state that
    /// follows.
    pub fn step(self, event: DownloadEvent) -> (next: DownloadState)
        ensures
            next == next_state(self, event),
            state_wf(self) ==> state_wf(next) && progress_kept(self, next),
    {
        match self {
            DownloadState::CheckingDir => match event {
                DownloadEvent::DirExists(true) => DownloadState::Requesting,
                DownloadEvent::DirExists(false) => DownloadState::CreatingDir,
                _ => self,
            },
            DownloadState::CreatingDir => match event {
                DownloadEvent::Done => DownloadState::Requesting,
                DownloadEvent::Failed => DownloadState::Failed(DownloadErrorKind::Directory),
                _ => self,
            },
            DownloadState::Requesting => match event {
                DownloadEvent::Response(Some(total)) => DownloadState::CreatingFile { total },
                DownloadEvent::Response(None) => DownloadState::Failed(
                    DownloadErrorKind::ContentLength,
                ),
                DownloadEvent::Failed => DownloadState::Failed(DownloadErrorKind::Request),
                _ => self,
            },
            DownloadState::CreatingFile { total } => match event {
                DownloadEvent::Done => DownloadState::Transferring(DownloadProgress::new(total)),
                DownloadEvent::Failed => DownloadState::Failed(DownloadErrorKind::FileCreate),
                _ => self,
            },
            DownloadState::Transferring(p) => match event {
                DownloadEvent::Chunk(len) => DownloadState::Transferring(p.advance(len)),
                DownloadEvent::ReadFailed => DownloadState::Failed(
                    DownloadErrorKind::Stream(StreamFault::Read),
                ),
                DownloadEvent::WriteFailed => DownloadState::Failed(
                    DownloadErrorKind::Stream(StreamFault::Write),
                ),
                DownloadEvent::EndOfStream => DownloadState::Finished(p),
                _ => self,
            },
            DownloadState::Finished(_) => self,
            DownloadState::Failed(_) => self,
        }
    }

    /// The action that this state asks the caller for.
    pub fn action(self) -> (a: DownloadAction)
        ensures
            a == action_of(self),
    {
        match self {
            DownloadState::CheckingDir => DownloadAction::CheckDir,
            DownloadState::CreatingDir => DownloadAction::CreateDir,
            DownloadState::Requesting => DownloadAction::Get,
            DownloadState::CreatingFile { .. } => DownloadAction::CreateFile,
            DownloadState::Transferring(p) => DownloadAction::Transfer(p),
            DownloadState::Finished(_) => DownloadAction::Finish,
            DownloadState::Failed(kind) => DownloadAction::Abort(kind),
        }
    }
}

/// The state that a download is in after `events` have arrived one after
/// another, beginning in `state`.
pub open spec fn run(state: DownloadState, events: Seq<DownloadEvent>) -> DownloadState
    decreases events.len(),
{
    if events.len() == 0 {
        state
    } else {
        next_state(run(state, events.drop_last()), events.last())
    }
}

/// The bytes that `event` adds to the local file when it arrives in `state`.
pub open spec fn appended(state: DownloadState, event: DownloadEvent) -> nat {
    match (state, event) {
        (DownloadState::Transferring(_), DownloadEvent::Chunk(len)) => len as nat,
        _ => 0,
    }
}

/// The bytes that were appended to the local file while `events` arrived,
/// beginning in `state`.
pub open spec fn delivered(state: DownloadState, events: Seq<DownloadEvent>) -> nat
    decreases events.len(),
{
    if events.len() == 0 {
        0
    } else {
        delivered(state, events.drop_last()) + appended(
            run(state, events.drop_last()),
            events.last(),
        )
    }
}

/// How far along its course a download is.
pub open spec fn stage(state: DownloadState) -> nat {
    match state {
        DownloadState::CheckingDir => 0,
        DownloadState::CreatingDir => 1,
        DownloadState::Requesting => 2,
        DownloadState::CreatingFile { .. } => 3,
        DownloadState::Transferring(_) => 4,
        DownloadState::Finished(_) => 5,
        DownloadState::Failed(_) => 6,
    }
}

/// The caller has been asked to create the local file before this state was
/// reached.
pub open spec fn file_touched(state: DownloadState) -> bool {
    match state {
        DownloadState::CreatingFile { .. } => true,
        DownloadState::Transferring(_) => true,
        DownloadState::Finished(_) => true,
        DownloadState::Failed(DownloadErrorKind::FileCreate) => true,
        DownloadState::Failed(DownloadErrorKind::Stream(_)) => true,
        _ => false,
    }
}

/// Running through `events` is running through the first `k` of them and then
/// through the rest.
pub proof fn lemma_run_split(state: DownloadState, events: Seq<DownloadEvent>, k: int)
    requires
        0 <= k <= events.len(),
    ensures
        run(state, events) == run(run(state, events.take(k)), events.skip(k)),
    decreases events.len(),
{
    if k == events.len() {
        assert(events.take(k) == events);
    } else {
        let front = events.drop_last();
        lemma_run_split(state, front, k);
        assert(front.take(k) == events.take(k));
        assert(events.skip(k).drop_last() == front.skip(k));
    }
}

/// Along any run a download moves forward only, a progress stays within its
/// total, and a later progress has the total of an earlier one and at least
/// its bytes.
pub proof fn lemma_run_keeps(state: DownloadState, events: Seq<DownloadEvent>)
    requires
        state_wf(state),
    ensures
        state_wf(run(state, events)),
        progress_kept(state, run(state, events)),
        stage(state) <= stage(run(state, events)),
        file_touched(state) ==> file_touched(run(state, events)),
    decreases events.len(),
{
    if events.len() > 0 {
        lemma_run_keeps(state, events.drop_last());
    }
}

/// Progress updates never fall and never exceed the declared total: of two
/// states on one run that both hold a progress, the later one holds the same
/// total, at least as many bytes, and no more bytes than the total. This
/// holds whatever the chunks add up to.
pub proof fn lemma_progress_monotone(events: Seq<DownloadEvent>, i: int, j: int)
    requires
        0 <= i <= j <= events.len(),
    ensures
        state_wf(run(DownloadState::CheckingDir, events.take(i))),
        state_wf(run(DownloadState::CheckingDir, events.take(j))),
        progress_kept(
            run(DownloadState::CheckingDir, events.take(i)),
            run(DownloadState::CheckingDir, events.take(j)),
        ),
{
    let earlier = run(DownloadState::CheckingDir, events.take(i));
    lemma_run_keeps(DownloadState::CheckingDir, events.take(i));
    lemma_run_split(DownloadState::CheckingDir, events.take(j), i);
    assert(events.take(j).take(i) == events.take(i));
    lemma_run_keeps(earlier, events.take(j).skip(i));
}

/// The bytes so far are the bytes appended to the file, clamped to the
/// declared total; and before the transfer begins, or where the file was
/// never asked for, nothing has been appended.
pub proof fn lemma_progress_counts_delivered(events: Seq<DownloadEvent>)
    ensures
        match progress_of(run(DownloadState::CheckingDir, events)) {
            Some(p) => p.downloaded == clamped_sum(
                0,
                delivered(DownloadState::CheckingDir, events) as int,
                p.total as int,
            ),
            None => (stage(run(DownloadState::CheckingDir, events)) <= 3 || !file_touched(
                run(DownloadState::CheckingDir, events),
            )) ==> delivered(DownloadState::CheckingDir, events) == 0,
        },
    decreases events.len(),
{
    if events.len() > 0 {
        lemma_progress_counts_delivered(events.drop_last());
        lemma_run_keeps(DownloadState::CheckingDir, events.drop_last());
    }
}

/// A download that ends after the server has delivered at least the declared
/// number of bytes reports exactly the declared total; and where the server
/// delivered exactly that number, the file has received that many bytes.
pub proof fn lemma_completed_download(events: Seq<DownloadEvent>, p: DownloadProgress)
    requires
        run(DownloadState::CheckingDir, events) == DownloadState::Finished(p),
        delivered(DownloadState::CheckingDir, events) >= p.total,
    ensures
        p.downloaded == p.total,
        delivered(DownloadState::CheckingDir, events) == p.total ==> delivered(
            DownloadState::CheckingDir,
            events,
        ) == p.downloaded,
{
    lemma_progress_counts_delivered(events);
}

/// A download that fails for want of a content length has never asked for the
/// local file: up to the failure the caller was asked only to look for the
/// directory, to create it and to send the request, and no byte was written.
pub proof fn lemma_no_file_without_length(events: Seq<DownloadEvent>, k: int)
    requires
        run(DownloadState::CheckingDir, events) == DownloadState::Failed(
            DownloadErrorKind::ContentLength,
        ),
        0 <= k <= events.len(),
    ensures
        !file_touched(run(DownloadState::CheckingDir, events.take(k))),
        action_of(run(DownloadState::CheckingDir, events.take(k))) != DownloadAction::CreateFile,
        !(action_of(run(DownloadState::CheckingDir, events.take(k))) is Transfer),
        action_of(run(DownloadState::CheckingDir, events.take(k))) != DownloadAction::Finish,
        delivered(DownloadState::CheckingDir, events.take(k)) == 0,
{
    let earlier = run(DownloadState::CheckingDir, events.take(k));
    lemma_run_keeps(DownloadState::CheckingDir, events.take(k));
    lemma_run_split(DownloadState::CheckingDir, events, k);
    lemma_run_keeps(earlier, events.skip(k));
    lemma_progress_counts_delivered(events.take(k));
}

/// Why a download failed, with the directory, address or path that it
/// failed on.
#[derive(Clone, Debug, PartialEq, Eq)]
pub enum DownloadError {
    /// The output directory of this path could not be created.
    Directory(String),
    /// The request to this address could not be sent or got no response.
    Request(String),
    /// The response from this address declared no content length.
    ContentLength(String),
    /// The local file of this path could not be created.
    FileCreate(String),
    /// A chunk could not be read or written.
    Stream(StreamFault),
}

pub enum DownloadErrorView {
    Directory(Seq<char>),
    Request(Seq<char>),
    ContentLength(Seq<char>),
    FileCreate(Seq<char>),
    Stream(StreamFault),
}

impl View for DownloadError {
    type V = DownloadErrorView;

    open spec fn view(&self) -> DownloadErrorView {
        match self {
            DownloadError::Directory(dir) => DownloadErrorView::Directory(dir@),
            DownloadError::Request(url) => DownloadErrorView::Request(url@),
            DownloadError::ContentLength(url) => DownloadErrorView::ContentLength(url@),
            DownloadError::FileCreate(path) => DownloadErrorView::FileCreate(path@),
            DownloadError::Stream(fault) => DownloadErrorView::Stream(*fault),
        }
    }
}

/// The error of a given kind for a download of `url` into `dir`.
pub open spec fn error_of(dir: Seq<char>, url: Seq<char>, kind: DownloadErrorKind)
    -> DownloadErrorView {
    match kind {
        DownloadErrorKind::Directory => DownloadErrorView::Directory(dir),
        DownloadErrorKind::Request => DownloadErrorView::Request(url),
        DownloadErrorKind::ContentLength => DownloadErrorView::ContentLength(url),
        DownloadErrorKind::FileCreate => DownloadErrorView::FileCreate(local_path_of(dir, url)),
        DownloadErrorKind::Stream(fault) => DownloadErrorView::Stream(fault),
    }
}

/// The kind of an error.
pub open spec fn kind_of(error: DownloadErrorView) -> DownloadErrorKind {
    match error {
        DownloadErrorView::Directory(_) => DownloadErrorKind::Directory,
        DownloadErrorView::Request(_) => DownloadErrorKind::Request,
        DownloadErrorView::ContentLength(_) => DownloadErrorKind::ContentLength,
        DownloadErrorView::FileCreate(_) => DownloadErrorKind::FileCreate,
        DownloadErrorView::Stream(fault) => DownloadErrorKind::Stream(fault),
    }
}

/// The sentence that reports an error.
pub open spec fn message_of(error: DownloadErrorView) -> Seq<char> {
    match error {
        DownloadErrorView::Directory(dir) => "Failed to create directory '"@ + dir + "'"@,
        DownloadErrorView::Request(url) => "Failed to GET from '"@ + url + "'"@,
        DownloadErrorView::ContentLength(url) => "Failed to get content length from '"@ + url
            + "'"@,
        DownloadErrorView::FileCreate(path) => "Failed to create file '"@ + path + "'"@,
        DownloadErrorView::Stream(StreamFault::Read) => "Error while downloading file"@,
        DownloadErrorView::Stream(StreamFault::Write) => "Error while writing to file"@,
    }
}

/// What a download has come to: nothing yet, the path of the local file, or
/// the error.
pub open spec fn outcome_of(dir: Seq<char>, url: Seq<char>, state: DownloadState) -> Option<
    Result<Seq<char>, DownloadErrorView>,
> {
    match state {
        DownloadState::Finished(_) => Some(Ok(local_path_of(dir, url))),
        DownloadState::Failed(kind) => Some(Err(error_of(dir, url, kind))),
        _ => None,
    }
}

/// The view of an outcome.
pub open spec fn outcome_view(outcome: Option<Result<String, DownloadError>>) -> Option<
    Result<Seq<char>, DownloadErrorView>,
> {
    match outcome {
        Some(Ok(path)) => Some(Ok(path@)),
        Some(Err(e)) => Some(Err(e@)),
        None => None,
    }
}

/// `text` between a prefix and a closing quote.
fn quoted(prefix: &str, text: &str) -> (s: String)
    ensures
        s@ == prefix@ + text@ + "'"@,
{
    let mut s = String::from_str(prefix);
    s.append(text);
    s.append("'");
    s
}

impl DownloadError {
    pub fn kind(&self) -> (k: DownloadErrorKind)
        ensures
            k == kind_of(self@),
    {
        match self {
            DownloadError::Directory(_) => DownloadErrorKind::Directory,
            DownloadError::Request(_) => DownloadErrorKind::Request,
            DownloadError::ContentLength(_) => DownloadErrorKind::ContentLength,
            DownloadError::FileCreate(_) => DownloadErrorKind::FileCreate,
            DownloadError::Stream(fault) => DownloadErrorKind::Stream(*fault),
        }
    }

    /// The sentence that reports this error.
    pub fn message(&self) -> (m: String)
        ensures
            m@ == message_of(self@),
    {
        match self {
            DownloadError::Directory(dir) => quoted("Failed to create directory '", dir.as_str()),
            DownloadError::Request(url) => quoted("Failed to GET from '", url.as_str()),
            DownloadError::ContentLength(url) => quoted(
                "Failed to get content length from '",
                url.as_str(),
            ),
            DownloadError::FileCreate(path) => quoted("Failed to create file '", path.as_str()),
            DownloadError::Stream(StreamFault::Read) => String::from_str(
                "Error while downloading file",
            ),
            DownloadError::Stream(StreamFault::Write) => String::from_str(
                "Error while writing to file",
            ),
        }
    }
}

/// Downloads files into one output directory.
#[derive(Clone, Debug, PartialEq, Eq)]
pub struct Downloader {
    pub output: String,
}

impl Downloader {
    pub fn new(output: &str) -> (d: Downloader)
        ensures
            d.output@ == output@,
    {
        Downloader { output: String::from_str(output) }
    }

    /// The local file name for `url`: its last `/`-delimited segment, or
    /// `unknown` where that segment is empty.
    pub fn file_name(url: &str) -> (name: String)
        ensures
            name@ == file_name_of(url@),
    {
        let n: usize = url.unicode_len();
        let mut start: usize = 0;
        let mut i: usize = 0;
        for c in it: url.chars()
            invariant
                it.seq() == url@,
                n == url@.len(),
                i == it.index(),
                start == segment_start(url@.take(i as int)),
                start <= i,
        {
            assert(url@.take(i + 1).drop_last() == url@.take(i as int));
            i += 1;
            if c == '/' {
                start = i;
            }
        }
        assert(url@.take(n as int) == url@);
        if start == n {
            String::from_str("unknown")
        } else {
            String::from_str(url.substring_char(start, n))
        }
    }

    /// The path of the local file for `url`: the output directory, `/`, and
    /// the file name.
    pub fn local_path(&self, url: &str) -> (path: String)
        ensures
            path@ == local_path_of(self.output@, url@),
    {
        let name = Downloader::file_name(url);
        let mut path = self.output.clone();
        path.append("/");
        path.append(name.as_str());
        proof {
            reveal_strlit("/");
            assert("/"@ == seq!['/']);
        }
        path
    }

    /// The error of a given kind for a download of `url`, with the place
    /// that it failed on.
    pub fn error(&self, url: &str, kind: DownloadErrorKind) -> (e: DownloadError)
        ensures
            e@ == error_of(self.output@, url@, kind),
    {
        match kind {
            DownloadErrorKind::Directory => DownloadError::Directory(self.output.clone()),
            DownloadErrorKind::Request => DownloadError::Request(String::from_str(url)),
            DownloadErrorKind::ContentLength => DownloadError::ContentLength(
                String::from_str(url),
            ),
            DownloadErrorKind::FileCreate => DownloadError::FileCreate(self.local_path(url)),
            DownloadErrorKind::Stream(fault) => DownloadError::Stream(fault),
        }
    }

    /// Takes in what came of the last action of a download and gives the
    /// state that follows, with the action that it asks for.
    pub fn download(&self, state: DownloadState, event: DownloadEvent) -> (r: (
        DownloadState,
        DownloadAction,
    ))
        ensures
            r.0 == next_state(state, event),
            r.1 == action_of(r.0),
            state_wf(state) ==> state_wf(r.0) && progress_kept(state, r.0),
    {
        let next = state.step(event);
        (next, next.action())
    }

    /// What a download of `url` has come to in `state`: `None` while it is
    /// under way, the path of the local file when it has finished, the error
    /// when it has failed.
    pub fn outcome(&self, url: &str, state: DownloadState) -> (r: Option<
        Result<String, DownloadError>,
    >)
        ensures
            outcome_view(r) == outcome_of(self.output@, url@, state),
    {
        match state {
            DownloadState::Finished(_) => Some(Ok(self.local_path(url))),
            DownloadState::Failed(kind) => Some(Err(self.error(url, kind))),
            _ => None,
        }
    }
}

} // verus!
