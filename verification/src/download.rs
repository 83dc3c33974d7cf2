//! Downloads of model weights: the record of a download, the events that move
//! it forward and never back, and the order of the steps of its task.

use crate::checksum::{
    checksum_verdict, lemma_mismatch_names_both, mismatch_text, lowercase_of, sha256_hex_of,
    verdict_text, verify_sha256,
};
use crate::text::{copy_optional, occurs_in, optional_text};
use vstd::prelude::*;
use vstd::string::*;

verus! {

/// Where a download stands.
#[derive(Clone, Copy, Debug, PartialEq, Eq, Structural)]
pub enum DownloadStatus {
    Pending,
    InProgress,
    Completed,
    Failed,
}

/// One download of model weights, as the service keeps it.
#[derive(Clone, Debug, PartialEq, Eq)]
pub struct DownloadState {
    pub id: String,
    pub url: String,
    pub target_path: String,
    pub bytes_downloaded: u64,
    pub total_bytes: Option<u64>,
    pub status: DownloadStatus,
    pub error: Option<String>,
}

/// A download as the contracts see it.
pub struct DownloadView {
    pub id: Seq<char>,
    pub url: Seq<char>,
    pub target_path: Seq<char>,
    pub bytes_downloaded: nat,
    pub total_bytes: Option<u64>,
    pub status: DownloadStatus,
    pub error: Option<Seq<char>>,
}

/// What happens to a download while its task runs.
#[derive(Clone, Debug, PartialEq, Eq)]
pub enum DownloadEvent {
    /// The server has answered with a success status; the size it announced, if any.
    Started { total_bytes: Option<u64> },
    /// A chunk has been written to the target file, which now holds `downloaded`
    /// bytes.
    Progress { downloaded: u64 },
    /// The body has ended and the file is complete, and its checksum, where one was
    /// asked for, is the expected one.
    Completed,
    /// The task has failed, at whatever stage; `message` says how.
    Failed { message: String },
}

/// An event as the contracts see it.
pub enum DownloadEventView {
    Started { total_bytes: Option<u64> },
    Progress { downloaded: u64 },
    Completed,
    Failed { message: Seq<char> },
}

impl View for DownloadEvent {
    type V = DownloadEventView;

    open spec fn view(&self) -> DownloadEventView {
        match *self {
            DownloadEvent::Started { total_bytes } => DownloadEventView::Started { total_bytes },
            DownloadEvent::Progress { downloaded } => DownloadEventView::Progress { downloaded },
            DownloadEvent::Completed => DownloadEventView::Completed,
            DownloadEvent::Failed { message } => DownloadEventView::Failed { message: message@ },
        }
    }
}

impl View for DownloadState {
    type V = DownloadView;

    open spec fn view(&self) -> DownloadView {
        DownloadView {
            id: self.id@,
            url: self.url@,
            target_path: self.target_path@,
            bytes_downloaded: self.bytes_downloaded as nat,
            total_bytes: self.total_bytes,
            status: self.status,
            error: optional_text(self.error),
        }
    }
}

impl DownloadStatus {
    /// A download in this state changes no more.
    pub open spec fn terminal(self) -> bool {
        self == DownloadStatus::Completed || self == DownloadStatus::Failed
    }

    /// How far a download in this state has come: a download never goes back to a
    /// state of lower rank.
    pub open spec fn rank(self) -> nat {
        match self {
            DownloadStatus::Pending => 0,
            DownloadStatus::InProgress => 1,
            DownloadStatus::Completed => 2,
            DownloadStatus::Failed => 2,
        }
    }

    /// Whether a download in this state changes no more.
    pub fn is_terminal(&self) -> (r: bool)
        ensures
            r == self.terminal(),
    {
        match self {
            DownloadStatus::Completed => true,
            DownloadStatus::Failed => true,
            _ => false,
        }
    }
}

impl DownloadView {
    /// A download that has been registered and not begun.
    pub open spec fn pending(id: Seq<char>, url: Seq<char>, target_path: Seq<char>) -> DownloadView {
        DownloadView {
            id,
            url,
            target_path,
            bytes_downloaded: 0,
            total_bytes: None,
            status: DownloadStatus::Pending,
            error: None,
        }
    }

    /// The download after `event`. A pending download begins when the server
    /// answers; a download in progress takes the byte count of each chunk, unless it
    /// would fall, and then completes; a download that is not over yet can fail. Any
    /// other event changes nothing, so that a download that is over stays as it is.
    pub open spec fn after(self, event: DownloadEventView) -> DownloadView {
        match event {
            DownloadEventView::Started { total_bytes } => if self.status
                == DownloadStatus::Pending {
                DownloadView { status: DownloadStatus::InProgress, total_bytes, ..self }
            } else {
                self
            },
            DownloadEventView::Progress { downloaded } => if self.status
                == DownloadStatus::InProgress && downloaded >= self.bytes_downloaded {
                DownloadView { bytes_downloaded: downloaded as nat, ..self }
            } else {
                self
            },
            DownloadEventView::Completed => if self.status == DownloadStatus::InProgress {
                DownloadView { status: DownloadStatus::Completed, ..self }
            } else {
                self
            },
            DownloadEventView::Failed { message } => if !self.status.terminal() {
                DownloadView { status: DownloadStatus::Failed, error: Some(message), ..self }
            } else {
                self
            },
        }
    }

    /// The download after each of `events` in turn.
    pub open spec fn after_all(self, events: Seq<DownloadEventView>) -> DownloadView
        decreases events.len(),
    {
        if events.len() == 0 {
            self
        } else {
            self.after(events[0]).after_all(events.drop_first())
        }
    }
}

/// The event that ends a download whose file was written in full, given the
/// verdict on the file: it completes where the file is accepted, and fails with
/// the verdict's report where it is not.
pub open spec fn closing_event_of(verdict: Result<(), Seq<char>>) -> DownloadEventView {
    match verdict {
        Ok(_) => DownloadEventView::Completed,
        Err(report) => DownloadEventView::Failed { message: report },
    }
}

/// The verdict on what was written: without an expected checksum the file is
/// accepted as it is; with one, its SHA-256 digest must be the expected one.
pub open spec fn verdict_for(expected: Option<Seq<char>>, written: Seq<u8>) -> Result<(), Seq<char>> {
    match expected {
        None => Ok(()),
        Some(sum) => checksum_verdict(sum, sha256_hex_of(written)),
    }
}

impl DownloadState {
    /// Registers a download that has not begun.
    pub fn new(id: String, url: String, target_path: String) -> (record: DownloadState)
        ensures
            record@ == DownloadView::pending(id@, url@, target_path@),
    {
        DownloadState {
            id,
            url,
            target_path,
            bytes_downloaded: 0,
            total_bytes: None,
            status: DownloadStatus::Pending,
            error: None,
        }
    }

    /// A copy of the record.
    pub fn snapshot(&self) -> (copy: DownloadState)
        ensures
            copy == *self,
    {
        DownloadState {
            id: self.id.clone(),
            url: self.url.clone(),
            target_path: self.target_path.clone(),
            bytes_downloaded: self.bytes_downloaded,
            total_bytes: self.total_bytes,
            status: self.status,
            error: copy_optional(&self.error),
        }
    }

    /// Takes note of `event`.
    pub fn apply(&mut self, event: &DownloadEvent)
        ensures
            final(self)@ == old(self)@.after(event@),
    {
        match event {
            DownloadEvent::Started { total_bytes } => {
                if self.status == DownloadStatus::Pending {
                    self.status = DownloadStatus::InProgress;
                    self.total_bytes = *total_bytes;
                }
            },
            DownloadEvent::Progress { downloaded } => {
                if self.status == DownloadStatus::InProgress && *downloaded
                    >= self.bytes_downloaded {
                    self.bytes_downloaded = *downloaded;
                }
            },
            DownloadEvent::Completed => {
                if self.status == DownloadStatus::InProgress {
                    self.status = DownloadStatus::Completed;
                }
            },
            DownloadEvent::Failed { message } => {
                if !self.status.is_terminal() {
                    self.status = DownloadStatus::Failed;
                    self.error = Some(message.clone());
                }
            },
        }
    }
}

/// The byte count of a download after a chunk of `chunk_len` bytes, where it fits
/// 64 bits.
pub fn count_chunk(downloaded: u64, chunk_len: usize) -> (total: Option<u64>)
    ensures
        total == if downloaded + chunk_len <= u64::MAX {
            Some((downloaded + chunk_len) as u64)
        } else {
            None
        },
{
    let len = chunk_len as u64;
    if len <= u64::MAX - downloaded {
        Some(downloaded + len)
    } else {
        None
    }
}

/// The event that ends a download, by the verdict on its file.
pub fn closing_event(verdict: Result<(), String>) -> (event: DownloadEvent)
    ensures
        event@ == closing_event_of(verdict_text(verdict)),
{
    match verdict {
        Ok(_) => DownloadEvent::Completed,
        Err(report) => DownloadEvent::Failed { message: report },
    }
}

/// Judges a download whose file has been written in full: `written` is what the file
/// holds, and `expected_sha256` the checksum to hold it to, if any. The event that
/// comes back ends the download. The file stays where it is, whatever the verdict.
pub fn judge_download(expected_sha256: Option<&str>, written: &[u8]) -> (event: DownloadEvent)
    ensures
        event@ == closing_event_of(
            verdict_for(
                match expected_sha256 {
                    Some(sum) => Some(sum@),
                    None => None,
                },
                written@,
            ),
        ),
{
    let verdict = match expected_sha256 {
        None => Ok(()),
        Some(sum) => verify_sha256(written, sum),
    };
    closing_event(verdict)
}

/// The report of a download that the server refused.
pub open spec fn refused_text(status: Seq<char>) -> Seq<char> {
    "Download failed with status "@ + status
}

/// Words the failure of a download whose request was answered with `status`, which
/// is no success.
pub fn refused_message(status: &str) -> (message: String)
    ensures
        message@ == refused_text(status@),
{
    let mut message = String::from_str("Download failed with status ");
    message.append(status);
    message
}

/// The stage of a download's task at which input or output failed.
#[derive(Clone, Copy, Debug, PartialEq, Eq, Structural)]
pub enum DownloadFault {
    SendRequest,
    CreateDirectory,
    CreateFile,
    ReadChunk,
    WriteChunk,
    Flush,
    OpenForChecksum,
    ReadForChecksum,
}

/// The report of a fault of a download's task.
pub open spec fn download_fault_text(fault: DownloadFault) -> Seq<char> {
    match fault {
        DownloadFault::SendRequest => "Failed to start download"@,
        DownloadFault::CreateDirectory => "Failed to create model directory"@,
        DownloadFault::CreateFile => "Failed to create download file"@,
        DownloadFault::ReadChunk => "Failed to read download chunk"@,
        DownloadFault::WriteChunk => "Failed to write to download file"@,
        DownloadFault::Flush => "Failed to flush download file"@,
        DownloadFault::OpenForChecksum => "Failed to open file for checksum validation"@,
        DownloadFault::ReadForChecksum => "Failed to read file for checksum"@,
    }
}

/// Words the failure of a download at a stage of its task.
pub fn download_fault_message(fault: DownloadFault) -> (message: &'static str)
    ensures
        message@ == download_fault_text(fault),
{
    match fault {
        DownloadFault::SendRequest => "Failed to start download",
        DownloadFault::CreateDirectory => "Failed to create model directory",
        DownloadFault::CreateFile => "Failed to create download file",
        DownloadFault::ReadChunk => "Failed to read download chunk",
        DownloadFault::WriteChunk => "Failed to write to download file",
        DownloadFault::Flush => "Failed to flush download file",
        DownloadFault::OpenForChecksum => "Failed to open file for checksum validation",
        DownloadFault::ReadForChecksum => "Failed to read file for checksum",
    }
}

/// The steps of a download's task, in the order in which they run.
#[derive(Clone, Copy, Debug, PartialEq, Eq, Structural)]
pub enum DownloadStage {
    /// Send the request and look at the status of the answer.
    Request,
    /// Create the target's directory and the target file.
    OpenTarget,
    /// Write the body to the file, chunk by chunk.
    Stream,
    /// Flush the file.
    Flush,
    /// Hash the file and hold the digest against the expected checksum.
    Verify,
}

/// What to do after a step of a download's task has ended.
#[derive(Clone, Copy, Debug, PartialEq, Eq, Structural)]
pub enum DownloadNext {
    /// Run this step next.
    Run(DownloadStage),
    /// The download is complete.
    Complete,
    /// The download has failed. What was written stays on disk.
    Fail,
}

/// What follows a step of a download's task that ended with success (`ok`) or
/// without. Any failure fails the download. The file is verified only where a
/// checksum was given with the request.
pub open spec fn download_next_of(stage: DownloadStage, ok: bool, checksum_given: bool)
    -> DownloadNext {
    if !ok {
        DownloadNext::Fail
    } else {
        match stage {
            DownloadStage::Request => DownloadNext::Run(DownloadStage::OpenTarget),
            DownloadStage::OpenTarget => DownloadNext::Run(DownloadStage::Stream),
            DownloadStage::Stream => DownloadNext::Run(DownloadStage::Flush),
            DownloadStage::Flush => if checksum_given {
                DownloadNext::Run(DownloadStage::Verify)
            } else {
                DownloadNext::Complete
            },
            DownloadStage::Verify => DownloadNext::Complete,
        }
    }
}

/// Decides what follows a step of a download's task.
pub fn download_next(stage: DownloadStage, ok: bool, checksum_given: bool) -> (next: DownloadNext)
    ensures
        next == download_next_of(stage, ok, checksum_given),
{
    if !ok {
        return DownloadNext::Fail;
    }
    match stage {
        DownloadStage::Request => DownloadNext::Run(DownloadStage::OpenTarget),
        DownloadStage::OpenTarget => DownloadNext::Run(DownloadStage::Stream),
        DownloadStage::Stream => DownloadNext::Run(DownloadStage::Flush),
        DownloadStage::Flush => if checksum_given {
            DownloadNext::Run(DownloadStage::Verify)
        } else {
            DownloadNext::Complete
        },
        DownloadStage::Verify => DownloadNext::Complete,
    }
}

/// No event takes a download back: its state never falls in rank, a state that is
/// terminal stays, the byte count never falls, and the identity stays.
pub proof fn lemma_event_is_monotonic(record: DownloadView, event: DownloadEventView)
    ensures
        record.after(event).status.rank() >= record.status.rank(),
        record.status.terminal() ==> record.after(event) == record,
        record.after(event).bytes_downloaded >= record.bytes_downloaded,
        record.after(event).id == record.id,
        record.after(event).status == DownloadStatus::InProgress ==> record.status
            != DownloadStatus::Completed && record.status != DownloadStatus::Failed,
{
}

/// Whatever events arrive, and in whatever order, a download only moves from
/// pending to in progress to completed or failed, never back, and its byte count
/// never falls.
pub proof fn lemma_download_is_monotonic(record: DownloadView, events: Seq<DownloadEventView>)
    ensures
        record.after_all(events).status.rank() >= record.status.rank(),
        record.status.terminal() ==> record.after_all(events) == record,
        record.after_all(events).bytes_downloaded >= record.bytes_downloaded,
        record.after_all(events).id == record.id,
    decreases events.len(),
{
    if events.len() > 0 {
        lemma_event_is_monotonic(record, events[0]);
        lemma_download_is_monotonic(record.after(events[0]), events.drop_first());
    }
}

/// The same holds between any two moments of a download: what it is after more
/// events is no earlier a state, and no smaller a count, than after fewer.
pub proof fn lemma_download_history_is_monotonic(
    record: DownloadView,
    events: Seq<DownloadEventView>,
    earlier: int,
)
    requires
        0 <= earlier <= events.len(),
    ensures
        record.after_all(events).status.rank() >= record.after_all(
            events.take(earlier),
        ).status.rank(),
        record.after_all(events).bytes_downloaded >= record.after_all(
            events.take(earlier),
        ).bytes_downloaded,
        record.after_all(events.take(earlier)).status.terminal() ==> record.after_all(events)
            == record.after_all(events.take(earlier)),
    decreases events.len(),
{
    if earlier == 0 {
        lemma_download_is_monotonic(record, events);
    } else {
        let first = events[0];
        assert(events.take(earlier).drop_first() =~= events.drop_first().take(earlier - 1));
        lemma_download_history_is_monotonic(record.after(first), events.drop_first(), earlier - 1);
    }
}

/// A download whose file was written in full and whose digest is not the expected
/// one ends as failed, with a report that quotes the expected and the actual
/// digest. Nothing else about the download changes: its target stays what it was.
pub proof fn lemma_checksum_mismatch_fails(
    record: DownloadView,
    expected: Seq<char>,
    written: Seq<u8>,
)
    requires
        record.status == DownloadStatus::InProgress,
        sha256_hex_of(written) != lowercase_of(expected),
    ensures
        ({
            let ended = record.after(closing_event_of(verdict_for(Some(expected), written)));
            &&& ended.status == DownloadStatus::Failed
            &&& ended.error == Some(mismatch_text(expected, sha256_hex_of(written)))
            &&& occurs_in(expected, ended.error->0)
            &&& occurs_in(sha256_hex_of(written), ended.error->0)
            &&& ended.target_path == record.target_path
            &&& ended.bytes_downloaded == record.bytes_downloaded
        }),
{
    lemma_mismatch_names_both(expected, sha256_hex_of(written));
}

} // verus!
