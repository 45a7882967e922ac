//! The chunked downloader: where the files of a product are fetched from, how one file
//! is fetched with range requests and bounded retries, and when progress is reported.

use crate::dlsite::dto::{DLsiteProductFile, DLsiteProductFiles};
use crate::text::{decimal, parse_u64, parse_u64_spec, push_decimal};
use vstd::prelude::*;
use vstd::string::StringExecFns;

verus! {

/// How many times one file is requested again after a transport error.
pub const MAX_RETRY_COUNT: u32 = 3;

/// Seconds to wait before a file is requested again.
pub const RETRY_BACKOFF_SECS: u64 = 5;

/// The address of the only content file of product `id`.
pub open spec fn single_file_url(id: Seq<char>) -> Seq<char> {
    "https://www.dlsite.com/maniax/download/=/product_id/"@ + id + ".html"@
}

/// The address of content file number `number` (counted from 1) of product `id`.
pub open spec fn numbered_file_url(id: Seq<char>, number: nat) -> Seq<char> {
    "https://www.dlsite.com/maniax/download/=/number/"@ + decimal(number) + "/product_id/"@ + id
        + ".html"@
}

/// The address of the file at `index` (counted from 0) of a manifest of `count` files.
pub open spec fn file_url(id: Seq<char>, count: nat, index: int) -> Seq<char> {
    if count == 1 {
        single_file_url(id)
    } else {
        numbered_file_url(id, (index + 1) as nat)
    }
}

/// The value of the `Range` header that asks for everything from byte `offset` on.
pub open spec fn range_header_spec(offset: u64) -> Seq<char> {
    "bytes="@ + decimal(offset as nat) + "-"@
}

/// The sum of the declared sizes of `files`; `None` where a size is no `u64` in decimal
/// notation or the sum does not fit in a `u64`.
pub open spec fn total_size_spec(files: Seq<DLsiteProductFile>) -> Option<u64>
    decreases files.len(),
{
    if files.len() == 0 {
        Some(0)
    } else {
        match (total_size_spec(files.drop_last()), parse_u64_spec(files.last().file_size@)) {
            (Some(rest), Some(size)) => if rest + size <= u64::MAX {
                Some((rest + size) as u64)
            } else {
                None
            },
            _ => None,
        }
    }
}

/// The addresses from which the files of a manifest are fetched, one per file and in the
/// manifest's order. A single file has one canonical address; several files are addressed
/// by their number, counted from 1.
pub fn resolve_file_urls(id: &str, product_files: &DLsiteProductFiles) -> (urls: Vec<String>)
    ensures
        urls@.len() == product_files.files@.len(),
        forall|i: int|
            0 <= i < urls@.len() ==> (#[trigger] urls@[i])@ == file_url(
                id@,
                product_files.files@.len(),
                i,
            ),
{
    let count = product_files.files.len();
    let mut urls: Vec<String> = Vec::new();
    if count == 1 {
        let mut url = String::from_str("https://www.dlsite.com/maniax/download/=/product_id/");
        url.append(id);
        url.append(".html");
        urls.push(url);
        return urls;
    }
    let mut index: usize = 0;
    while index < count
        invariant
            index <= count,
            count == product_files.files@.len(),
            count != 1,
            urls@.len() == index,
            forall|i: int|
                0 <= i < index ==> (#[trigger] urls@[i])@ == numbered_file_url(id@, (i + 1) as nat),
        decreases count - index,
    {
        let mut url = String::from_str("https://www.dlsite.com/maniax/download/=/number/");
        push_decimal(&mut url, index as u64 + 1);
        url.append("/product_id/");
        url.append(id);
        url.append(".html");
        urls.push(url);
        index += 1;
    }
    urls
}

/// The value of the `Range` header for a request that resumes at byte `offset`.
pub fn range_header(offset: u64) -> (value: String)
    ensures
        value@ == range_header_spec(offset),
{
    let mut value = String::from_str("bytes=");
    push_decimal(&mut value, offset);
    value.append("-");
    value
}

/// The number of bytes that a manifest declares in all, the denominator of progress.
/// `None` where a declared size is not an unsigned decimal number or the sum does not
/// fit.
pub fn total_file_size(product_files: &DLsiteProductFiles) -> (total: Option<u64>)
    ensures
        total == total_size_spec(product_files.files@),
{
    let mut total: u64 = 0;
    let mut index: usize = 0;
    while index < product_files.files.len()
        invariant
            index <= product_files.files@.len(),
            total_size_spec(product_files.files@.take(index as int)) == Some(total),
        decreases product_files.files@.len() - index,
    {
        let ghost before = product_files.files@.take(index as int);
        let ghost upto = product_files.files@.take(index + 1);
        assert(upto.drop_last() =~= before);
        assert(upto.last() == product_files.files@[index as int]);
        let size = match parse_u64(product_files.files[index].file_size.as_str()) {
            Some(size) => size,
            None => {
                proof {
                    lemma_total_size_none(product_files.files@, index + 1);
                }
                return None;
            },
        };
        if size > u64::MAX - total {
            proof {
                lemma_total_size_none(product_files.files@, index + 1);
            }
            return None;
        }
        total = total + size;
        index += 1;
    }
    assert(product_files.files@.take(index as int) =~= product_files.files@);
    Some(total)
}

/// What is to be fetched for a product: the address of every file, the name under which
/// it is kept, and the bytes in all.
#[derive(Debug, Clone)]
pub struct DownloadPlan {
    /// One address per file of the manifest, in the manifest's order.
    pub file_urls: Vec<String>,
    /// The name of every file, in the manifest's order.
    pub file_names: Vec<String>,
    /// The sum of the declared sizes.
    pub total_file_size: u64,
}

/// The manifest declares a size that is no unsigned decimal number, or sizes whose sum
/// no `u64` counts.
#[derive(Clone, Copy, Debug, PartialEq, Eq, Structural)]
pub struct InvalidFileSize;

/// `plan` is the plan of the download of the files `files` of the product `id`.
pub open spec fn is_plan_of(plan: DownloadPlan, id: Seq<char>, files: Seq<DLsiteProductFile>) -> bool {
    &&& plan.file_urls@.len() == files.len()
    &&& plan.file_names@.len() == files.len()
    &&& forall|i: int|
        0 <= i < files.len() ==> (#[trigger] plan.file_urls@[i])@ == file_url(id, files.len(), i)
    &&& forall|i: int|
        0 <= i < files.len() ==> (#[trigger] plan.file_names@[i])@ == files[i].file_name@
    &&& Some(plan.total_file_size) == total_size_spec(files)
}

/// Plans the download of the files of a manifest: their addresses, their names and the
/// denominator of progress. A manifest whose sizes have no sum is refused.
pub fn download_product_files(id: &str, product_files: &DLsiteProductFiles) -> (plan: Result<
    DownloadPlan,
    InvalidFileSize,
>)
    ensures
        match plan {
            Ok(plan) => is_plan_of(plan, id@, product_files.files@),
            Err(_) => total_size_spec(product_files.files@) is None,
        },
{
    let total_file_size = match total_file_size(product_files) {
        Some(total) => total,
        None => {
            return Err(InvalidFileSize);
        },
    };
    let file_urls = resolve_file_urls(id, product_files);
    let mut file_names: Vec<String> = Vec::new();
    let mut i: usize = 0;
    while i < product_files.files.len()
        invariant
            i <= product_files.files@.len(),
            file_names@.len() == i,
            forall|j: int|
                0 <= j < i ==> (#[trigger] file_names@[j])@ == product_files.files@[j].file_name@,
        decreases product_files.files@.len() - i,
    {
        file_names.push(product_files.files[i].file_name.clone());
        i += 1;
    }
    Ok(DownloadPlan { file_urls, file_names, total_file_size })
}

/// Once a prefix of a manifest has no total, no longer prefix has one.
pub proof fn lemma_total_size_none(files: Seq<DLsiteProductFile>, k: int)
    requires
        0 <= k <= files.len(),
        total_size_spec(files.take(k)) is None,
    ensures
        total_size_spec(files) is None,
    decreases files.len() - k,
{
    if k < files.len() {
        assert(files.take(k + 1).drop_last() =~= files.take(k));
        lemma_total_size_none(files, k + 1);
    } else {
        assert(files.take(k) =~= files);
    }
}

/// Where the transfer of one file stands.
#[derive(Clone, Copy, Debug, PartialEq, Eq, Structural)]
pub enum TransferPhase {
    /// Nothing was asked for yet.
    Idle,
    /// A range request is out; its response has not begun.
    Requesting,
    /// A response is being read, chunk by chunk.
    Streaming,
    /// The backoff delay before the next request runs.
    Waiting,
    /// The body has ended; buffered bytes are being written out.
    Flushing,
    /// The file is complete.
    Done,
    /// The transfer was given up.
    Failed,
}

/// What the transport or the file system reports back to a transfer.
#[derive(Clone, Copy, Debug, PartialEq, Eq, Structural)]
pub enum TransferEvent {
    /// The destination file was created and the transfer may begin.
    Start,
    /// The range request was answered and a body follows.
    Connected,
    /// The request, or the reading of the body, failed on the network.
    TransportError,
    /// A chunk of `len` bytes was read and written to the file.
    ChunkWritten { len: u64 },
    /// The body ended.
    StreamEnded,
    /// Writing to the file failed.
    WriteFailed,
    /// Buffered bytes reached the file.
    Flushed,
    /// The backoff delay has passed.
    Waited,
}

/// Why a transfer was given up.
#[derive(Clone, Copy, Debug, PartialEq, Eq, Structural)]
pub enum TransferError {
    /// One more transport error than the retry ceiling allows.
    RetriesExhausted,
    /// The file could not be written.
    Filesystem,
    /// More bytes arrived than a `u64` counts.
    SizeOverflow,
    /// An event arrived that the current phase does not expect.
    UnexpectedEvent,
}

/// What the caller has to do next for a transfer.
#[derive(Clone, Copy, Debug, PartialEq, Eq, Structural)]
pub enum TransferAction {
    /// Send a GET request whose range begins at byte `offset`.
    Request { offset: u64 },
    /// Read the next chunk of the body and write it to the file.
    Receive,
    /// Sleep for `secs` seconds.
    Wait { secs: u64 },
    /// Write buffered bytes out.
    Flush,
    /// The file is complete.
    Finish,
    /// Give the whole download up.
    Abort { error: TransferError },
}

/// The transfer of one file: how many bytes are written, and how many transport errors
/// were met.
#[derive(Clone, Copy, Debug, PartialEq, Eq, Structural)]
pub struct FileTransfer {
    pub phase: TransferPhase,
    /// Bytes written to the file so far.
    pub offset: u64,
    /// Transport errors met so far.
    pub retries: u32,
}

impl FileTransfer {
    /// The state after `event`, and what it asks of the caller.
    pub open spec fn next(self, event: TransferEvent) -> (FileTransfer, TransferAction) {
        match (self.phase, event) {
            (TransferPhase::Idle, TransferEvent::Start) => (
                FileTransfer { phase: TransferPhase::Requesting, ..self },
                TransferAction::Request { offset: self.offset },
            ),
            (TransferPhase::Requesting, TransferEvent::Connected) => (
                FileTransfer { phase: TransferPhase::Streaming, ..self },
                TransferAction::Receive,
            ),
            (TransferPhase::Requesting, TransferEvent::TransportError) | (
                TransferPhase::Streaming,
                TransferEvent::TransportError,
            ) => if self.retries >= MAX_RETRY_COUNT {
                (
                    FileTransfer { phase: TransferPhase::Failed, ..self },
                    TransferAction::Abort { error: TransferError::RetriesExhausted },
                )
            } else {
                (
                    FileTransfer {
                        phase: TransferPhase::Waiting,
                        retries: (self.retries + 1) as u32,
                        ..self
                    },
                    TransferAction::Wait { secs: RETRY_BACKOFF_SECS },
                )
            },
            (TransferPhase::Waiting, TransferEvent::Waited) => (
                FileTransfer { phase: TransferPhase::Requesting, ..self },
                TransferAction::Request { offset: self.offset },
            ),
            (TransferPhase::Streaming, TransferEvent::ChunkWritten { len }) => if self.offset + len
                > u64::MAX {
                (
                    FileTransfer { phase: TransferPhase::Failed, ..self },
                    TransferAction::Abort { error: TransferError::SizeOverflow },
                )
            } else {
                (
                    FileTransfer { offset: (self.offset + len) as u64, ..self },
                    TransferAction::Receive,
                )
            },
            (TransferPhase::Streaming, TransferEvent::StreamEnded) => (
                FileTransfer { phase: TransferPhase::Flushing, ..self },
                TransferAction::Flush,
            ),
            (TransferPhase::Streaming, TransferEvent::WriteFailed) | (
                TransferPhase::Flushing,
                TransferEvent::WriteFailed,
            ) => (
                FileTransfer { phase: TransferPhase::Failed, ..self },
                TransferAction::Abort { error: TransferError::Filesystem },
            ),
            (TransferPhase::Flushing, TransferEvent::Flushed) => (
                FileTransfer { phase: TransferPhase::Done, ..self },
                TransferAction::Finish,
            ),
            _ => (
                FileTransfer { phase: TransferPhase::Failed, ..self },
                TransferAction::Abort { error: TransferError::UnexpectedEvent },
            ),
        }
    }

    /// The state after a run of events, one after the other.
    pub open spec fn run(self, events: Seq<TransferEvent>) -> FileTransfer
        decreases events.len(),
    {
        if events.len() == 0 {
            self
        } else {
            self.next(events[0]).0.run(events.drop_first())
        }
    }

    /// The bytes that a run of events reports as written.
    pub open spec fn written(events: Seq<TransferEvent>) -> nat
        decreases events.len(),
    {
        if events.len() == 0 {
            0
        } else {
            let rest = Self::written(events.drop_first());
            match events[0] {
                TransferEvent::ChunkWritten { len } => len as nat + rest,
                _ => rest,
            }
        }
    }

    /// A transfer of which nothing was written or asked for yet.
    pub fn new() -> (transfer: Self)
        ensures
            transfer == (FileTransfer { phase: TransferPhase::Idle, offset: 0, retries: 0 }),
    {
        FileTransfer { phase: TransferPhase::Idle, offset: 0, retries: 0 }
    }

    /// Takes one event and says what to do next.
    pub fn step(&mut self, event: TransferEvent) -> (action: TransferAction)
        ensures
            (*final(self), action) == old(self).next(event),
    {
        match (self.phase, event) {
            (TransferPhase::Idle, TransferEvent::Start) => {
                self.phase = TransferPhase::Requesting;
                TransferAction::Request { offset: self.offset }
            },
            (TransferPhase::Requesting, TransferEvent::Connected) => {
                self.phase = TransferPhase::Streaming;
                TransferAction::Receive
            },
            (TransferPhase::Requesting, TransferEvent::TransportError) | (
                TransferPhase::Streaming,
                TransferEvent::TransportError,
            ) => {
                if self.retries >= MAX_RETRY_COUNT {
                    self.phase = TransferPhase::Failed;
                    TransferAction::Abort { error: TransferError::RetriesExhausted }
                } else {
                    self.phase = TransferPhase::Waiting;
                    self.retries = self.retries + 1;
                    TransferAction::Wait { secs: RETRY_BACKOFF_SECS }
                }
            },
            (TransferPhase::Waiting, TransferEvent::Waited) => {
                self.phase = TransferPhase::Requesting;
                TransferAction::Request { offset: self.offset }
            },
            (TransferPhase::Streaming, TransferEvent::ChunkWritten { len }) => {
                if len > u64::MAX - self.offset {
                    self.phase = TransferPhase::Failed;
                    TransferAction::Abort { error: TransferError::SizeOverflow }
                } else {
                    self.offset = self.offset + len;
                    TransferAction::Receive
                }
            },
            (TransferPhase::Streaming, TransferEvent::StreamEnded) => {
                self.phase = TransferPhase::Flushing;
                TransferAction::Flush
            },
            (TransferPhase::Streaming, TransferEvent::WriteFailed) | (
                TransferPhase::Flushing,
                TransferEvent::WriteFailed,
            ) => {
                self.phase = TransferPhase::Failed;
                TransferAction::Abort { error: TransferError::Filesystem }
            },
            (TransferPhase::Flushing, TransferEvent::Flushed) => {
                self.phase = TransferPhase::Done;
                TransferAction::Finish
            },
            _ => {
                self.phase = TransferPhase::Failed;
                TransferAction::Abort { error: TransferError::UnexpectedEvent }
            },
        }
    }
}

/// A transfer that is interrupted after `self.offset` bytes and has a retry left waits
/// for the backoff delay and then asks for the rest from exactly that offset: never from
/// zero.
pub proof fn law_retry_resumes_at_offset(transfer: FileTransfer)
    requires
        transfer.phase == TransferPhase::Requesting || transfer.phase == TransferPhase::Streaming,
        transfer.retries < MAX_RETRY_COUNT,
    ensures
        transfer.next(TransferEvent::TransportError).1 == (TransferAction::Wait {
            secs: RETRY_BACKOFF_SECS,
        }),
        transfer.next(TransferEvent::TransportError).0.next(TransferEvent::Waited).1 == (
        TransferAction::Request { offset: transfer.offset }),
        transfer.next(TransferEvent::TransportError).0.next(TransferEvent::Waited).0.offset
            == transfer.offset,
{
}

/// Every request that a transfer sends begins at the number of bytes written so far, and
/// no event but a written chunk changes that number.
pub proof fn law_request_starts_at_written_bytes(transfer: FileTransfer, event: TransferEvent)
    ensures
        transfer.next(event).1 matches TransferAction::Request { offset } ==> offset
            == transfer.offset && transfer.next(event).0.offset == transfer.offset,
        !(event is ChunkWritten) ==> transfer.next(event).0.offset == transfer.offset,
        transfer.next(event).0.offset >= transfer.offset,
{
}

/// The retry ceiling: after `MAX_RETRY_COUNT` transport errors the next one ends the
/// transfer, and a transfer that has failed stays failed.
pub proof fn law_retry_ceiling(transfer: FileTransfer, event: TransferEvent)
    ensures
        (transfer.phase == TransferPhase::Requesting || transfer.phase == TransferPhase::Streaming)
            && transfer.retries >= MAX_RETRY_COUNT ==> transfer.next(
            TransferEvent::TransportError,
        ) == (
            FileTransfer { phase: TransferPhase::Failed, ..transfer },
            TransferAction::Abort { error: TransferError::RetriesExhausted },
        ),
        transfer.phase == TransferPhase::Failed ==> transfer.next(event).0.phase
            == TransferPhase::Failed,
        transfer.next(event).0.retries >= transfer.retries,
{
}

/// A transfer that completes has written exactly the bytes that arrived in chunks,
/// whatever retries lay between them. Where those are the `declared` bytes of the
/// manifest, the file has the declared size.
pub proof fn law_completed_size(transfer: FileTransfer, events: Seq<TransferEvent>, declared: u64)
    requires
        transfer.run(events).phase == TransferPhase::Done,
    ensures
        transfer.run(events).offset == transfer.offset + FileTransfer::written(events),
        transfer.offset + FileTransfer::written(events) == declared ==> transfer.run(events).offset
            == declared,
    decreases events.len(),
{
    if events.len() > 0 {
        let after = transfer.next(events[0]).0;
        let rest = events.drop_first();
        if after.phase == TransferPhase::Failed {
            lemma_failed_stays_failed(after, rest);
        }
        law_completed_size(after, rest, declared);
    }
}

/// No run of events brings a failed transfer back.
pub proof fn lemma_failed_stays_failed(transfer: FileTransfer, events: Seq<TransferEvent>)
    requires
        transfer.phase == TransferPhase::Failed,
    ensures
        transfer.run(events).phase == TransferPhase::Failed,
    decreases events.len(),
{
    if events.len() > 0 {
        lemma_failed_stays_failed(transfer.next(events[0]).0, events.drop_first());
    }
}

/// Progress of a whole download, reported at most once per wall-clock second.
#[derive(Clone, Copy, Debug, PartialEq, Eq, Structural)]
pub struct ProgressMeter {
    /// Bytes that the manifest declares in all.
    pub total: u64,
    /// Bytes received so far, over all files.
    pub progress: u64,
    /// The wall-clock second of the latest chunk; 0 before the first.
    pub last_second: u64,
}

/// One progress report: bytes received so far, and bytes in all.
#[derive(Clone, Copy, Debug, PartialEq, Eq, Structural)]
pub struct ProgressReport {
    pub progress: u64,
    pub total: u64,
}

impl ProgressMeter {
    /// The byte count after `len` more bytes, held at `u64::MAX` where it would not fit.
    pub open spec fn advanced(progress: u64, len: u64) -> u64 {
        if progress + len > u64::MAX {
            u64::MAX
        } else {
            (progress + len) as u64
        }
    }

    /// A meter for a download of `total` bytes, of which nothing was received yet.
    pub fn new(total: u64) -> (meter: Self)
        ensures
            meter == (ProgressMeter { total, progress: 0, last_second: 0 }),
    {
        ProgressMeter { total, progress: 0, last_second: 0 }
    }

    /// The meter after a chunk of `len` bytes received in wall-clock second `now`, and
    /// the report that is due for it: one if and only if `now` is another second than that
    /// of the chunk before.
    pub open spec fn after_chunk(self, len: u64, now: u64) -> (ProgressMeter, Option<ProgressReport>) {
        let progress = Self::advanced(self.progress, len);
        (
            ProgressMeter { total: self.total, progress, last_second: now },
            if now == self.last_second {
                None
            } else {
                Some(ProgressReport { progress, total: self.total })
            },
        )
    }

    /// Counts a chunk of `len` bytes received in wall-clock second `now`, and hands back
    /// the report that is due, if one is.
    pub fn on_chunk(&mut self, len: u64, now: u64) -> (report: Option<ProgressReport>)
        ensures
            (*final(self), report) == old(self).after_chunk(len, now),
    {
        self.progress = if len > u64::MAX - self.progress {
            u64::MAX
        } else {
            self.progress + len
        };
        let due = now != self.last_second;
        self.last_second = now;
        if due {
            Some(ProgressReport { progress: self.progress, total: self.total })
        } else {
            None
        }
    }

    /// The report that closes a download. It is due whatever the clock says.
    pub fn complete(&self) -> (report: ProgressReport)
        ensures
            report == (ProgressReport { progress: self.total, total: self.total }),
    {
        ProgressReport { progress: self.total, total: self.total }
    }
}

/// Reports come at most once per wall-clock second: of two chunks in a row that arrive in
/// the same second, the second one causes no report, and both are counted.
pub proof fn law_one_report_per_second(meter: ProgressMeter, first_len: u64, second_len: u64, now: u64)
    ensures
        meter.after_chunk(first_len, now).0.after_chunk(second_len, now).1 is None,
        meter.after_chunk(first_len, now).0.after_chunk(second_len, now).0.progress
            == ProgressMeter::advanced(ProgressMeter::advanced(meter.progress, first_len), second_len),
{
}

} // verus!
