//! Downloading a model: which files to fetch, how far along the download is,
//! and how it ends.
//!
//! `DownloadRun` decides; the caller looks at the disk, talks to the network
//! and writes the files. The caller asks `directive` what to do, does it, and
//! reports what happened with `observe`.

use vstd::prelude::*;
use crate::model::{
    file_complete,
    model_ready,
    observed_size,
    ModelError,
    ModelFileView,
    NeuralModel,
    NeuralModelView,
};
use crate::text::{decimal, join_path, spec_decimal, spec_join_path};

verus! {

/// The share of `total` that `downloaded` is, in percent, rounded to the
/// nearest whole number (halves up) and capped at 100. With nothing to
/// download the share is 0 for nothing and 100 for anything.
pub open spec fn spec_progress_percent(downloaded: u64, total: u64) -> u8 {
    if total == 0 {
        if downloaded == 0 {
            0u8
        } else {
            100u8
        }
    } else {
        let rounded = (200 * downloaded + total) / (2 * total);
        if rounded > 100 {
            100u8
        } else {
            rounded as u8
        }
    }
}

/// The progress of a download in percent.
pub fn progress_percent(downloaded: u64, total: u64) -> (percent: u8)
    ensures
        percent == spec_progress_percent(downloaded, total),
        percent <= 100,
{
    if total == 0 {
        return if downloaded == 0 {
            0
        } else {
            100
        };
    }
    let rounded: u128 = (200 * (downloaded as u128) + total as u128) / (2 * (total as u128));
    if rounded > 100 {
        100
    } else {
        rounded as u8
    }
}

/// More bytes never mean less progress, and a complete download stands at
/// 100 percent.
pub proof fn lemma_progress_monotone(fewer: u64, more: u64, total: u64)
    requires
        fewer <= more,
    ensures
        spec_progress_percent(fewer, total) <= spec_progress_percent(more, total),
        spec_progress_percent(more, total) <= 100,
        total > 0 && more >= total ==> spec_progress_percent(more, total) == 100,
        total > 0 ==> spec_progress_percent(0, total) == 0,
{
    if total > 0 {
        let a = (200 * fewer + total) as int;
        let b = (200 * more + total) as int;
        let d = (2 * total) as int;
        assert(a / d <= b / d) by (nonlinear_arith)
            requires
                0 <= a <= b,
                d > 0,
        ;
        if more >= total {
            assert(b / d >= 100) by (nonlinear_arith)
                requires
                    b >= 100 * d,
                    d > 0,
            ;
        }
        let z = total as int;
        assert(z / d == 0) by (nonlinear_arith)
            requires
                0 < z,
                d == 2 * z,
        ;
    }
}

/// The indices below `upto` of the files that are not on disk with their
/// exact size, in manifest order.
pub open spec fn spec_missing(files: Seq<ModelFileView>, observed: Seq<Option<u64>>, upto: int) -> Seq<
    int,
>
    decreases upto,
{
    if upto <= 0 {
        Seq::empty()
    } else {
        let before = spec_missing(files, observed, upto - 1);
        if file_complete(files, observed, upto - 1) {
            before
        } else {
            before.push(upto - 1)
        }
    }
}

/// The files that a download has to fetch.
pub open spec fn spec_files_to_fetch(files: Seq<ModelFileView>, observed: Seq<Option<u64>>) -> Seq<
    int,
> {
    spec_missing(files, observed, files.len() as int)
}

/// The files that a download of `model` has to fetch, given the sizes seen on
/// disk: those that are missing or have the wrong size.
pub fn files_to_fetch(model: &NeuralModel, observed: &Vec<Option<u64>>) -> (out: Vec<usize>)
    ensures
        out@.map_values(|i: usize| i as int) == spec_files_to_fetch(model@.files, observed@),
{
    let mut out: Vec<usize> = Vec::new();
    proof {
        assert(out@.map_values(|i: usize| i as int) =~= spec_missing(model@.files, observed@, 0));
    }
    let mut i: usize = 0;
    while i < model.files.len()
        invariant
            i <= model.files.len(),
            out@.map_values(|i: usize| i as int) == spec_missing(model@.files, observed@, i as int),
        decreases model.files.len() - i,
    {
        let complete = if i < observed.len() {
            match observed[i] {
                Some(size) => size == model.files[i].size,
                None => false,
            }
        } else {
            false
        };
        if !complete {
            let ghost before = out@;
            out.push(i);
            proof {
                assert(out@.map_values(|i: usize| i as int) =~= before.map_values(
                    |i: usize| i as int,
                ).push(i as int));
            }
        }
        i += 1;
    }
    out
}

/// Nothing is missing below `upto` exactly when every file below it is
/// complete, and what is missing is never complete.
proof fn lemma_missing(files: Seq<ModelFileView>, observed: Seq<Option<u64>>, upto: int)
    requires
        0 <= upto <= files.len(),
    ensures
        spec_missing(files, observed, upto).len() == 0 <==> forall|i: int|
            0 <= i < upto ==> file_complete(files, observed, i),
        forall|k: int|
            0 <= k < spec_missing(files, observed, upto).len() ==> {
                let i = #[trigger] spec_missing(files, observed, upto)[k];
                0 <= i < upto && !file_complete(files, observed, i as int)
            },
    decreases upto,
{
    if upto > 0 {
        lemma_missing(files, observed, upto - 1);
        let before = spec_missing(files, observed, upto - 1);
        let all = spec_missing(files, observed, upto);
        if all.len() == 0 {
            assert forall|i: int| 0 <= i < upto implies file_complete(files, observed, i) by {}
        }
        assert forall|k: int| 0 <= k < all.len() implies {
            let i = #[trigger] all[k];
            0 <= i < upto && !file_complete(files, observed, i as int)
        } by {
            if k < before.len() {
                assert(all[k] == before[k]);
            }
        }
    }
}

/// A model is ready exactly when a download has nothing to fetch, and what a
/// download fetches is never a file that is complete on disk. So a download
/// of a complete model asks the network for nothing and touches no file.
pub proof fn lemma_ready_needs_no_fetch(files: Seq<ModelFileView>, observed: Seq<Option<u64>>)
    ensures
        model_ready(files, observed) <==> spec_files_to_fetch(files, observed).len() == 0,
        forall|k: int|
            0 <= k < spec_files_to_fetch(files, observed).len() ==> {
                let i = #[trigger] spec_files_to_fetch(files, observed)[k];
                0 <= i < files.len() && !file_complete(files, observed, i as int)
            },
{
    lemma_missing(files, observed, files.len() as int);
}

/// Where a download stands.
#[derive(Debug, Clone, Copy, PartialEq, Eq, Structural)]
pub enum DownloadPhase {
    /// The file at the index is to be looked at on disk.
    Inspecting,
    /// The file was requested; the response is awaited.
    Requesting,
    /// The response is being written to disk.
    Receiving,
    /// The download is over.
    Done,
}

/// What the caller reports.
#[derive(Debug)]
pub enum DownloadReport {
    /// The file was looked at: its size, or none where it is missing.
    FileSeen { size: Option<u64> },
    /// The server answered with `status`; `status_text` is the status as it
    /// is shown to people.
    Response { status: u16, status_text: String },
    /// The connection failed.
    TransportFailed { detail: String },
    /// The file could not be created or written.
    WriteFailed { detail: String },
    /// `len` more bytes were written.
    Chunk { len: u64 },
    /// The response is complete.
    BodyEnd,
}

/// What the caller does next.
#[derive(Debug)]
pub enum DownloadDirective {
    /// Look at the file at `index` of the manifest on disk and report
    /// `FileSeen`.
    Inspect { index: usize },
    /// Request `url` and report `Response` or `TransportFailed`.
    Fetch { index: usize, url: String },
    /// Write what arrives to the file at `index` of the manifest; report
    /// `Chunk` for each piece, `BodyEnd` at the end, `TransportFailed` or
    /// `WriteFailed` where something breaks.
    Receive { index: usize },
    /// Nothing: the download is over.
    Finish,
}

/// Why a download failed.
pub enum Failure {
    /// The network or the server: the text of `ModelError::DownloadFailed`.
    Download(Seq<char>),
    /// The disk: the text of `ModelError::Io`.
    Disk(Seq<char>),
}

/// A download as plain values.
pub struct DownloadView {
    pub model: NeuralModelView,
    pub index: int,
    pub phase: DownloadPhase,
    pub completed_files: int,
    pub total_downloaded: u64,
    pub file_downloaded: u64,
    pub failure: Option<Failure>,
}

/// `a + b`, capped at the largest `u64`.
pub open spec fn capped_sum(a: u64, b: u64) -> u64 {
    if a + b > u64::MAX {
        u64::MAX
    } else {
        (a + b) as u64
    }
}

/// The location that the file at `index` is fetched from.
pub open spec fn spec_file_url(model: NeuralModelView, index: int) -> Seq<char> {
    spec_join_path(model.base_url, model.files[index].name)
}

/// The text of a refusal by the server.
pub open spec fn spec_http_failure(status_text: Seq<char>, url: Seq<char>) -> Seq<char> {
    "HTTP "@ + status_text + " for "@ + url
}

/// The text for a download that ended before every file was complete.
pub open spec fn spec_cut_short(completed: nat, total: nat) -> Seq<char> {
    "Only "@ + spec_decimal(completed) + "/"@ + spec_decimal(total) + " files downloaded"@
}

/// Whether an HTTP status means success.
pub open spec fn is_success(status: u16) -> bool {
    200 <= status < 300
}

/// The state once the file at the index is done: at the next file, or over
/// where it was the last.
pub open spec fn spec_next_file(run: DownloadView) -> DownloadView {
    if run.index + 1 < run.model.files.len() {
        DownloadView { index: run.index + 1, phase: DownloadPhase::Inspecting, ..run }
    } else {
        DownloadView { index: run.index + 1, phase: DownloadPhase::Done, ..run }
    }
}

/// A download that failed.
pub open spec fn spec_failed(run: DownloadView, failure: Failure) -> DownloadView {
    DownloadView { phase: DownloadPhase::Done, failure: Some(failure), ..run }
}

/// One step of a download: the state after a report, and the progress to
/// announce, if any. A report that does not fit the phase changes nothing.
pub open spec fn spec_step(run: DownloadView, report: DownloadReport) -> (DownloadView, Option<u8>) {
    let file = run.model.files[run.index];
    let total = run.model.size_bytes;
    match (run.phase, report) {
        (DownloadPhase::Inspecting, DownloadReport::FileSeen { size }) => if size == Some(
            file.size,
        ) {
            let downloaded = capped_sum(run.total_downloaded, file.size);
            (
                spec_next_file(
                    DownloadView {
                        completed_files: run.completed_files + 1,
                        total_downloaded: downloaded,
                        ..run
                    },
                ),
                Some(spec_progress_percent(downloaded, total)),
            )
        } else {
            (
                DownloadView { phase: DownloadPhase::Requesting, file_downloaded: 0, ..run },
                None,
            )
        },
        (DownloadPhase::Requesting, DownloadReport::Response { status, status_text }) => if is_success(
            status,
        ) {
            (DownloadView { phase: DownloadPhase::Receiving, ..run }, None)
        } else {
            (
                spec_failed(
                    run,
                    Failure::Download(
                        spec_http_failure(status_text@, spec_file_url(run.model, run.index)),
                    ),
                ),
                None,
            )
        },
        (DownloadPhase::Requesting, DownloadReport::TransportFailed { detail }) => (
            spec_failed(run, Failure::Download(detail@)),
            None,
        ),
        (DownloadPhase::Receiving, DownloadReport::TransportFailed { detail }) => (
            spec_failed(run, Failure::Download(detail@)),
            None,
        ),
        (DownloadPhase::Receiving, DownloadReport::WriteFailed { detail }) => (
            spec_failed(run, Failure::Disk(detail@)),
            None,
        ),
        (DownloadPhase::Receiving, DownloadReport::Chunk { len }) => {
            let received = capped_sum(run.file_downloaded, len);
            (
                DownloadView { file_downloaded: received, ..run },
                Some(spec_progress_percent(capped_sum(run.total_downloaded, received), total)),
            )
        },
        (DownloadPhase::Receiving, DownloadReport::BodyEnd) => (
            spec_next_file(
                DownloadView {
                    completed_files: run.completed_files + 1,
                    total_downloaded: capped_sum(run.total_downloaded, run.file_downloaded),
                    ..run
                },
            ),
            None,
        ),
        _ => (run, None),
    }
}

/// A download before anything has happened.
pub open spec fn spec_start(model: NeuralModelView) -> DownloadView {
    DownloadView {
        model,
        index: 0,
        phase: if model.files.len() == 0 {
            DownloadPhase::Done
        } else {
            DownloadPhase::Inspecting
        },
        completed_files: 0,
        total_downloaded: 0,
        file_downloaded: 0,
        failure: None,
    }
}

/// The state after looking at the first `upto` files of a download that finds
/// each of them as `observed` says.
pub open spec fn spec_inspect_all(model: NeuralModelView, observed: Seq<Option<u64>>, upto: int) -> DownloadView
    decreases upto,
{
    if upto <= 0 {
        spec_start(model)
    } else {
        spec_step(
            spec_inspect_all(model, observed, upto - 1),
            DownloadReport::FileSeen { size: observed_size(observed, upto - 1) },
        ).0
    }
}

/// Downloading a complete model again: looking at each file is all that
/// happens. After every look the download stands at the next file, never at
/// a request, and after the last one it is over without a failure, with
/// every file counted as complete.
pub proof fn lemma_complete_model_is_not_fetched(
    model: NeuralModelView,
    observed: Seq<Option<u64>>,
    upto: int,
)
    requires
        model_ready(model.files, observed),
        0 <= upto <= model.files.len(),
    ensures
        ({
            let run = spec_inspect_all(model, observed, upto);
            &&& run.model == model
            &&& run.index == upto
            &&& run.completed_files == upto
            &&& run.failure is None
            &&& run.phase == if upto < model.files.len() {
                DownloadPhase::Inspecting
            } else {
                DownloadPhase::Done
            }
        }),
    decreases upto,
{
    if upto > 0 {
        lemma_complete_model_is_not_fetched(model, observed, upto - 1);
        assert(file_complete(model.files, observed, upto - 1));
        let before = spec_inspect_all(model, observed, upto - 1);
        let seen = observed_size(observed, upto - 1);
        assert(before.phase == DownloadPhase::Inspecting);
        assert(before.model == model);
        assert(seen == Some(model.files[upto - 1].size));
        let after = spec_step(before, DownloadReport::FileSeen { size: seen }).0;
        assert(spec_inspect_all(model, observed, upto) == after);
    } else {
        assert(spec_inspect_all(model, observed, upto) == spec_start(model));
    }
}

/// A download in progress.
pub struct DownloadRun {
    model: NeuralModel,
    index: usize,
    phase: DownloadPhase,
    completed_files: usize,
    total_downloaded: u64,
    file_downloaded: u64,
    failure: Option<ModelError>,
}

impl View for DownloadRun {
    type V = DownloadView;

    closed spec fn view(&self) -> DownloadView {
        DownloadView {
            model: self.model@,
            index: self.index as int,
            phase: self.phase,
            completed_files: self.completed_files as int,
            total_downloaded: self.total_downloaded,
            file_downloaded: self.file_downloaded,
            failure: match self.failure {
                Some(ModelError::DownloadFailed(s)) => Some(Failure::Download(s@)),
                Some(ModelError::Io(s)) => Some(Failure::Disk(s@)),
                _ => None,
            },
        }
    }
}

impl DownloadRun {
    /// The index stays within the manifest, and short of its end until the
    /// download is over; no more files are complete than were looked at; a
    /// failure is one of the network or of the disk.
    #[verifier::type_invariant]
    spec fn well_formed(&self) -> bool {
        &&& self.index <= self.model.files@.len()
        &&& self.completed_files <= self.index
        &&& self.phase != DownloadPhase::Done ==> self.index < self.model.files@.len()
        &&& match self.failure {
            Some(ModelError::DownloadFailed(_)) => true,
            Some(ModelError::Io(_)) => true,
            Some(_) => false,
            None => true,
        }
    }

    /// Begins a download of `model`.
    pub fn new(model: NeuralModel) -> (run: DownloadRun)
        ensures
            run@ == spec_start(model@),
    {
        let phase = if model.files.len() == 0 {
            DownloadPhase::Done
        } else {
            DownloadPhase::Inspecting
        };
        DownloadRun {
            model,
            index: 0,
            phase,
            completed_files: 0,
            total_downloaded: 0,
            file_downloaded: 0,
            failure: None,
        }
    }

    /// The location that the file at the index is fetched from.
    fn file_url(&self) -> (url: String)
        requires
            self.index < self.model.files@.len(),
        ensures
            url@ == spec_file_url(self@.model, self@.index),
    {
        join_path(self.model.base_url, self.model.files[self.index].name)
    }

    /// What the caller does next.
    pub fn directive(&self) -> (d: DownloadDirective)
        ensures
            match self@.phase {
                DownloadPhase::Inspecting => d matches DownloadDirective::Inspect { index }
                    && index == self@.index,
                DownloadPhase::Requesting => d matches DownloadDirective::Fetch { index, url }
                    && index == self@.index && url@ == spec_file_url(self@.model, self@.index),
                DownloadPhase::Receiving => d matches DownloadDirective::Receive { index }
                    && index == self@.index,
                DownloadPhase::Done => d is Finish,
            },
    {
        proof {
            use_type_invariant(self);
        }
        match self.phase {
            DownloadPhase::Inspecting => DownloadDirective::Inspect { index: self.index },
            DownloadPhase::Requesting => DownloadDirective::Fetch {
                index: self.index,
                url: self.file_url(),
            },
            DownloadPhase::Receiving => DownloadDirective::Receive { index: self.index },
            DownloadPhase::Done => DownloadDirective::Finish,
        }
    }

    /// Whether the download is over.
    pub fn is_done(&self) -> (b: bool)
        ensures
            b == (self@.phase == DownloadPhase::Done),
    {
        match self.phase {
            DownloadPhase::Done => true,
            _ => false,
        }
    }

    /// The number of files that are complete so far.
    pub fn completed_files(&self) -> (n: usize)
        ensures
            n == self@.completed_files,
    {
        self.completed_files
    }

    /// How the download ended: the failure, if there was one; success where
    /// every file is complete.
    pub fn into_result(self) -> (r: Result<(), ModelError>)
        ensures
            match self@.failure {
                Some(Failure::Download(text)) => r matches Err(ModelError::DownloadFailed(s))
                    && s@ == text,
                Some(Failure::Disk(text)) => r matches Err(ModelError::Io(s)) && s@ == text,
                None => if self@.completed_files == self@.model.files.len() {
                    r is Ok
                } else {
                    r matches Err(ModelError::DownloadFailed(s)) && s@ == spec_cut_short(
                        self@.completed_files as nat,
                        self@.model.files.len(),
                    )
                },
            },
    {
        proof {
            use_type_invariant(&self);
        }
        let total = self.model.files.len();
        let completed = self.completed_files;
        match self.failure {
            Some(e) => Err(e),
            None => {
                if completed == total {
                    Ok(())
                } else {
                    let mut text = String::from_str("Only ");
                    text.append(decimal(completed as u64).as_str());
                    text.append("/");
                    text.append(decimal(total as u64).as_str());
                    text.append(" files downloaded");
                    Err(ModelError::DownloadFailed(text))
                }
            },
        }
    }

    /// Counts the file at the index as complete and moves on.
    fn finish_file(&mut self)
        requires
            old(self)@.phase != DownloadPhase::Done,
        ensures
            final(self)@ == spec_next_file(
                DownloadView { completed_files: old(self)@.completed_files + 1, ..old(self)@ },
            ),
    {
        proof {
            use_type_invariant(&*self);
        }
        let count = self.model.files.len();
        self.phase = DownloadPhase::Done;
        self.index = self.index + 1;
        self.completed_files = self.completed_files + 1;
        if self.index < count {
            self.phase = DownloadPhase::Inspecting;
        }
    }

    /// Ends the download with `error`.
    fn fail(&mut self, error: ModelError)
        requires
            error is DownloadFailed || error is Io,
        ensures
            final(self)@ == spec_failed(
                old(self)@,
                match error {
                    ModelError::Io(s) => Failure::Disk(s@),
                    ModelError::DownloadFailed(s) => Failure::Download(s@),
                    _ => arbitrary(),
                },
            ),
    {
        proof {
            use_type_invariant(&*self);
        }
        self.phase = DownloadPhase::Done;
        self.failure = Some(error);
    }

    /// Takes a report and answers with the progress to announce, if any.
    pub fn observe(&mut self, report: DownloadReport) -> (progress: Option<u8>)
        ensures
            (final(self)@, progress) == spec_step(old(self)@, report),
            progress matches Some(p) ==> p <= 100,
    {
        proof {
            use_type_invariant(&*self);
        }
        let total = self.model.size_bytes;
        match (self.phase, report) {
            (DownloadPhase::Inspecting, DownloadReport::FileSeen { size }) => {
                let expected = self.model.files[self.index].size;
                let complete = match size {
                    Some(s) => s == expected,
                    None => false,
                };
                if complete {
                    self.total_downloaded = self.total_downloaded.saturating_add(expected);
                    let percent = progress_percent(self.total_downloaded, total);
                    self.finish_file();
                    Some(percent)
                } else {
                    self.phase = DownloadPhase::Requesting;
                    self.file_downloaded = 0;
                    None
                }
            },
            (DownloadPhase::Requesting, DownloadReport::Response { status, status_text }) => {
                if 200 <= status && status < 300 {
                    self.phase = DownloadPhase::Receiving;
                } else {
                    let url = self.file_url();
                    let mut text = String::from_str("HTTP ");
                    text.append(status_text.as_str());
                    text.append(" for ");
                    text.append(url.as_str());
                    self.fail(ModelError::DownloadFailed(text));
                }
                None
            },
            (DownloadPhase::Requesting, DownloadReport::TransportFailed { detail }) => {
                self.fail(ModelError::DownloadFailed(detail));
                None
            },
            (DownloadPhase::Receiving, DownloadReport::TransportFailed { detail }) => {
                self.fail(ModelError::DownloadFailed(detail));
                None
            },
            (DownloadPhase::Receiving, DownloadReport::WriteFailed { detail }) => {
                self.fail(ModelError::Io(detail));
                None
            },
            (DownloadPhase::Receiving, DownloadReport::Chunk { len }) => {
                self.file_downloaded = self.file_downloaded.saturating_add(len);
                let so_far = self.total_downloaded.saturating_add(self.file_downloaded);
                Some(progress_percent(so_far, total))
            },
            (DownloadPhase::Receiving, DownloadReport::BodyEnd) => {
                self.total_downloaded = self.total_downloaded.saturating_add(self.file_downloaded);
                self.finish_file();
                None
            },
            _ => None,
        }
    }
}

} // verus!
