//! Catalog of voice models and the rules that decide whether a model on disk
//! is usable.
//!
//! Nothing here touches the file system. A caller looks at the disk and hands
//! over what it saw: for each file of a model's manifest, in manifest order,
//! `Some(size)` when the file exists and `None` when it does not.

use vstd::prelude::*;
use crate::text::{decimal, join_path, spec_decimal, spec_join_path, str_equal};

verus! {

/// Errors of model management.
#[derive(Debug)]
pub enum ModelError {
    /// No model of that name is known.
    NotFound(String),
    /// A download did not complete.
    DownloadFailed(String),
    /// The file system refused an operation.
    Io(String),
    /// The model directory cannot be determined or used.
    DirectoryError(String),
    /// A file's checksum does not match the manifest.
    ChecksumError,
    /// The disk is too small for the model; both numbers are megabytes.
    InsufficientSpace { needed: u64, available: u64 },
}

impl ModelError {
    /// The text of `message`.
    pub open spec fn spec_message(self) -> Seq<char> {
        match self {
            ModelError::NotFound(s) => "Model not found: "@ + s@,
            ModelError::DownloadFailed(s) => "Download failed: "@ + s@,
            ModelError::Io(s) => "IO error: "@ + s@,
            ModelError::DirectoryError(s) => "Model directory not accessible: "@ + s@,
            ModelError::ChecksumError => "Invalid model checksum"@,
            ModelError::InsufficientSpace { needed, available } => "Insufficient disk space: need "@
                + spec_decimal(needed as nat) + " MB, have "@ + spec_decimal(available as nat)
                + " MB"@,
        }
    }

    /// A sentence a person can read.
    pub fn message(&self) -> (out: String)
        ensures
            out@ == self.spec_message(),
    {
        match self {
            ModelError::NotFound(s) => String::from_str("Model not found: ").concat(s.as_str()),
            ModelError::DownloadFailed(s) => String::from_str("Download failed: ").concat(
                s.as_str(),
            ),
            ModelError::Io(s) => String::from_str("IO error: ").concat(s.as_str()),
            ModelError::DirectoryError(s) => String::from_str(
                "Model directory not accessible: ",
            ).concat(s.as_str()),
            ModelError::ChecksumError => String::from_str("Invalid model checksum"),
            ModelError::InsufficientSpace { needed, available } => {
                let mut out = String::from_str("Insufficient disk space: need ");
                out.append(decimal(*needed).as_str());
                out.append(" MB, have ");
                out.append(decimal(*available).as_str());
                out.append(" MB");
                out
            },
        }
    }
}

/// Where a model stands between "absent" and "usable".
#[derive(Debug, Clone, Copy, PartialEq, Eq, Structural)]
pub enum ModelStatus {
    /// Not usable: a file is missing or has the wrong size.
    NotDownloaded,
    /// A download is under way; `progress` is a percentage.
    Downloading { progress: u8 },
    /// Every file is present with its exact size.
    Ready,
    /// The last download failed.
    Error,
}

/// One file that a voice model needs.
#[derive(Debug, Clone)]
pub struct ModelFile {
    /// File name, also the last segment of its download location.
    pub name: &'static str,
    /// Exact size in bytes.
    pub size: u64,
    /// Optional SHA-256 checksum.
    pub checksum: Option<&'static str>,
    /// Path relative to the model's directory.
    pub path: &'static str,
}

/// What a `ModelFile` says, as plain values.
pub struct ModelFileView {
    pub name: Seq<char>,
    pub size: u64,
    pub checksum: Option<Seq<char>>,
    pub path: Seq<char>,
}

impl View for ModelFile {
    type V = ModelFileView;

    open spec fn view(&self) -> ModelFileView {
        ModelFileView {
            name: self.name@,
            size: self.size,
            checksum: match self.checksum {
                Some(c) => Some(c@),
                None => None,
            },
            path: self.path@,
        }
    }
}

/// A voice model of the catalog.
#[derive(Debug, Clone)]
pub struct NeuralModel {
    /// Unique identifier, also the name of the model's directory.
    pub id: &'static str,
    /// Name shown to people.
    pub name: &'static str,
    /// Size of the whole download in bytes.
    pub size_bytes: u64,
    /// The manifest: every file the model needs, in download order.
    pub files: Vec<ModelFile>,
    /// Location that the files are fetched from.
    pub base_url: &'static str,
}

/// What a `NeuralModel` says, as plain values.
pub struct NeuralModelView {
    pub id: Seq<char>,
    pub name: Seq<char>,
    pub size_bytes: u64,
    pub files: Seq<ModelFileView>,
    pub base_url: Seq<char>,
}

impl View for NeuralModel {
    type V = NeuralModelView;

    open spec fn view(&self) -> NeuralModelView {
        NeuralModelView {
            id: self.id@,
            name: self.name@,
            size_bytes: self.size_bytes,
            files: Seq::new(self.files@.len(), |i: int| self.files@[i]@),
            base_url: self.base_url@,
        }
    }
}

/// The sum of the declared sizes of `files`.
pub open spec fn manifest_size(files: Seq<ModelFileView>) -> nat
    decreases files.len(),
{
    if files.len() == 0 {
        0
    } else {
        manifest_size(files.drop_last()) + files.last().size as nat
    }
}

/// The catalog entry of the Piper US English voice.
pub open spec fn piper_en_us() -> NeuralModelView {
    NeuralModelView {
        id: "piper-en-us"@,
        name: "Piper US English"@,
        size_bytes: 63_206_179,
        files: seq![
            ModelFileView {
                name: "en_US-lessac-medium.onnx"@,
                size: 63_201_294,
                checksum: None,
                path: "en_US-lessac-medium.onnx"@,
            },
            ModelFileView {
                name: "en_US-lessac-medium.onnx.json"@,
                size: 4_885,
                checksum: None,
                path: "en_US-lessac-medium.onnx.json"@,
            },
        ],
        base_url: "https://huggingface.co/rhasspy/piper-voices/resolve/main/en/en_US/lessac/medium"@,
    }
}

/// The catalog as a function: the entry for `id`, if there is one.
pub open spec fn catalog(id: Seq<char>) -> Option<NeuralModelView> {
    if id == "piper-en-us"@ {
        Some(piper_en_us())
    } else {
        None
    }
}

/// Every catalog entry declares as its total the sum of its files' sizes.
pub proof fn lemma_catalog_sizes_add_up(id: Seq<char>)
    requires
        catalog(id) is Some,
    ensures
        catalog(id)->0.size_bytes == manifest_size(catalog(id)->0.files),
{
    let files = piper_en_us().files;
    assert(files.drop_last() =~= seq![files[0]]);
    assert(files.drop_last().drop_last() =~= Seq::<ModelFileView>::empty());
    reveal_with_fuel(manifest_size, 3);
}

/// The Piper US English voice.
pub fn piper_en_us_model() -> (m: NeuralModel)
    ensures
        m@ == piper_en_us(),
{
    let mut files: Vec<ModelFile> = Vec::new();
    files.push(
        ModelFile {
            name: "en_US-lessac-medium.onnx",
            size: 63_201_294,
            checksum: None,
            path: "en_US-lessac-medium.onnx",
        },
    );
    files.push(
        ModelFile {
            name: "en_US-lessac-medium.onnx.json",
            size: 4_885,
            checksum: None,
            path: "en_US-lessac-medium.onnx.json",
        },
    );
    let m = NeuralModel {
        id: "piper-en-us",
        name: "Piper US English",
        size_bytes: 63_206_179,
        files,
        base_url: "https://huggingface.co/rhasspy/piper-voices/resolve/main/en/en_US/lessac/medium",
    };
    assert(m@.files =~= piper_en_us().files);
    m
}

impl NeuralModel {
    /// Looks a model up in the catalog.
    pub fn from_id(id: &str) -> (r: Option<NeuralModel>)
        ensures
            match r {
                Some(m) => catalog(id@) == Some(m@),
                None => catalog(id@) is None,
            },
    {
        if str_equal(id, "piper-en-us") {
            Some(piper_en_us_model())
        } else {
            None
        }
    }

    /// The name of the model's directory below the model root.
    pub fn dir_name(&self) -> (out: String)
        ensures
            out@ == self@.id,
    {
        String::from_str(self.id)
    }

    /// The download size in whole megabytes, rounded down.
    pub fn size_mb(&self) -> (mb: u64)
        ensures
            mb == self@.size_bytes / 1_000_000,
    {
        self.size_bytes / 1_000_000
    }
}

/// What the disk holds for file `i` of a manifest: `observed[i]`, and
/// "missing" past the end of `observed`.
pub open spec fn observed_size(observed: Seq<Option<u64>>, i: int) -> Option<u64> {
    if 0 <= i < observed.len() {
        observed[i]
    } else {
        None
    }
}

/// File `i` of the manifest is on disk with exactly its declared size.
pub open spec fn file_complete(files: Seq<ModelFileView>, observed: Seq<Option<u64>>, i: int) -> bool {
    observed_size(observed, i) == Some(files[i].size)
}

/// Readiness: every file of the manifest is on disk with exactly its declared
/// size.
pub open spec fn model_ready(files: Seq<ModelFileView>, observed: Seq<Option<u64>>) -> bool {
    forall|i: int| 0 <= i < files.len() ==> file_complete(files, observed, i)
}

/// Shortening one file of a ready model by a single byte, or by more, or
/// changing its size in any other way, makes the model not ready.
pub proof fn lemma_resized_file_breaks_readiness(
    files: Seq<ModelFileView>,
    observed: Seq<Option<u64>>,
    i: int,
    size: u64,
)
    requires
        model_ready(files, observed),
        0 <= i < files.len(),
        size != files[i].size,
    ensures
        i < observed.len(),
        !model_ready(files, observed.update(i, Some(size))),
{
    assert(file_complete(files, observed, i));
    assert(!file_complete(files, observed.update(i, Some(size)), i));
}

/// Removing one file of a ready model makes the model not ready.
pub proof fn lemma_missing_file_breaks_readiness(
    files: Seq<ModelFileView>,
    observed: Seq<Option<u64>>,
    i: int,
)
    requires
        model_ready(files, observed),
        0 <= i < files.len(),
    ensures
        i < observed.len(),
        !model_ready(files, observed.update(i, None)),
{
    assert(file_complete(files, observed, i));
    assert(!file_complete(files, observed.update(i, None), i));
}

/// The sum of `sizes`, capped at the largest `u64`.
pub open spec fn capped_total(sizes: Seq<u64>) -> nat
    decreases sizes.len(),
{
    if sizes.len() == 0 {
        0
    } else {
        let sum = capped_total(sizes.drop_last()) + sizes.last();
        if sum > u64::MAX {
            u64::MAX as nat
        } else {
            sum as nat
        }
    }
}

/// The model directory below a data directory: `<data>/pastel-hn/models`.
pub open spec fn spec_models_below(data_dir: Seq<char>) -> Seq<char> {
    spec_join_path(spec_join_path(data_dir, "pastel-hn"@), "models"@)
}

/// The model directory for the directories the platform reports: below the
/// data directory if there is one, else below `.local/share` in the home
/// directory, else none.
pub open spec fn spec_model_dir(data_dir: Option<Seq<char>>, home_dir: Option<Seq<char>>) -> Option<
    Seq<char>,
> {
    match data_dir {
        Some(d) => Some(spec_models_below(d)),
        None => match home_dir {
            Some(h) => Some(spec_models_below(spec_join_path(h, ".local/share"@))),
            None => None,
        },
    }
}

/// The characters of an optional string.
pub open spec fn text_of(s: Option<String>) -> Option<Seq<char>> {
    match s {
        Some(t) => Some(t@),
        None => None,
    }
}

/// The platform's per-user data directory, as `dirs::data_dir` reports it. It
/// depends on the environment, so nothing is claimed of the result.
#[verifier::external_body]
fn platform_data_dir() -> Option<String> {
    dirs::data_dir().map(|p| p.to_string_lossy().into_owned())
}

/// The user's home directory, as `dirs::home_dir` reports it. It depends on
/// the environment, so nothing is claimed of the result.
#[verifier::external_body]
fn platform_home_dir() -> Option<String> {
    dirs::home_dir().map(|p| p.to_string_lossy().into_owned())
}

/// Knows where models live on disk and judges what a caller saw there.
pub struct ModelManager {
    model_dir: String,
}

impl View for ModelManager {
    type V = Seq<char>;

    /// The model root directory.
    closed spec fn view(&self) -> Seq<char> {
        self.model_dir@
    }
}

impl ModelManager {
    /// A manager rooted at the platform's model directory. Creating the
    /// directory on disk is the caller's part.
    pub fn new() -> (r: Result<ModelManager, ModelError>)
        ensures
            match r {
                Ok(m) => exists|base: Seq<char>| m@ == spec_models_below(base),
                Err(e) => e matches ModelError::DirectoryError(s) && s@
                    == "Cannot determine data directory"@,
            },
    {
        match Self::get_model_dir() {
            Ok(model_dir) => Ok(ModelManager { model_dir }),
            Err(e) => Err(e),
        }
    }

    /// A manager rooted at `model_dir`.
    pub fn with_model_dir(model_dir: &str) -> (m: ModelManager)
        ensures
            m@ == model_dir@,
    {
        ModelManager { model_dir: String::from_str(model_dir) }
    }

    /// The root directory of this manager.
    pub fn model_dir(&self) -> (out: &str)
        ensures
            out@ == self@,
    {
        self.model_dir.as_str()
    }

    /// The model directory for what the platform reports.
    pub fn model_dir_from(data_dir: Option<String>, home_dir: Option<String>) -> (r: Result<
        String,
        ModelError,
    >)
        ensures
            match r {
                Ok(dir) => spec_model_dir(text_of(data_dir), text_of(home_dir)) == Some(dir@),
                Err(e) => data_dir is None && home_dir is None && (e matches ModelError::DirectoryError(
                    s,
                ) && s@ == "Cannot determine data directory"@),
            },
    {
        let base = match data_dir {
            Some(d) => d,
            None => match home_dir {
                Some(h) => join_path(h.as_str(), ".local/share"),
                None => {
                    return Err(
                        ModelError::DirectoryError(
                            String::from_str("Cannot determine data directory"),
                        ),
                    );
                },
            },
        };
        let app_dir = join_path(base.as_str(), "pastel-hn");
        Ok(join_path(app_dir.as_str(), "models"))
    }

    /// The platform's model directory. Which directory comes back depends on
    /// the environment; it always ends in `pastel-hn/models`.
    pub fn get_model_dir() -> (r: Result<String, ModelError>)
        ensures
            match r {
                Ok(dir) => exists|base: Seq<char>| dir@ == spec_models_below(base),
                Err(e) => e matches ModelError::DirectoryError(s) && s@
                    == "Cannot determine data directory"@,
            },
    {
        let data_dir = platform_data_dir();
        let home_dir = platform_home_dir();
        let ghost data = text_of(data_dir);
        let ghost home = text_of(home_dir);
        let r = Self::model_dir_from(data_dir, home_dir);
        proof {
            if r is Ok {
                let base = match data {
                    Some(d) => d,
                    None => spec_join_path(home->0, ".local/share"@),
                };
                assert(r->Ok_0@ == spec_models_below(base));
            }
        }
        r
    }

    /// The directory of `model`: the root, then the model's identifier.
    pub fn get_model_path(&self, model: &NeuralModel) -> (out: String)
        ensures
            out@ == spec_join_path(self@, model@.id),
    {
        join_path(self.model_dir.as_str(), model.id)
    }

    /// Where each file of the manifest lives, in manifest order. These are
    /// the paths whose sizes `is_model_ready` wants to be told.
    pub fn manifest_paths(&self, model: &NeuralModel) -> (out: Vec<String>)
        ensures
            out@.len() == model@.files.len(),
            forall|i: int|
                0 <= i < out@.len() ==> (#[trigger] out@[i])@ == spec_join_path(
                    spec_join_path(self@, model@.id),
                    model@.files[i].path,
                ),
    {
        let dir = self.get_model_path(model);
        let mut out: Vec<String> = Vec::new();
        let mut i: usize = 0;
        while i < model.files.len()
            invariant
                i <= model.files.len(),
                out@.len() == i,
                dir@ == spec_join_path(self@, model@.id),
                forall|k: int|
                    0 <= k < i ==> (#[trigger] out@[k])@ == spec_join_path(
                        dir@,
                        model@.files[k].path,
                    ),
            decreases model.files.len() - i,
        {
            out.push(join_path(dir.as_str(), model.files[i].path));
            i += 1;
        }
        out
    }

    /// Whether `model` can be loaded, given the sizes seen on disk.
    pub fn is_model_ready(&self, model: &NeuralModel, observed: &Vec<Option<u64>>) -> (ready: bool)
        ensures
            ready == model_ready(model@.files, observed@),
    {
        let mut i: usize = 0;
        while i < model.files.len()
            invariant
                i <= model.files.len(),
                forall|k: int| 0 <= k < i ==> file_complete(model@.files, observed@, k),
            decreases model.files.len() - i,
        {
            let complete = if i < observed.len() {
                match observed[i] {
                    Some(size) => size == model.files[i].size,
                    None => false,
                }
            } else {
                false
            };
            if !complete {
                assert(!file_complete(model@.files, observed@, i as int));
                return false;
            }
            i += 1;
        }
        true
    }

    /// `Ready` for a ready model, `NotDownloaded` otherwise.
    pub fn get_model_status(&self, model: &NeuralModel, observed: &Vec<Option<u64>>) -> (status:
        ModelStatus)
        ensures
            status == if model_ready(model@.files, observed@) {
                ModelStatus::Ready
            } else {
                ModelStatus::NotDownloaded
            },
    {
        if self.is_model_ready(model, observed) {
            ModelStatus::Ready
        } else {
            ModelStatus::NotDownloaded
        }
    }

    /// The directory to remove in order to delete `model`: the model's
    /// directory if it exists, nothing if it is already gone.
    pub fn delete_model(&self, model: &NeuralModel, exists: bool) -> (target: Option<String>)
        ensures
            match target {
                Some(dir) => exists && dir@ == spec_join_path(self@, model@.id),
                None => !exists,
            },
    {
        if exists {
            Some(self.get_model_path(model))
        } else {
            None
        }
    }

    /// Disk usage: the sum of the sizes of all files below the model root,
    /// capped at the largest `u64`.
    pub fn get_total_size(&self, file_sizes: &Vec<u64>) -> (total: u64)
        ensures
            total == capped_total(file_sizes@),
    {
        let mut total: u64 = 0;
        let mut i: usize = 0;
        while i < file_sizes.len()
            invariant
                i <= file_sizes.len(),
                total == capped_total(file_sizes@.take(i as int)),
            decreases file_sizes.len() - i,
        {
            proof {
                assert(file_sizes@.take(i + 1).drop_last() =~= file_sizes@.take(i as int));
            }
            total = total.saturating_add(file_sizes[i]);
            i += 1;
        }
        proof {
            assert(file_sizes@.take(i as int) =~= file_sizes@);
        }
        total
    }

    /// The path of `file_name` inside the model's directory, if the caller
    /// found the file there.
    pub fn get_model_file_path(&self, model: &NeuralModel, file_name: &str, exists: bool) -> (path:
        Option<String>)
        ensures
            match path {
                Some(p) => exists && p@ == spec_join_path(
                    spec_join_path(self@, model@.id),
                    file_name@,
                ),
                None => !exists,
            },
    {
        if exists {
            let dir = self.get_model_path(model);
            Some(join_path(dir.as_str(), file_name))
        } else {
            None
        }
    }
}

} // verus!
