//! The synthesis engine's decisions: which model to load, what to hand to the
//! phonemizer and to inference, and when it is speaking.
//!
//! The engine holds no session and plays no sound. A caller runs the outside
//! work (reading files, the phonemizer process, inference, the audio device)
//! and asks the engine at each point what comes next.
//!
//! Rates and inference scales are fixed-point numbers: rates in thousandths
//! (`1000` is normal speed), scales in millionths.

use vstd::prelude::*;
use crate::chunk::{chunk_text, spec_chunks, string_texts};
use crate::model::{
    catalog,
    model_ready,
    spec_models_below,
    ModelError,
    ModelFileView,
    ModelManager,
    NeuralModel,
};
use crate::normalize::{normalize, regex_compiles, spec_normalize, URL_PATTERN};
use crate::phoneme::{
    emitted_symbols,
    has_usable_symbols,
    map_phonemes,
    spec_phoneme_ids,
    PhonemeMap,
};
use crate::text::{
    decimal,
    ends_with,
    join_path,
    spec_decimal,
    spec_ends_with,
    spec_join_path,
    spec_trim,
    str_equal,
    trim,
};

verus! {

/// The slowest rate, half speed.
pub const MIN_RATE_MILLI: u32 = 500;

/// The fastest rate, double speed.
pub const MAX_RATE_MILLI: u32 = 2000;

/// Normal speed.
pub const NORMAL_RATE_MILLI: u32 = 1000;

/// The sample rate assumed while no model configuration is loaded.
pub const DEFAULT_SAMPLE_RATE: u32 = 22050;

/// The program that turns text into phonemes.
pub const PHONEMIZER_PROGRAM: &'static str = "espeak-ng";

/// The name of the tensor of phoneme ids.
pub const INPUT_TENSOR: &'static str = "input";

/// The name of the tensor that holds the number of phoneme ids.
pub const INPUT_LENGTHS_TENSOR: &'static str = "input_lengths";

/// The name of the tensor of noise scale, length scale and noise weight.
pub const SCALES_TENSOR: &'static str = "scales";

/// The number of threads that inference runs on.
pub const INFERENCE_THREADS: usize = 4;

/// Errors of synthesis.
#[derive(Debug)]
pub enum SynthesisError {
    /// The model is absent from disk or not loaded into memory.
    ModelNotLoaded(String),
    /// The neural runtime failed.
    InferenceError(String),
    /// The text cannot be synthesized.
    InvalidInput(String),
    /// The audio could not be produced or played.
    AudioError(String),
    /// Model management failed.
    Model(ModelError),
    /// The neural runtime reported an error of its own.
    Ort(String),
    /// The phonemizer is missing, failed, or produced nothing usable.
    PhonemeError(String),
    /// The model's configuration is missing or malformed.
    ConfigError(String),
    /// A speaking operation is already in progress.
    Busy,
}

impl SynthesisError {
    /// The text of `message`.
    pub open spec fn spec_message(self) -> Seq<char> {
        match self {
            SynthesisError::ModelNotLoaded(s) => "Model not loaded: "@ + s@,
            SynthesisError::InferenceError(s) => "ONNX inference error: "@ + s@,
            SynthesisError::InvalidInput(s) => "Invalid input text: "@ + s@,
            SynthesisError::AudioError(s) => "Audio generation error: "@ + s@,
            SynthesisError::Model(e) => "Model error: "@ + e.spec_message(),
            SynthesisError::Ort(s) => "ONNX runtime error: "@ + s@,
            SynthesisError::PhonemeError(s) => "Phoneme conversion error: "@ + s@,
            SynthesisError::ConfigError(s) => "Config parse error: "@ + s@,
            SynthesisError::Busy => "Synthesis engine is busy"@,
        }
    }

    /// A sentence a person can read.
    pub fn message(&self) -> (out: String)
        ensures
            out@ == self.spec_message(),
    {
        match self {
            SynthesisError::ModelNotLoaded(s) => String::from_str("Model not loaded: ").concat(
                s.as_str(),
            ),
            SynthesisError::InferenceError(s) => String::from_str("ONNX inference error: ").concat(
                s.as_str(),
            ),
            SynthesisError::InvalidInput(s) => String::from_str("Invalid input text: ").concat(
                s.as_str(),
            ),
            SynthesisError::AudioError(s) => String::from_str("Audio generation error: ").concat(
                s.as_str(),
            ),
            SynthesisError::Model(e) => String::from_str("Model error: ").concat(
                e.message().as_str(),
            ),
            SynthesisError::Ort(s) => String::from_str("ONNX runtime error: ").concat(s.as_str()),
            SynthesisError::PhonemeError(s) => String::from_str(
                "Phoneme conversion error: ",
            ).concat(s.as_str()),
            SynthesisError::ConfigError(s) => String::from_str("Config parse error: ").concat(
                s.as_str(),
            ),
            SynthesisError::Busy => String::from_str("Synthesis engine is busy"),
        }
    }
}

/// `rate_milli` brought into the range from half to double speed.
pub open spec fn spec_clamp_rate(rate_milli: u32) -> u32 {
    if rate_milli < MIN_RATE_MILLI {
        MIN_RATE_MILLI
    } else if rate_milli > MAX_RATE_MILLI {
        MAX_RATE_MILLI
    } else {
        rate_milli
    }
}

/// Brings a rate into the range from half to double speed.
pub fn clamp_rate(rate_milli: u32) -> (r: u32)
    ensures
        r == spec_clamp_rate(rate_milli),
        MIN_RATE_MILLI <= r <= MAX_RATE_MILLI,
{
    if rate_milli < MIN_RATE_MILLI {
        MIN_RATE_MILLI
    } else if rate_milli > MAX_RATE_MILLI {
        MAX_RATE_MILLI
    } else {
        rate_milli
    }
}

/// The length scale handed to inference: the model's own, divided by the
/// rate. The result is in millionths, rounded down.
pub open spec fn spec_effective_length_scale(length_scale_micro: u32, rate_milli: u32) -> int {
    (length_scale_micro * 1000) / spec_clamp_rate(rate_milli) as int
}

/// The length scale handed to inference at `rate_milli`, which is clamped
/// first.
pub fn effective_length_scale(length_scale_micro: u32, rate_milli: u32) -> (r: u64)
    ensures
        r == spec_effective_length_scale(length_scale_micro, rate_milli),
{
    let rate: u64 = clamp_rate(rate_milli) as u64;
    let scaled: u64 = length_scale_micro as u64 * 1000;
    scaled / rate
}

/// A faster rate never gives a longer length scale, whatever the two rates
/// were before clamping.
pub proof fn lemma_rate_monotone(length_scale_micro: u32, slower: u32, faster: u32)
    requires
        slower <= faster,
    ensures
        spec_effective_length_scale(length_scale_micro, faster) <= spec_effective_length_scale(
            length_scale_micro,
            slower,
        ),
        spec_clamp_rate(slower) <= spec_clamp_rate(faster),
        MIN_RATE_MILLI <= spec_clamp_rate(slower),
        spec_clamp_rate(faster) <= MAX_RATE_MILLI,
{
    let n = (length_scale_micro * 1000) as int;
    let a = spec_clamp_rate(slower) as int;
    let b = spec_clamp_rate(faster) as int;
    assert(n / b <= n / a) by (nonlinear_arith)
        requires
            0 <= n,
            0 < a <= b,
    ;
}

/// Between two different rates inside the range, the faster one gives the
/// strictly shorter length scale, for every model whose own length scale is
/// at least four thousandths. Below that, two rates can round to the same
/// millionth; as exact fractions the two quotients still differ.
pub proof fn lemma_rate_strict(length_scale_micro: u32, slower: u32, faster: u32)
    requires
        MIN_RATE_MILLI <= slower < faster <= MAX_RATE_MILLI,
        length_scale_micro > 0,
    ensures
        length_scale_micro >= 4000 ==> spec_effective_length_scale(length_scale_micro, faster)
            < spec_effective_length_scale(length_scale_micro, slower),
        (length_scale_micro * 1000) * slower < (length_scale_micro * 1000) * faster,
{
    let n = (length_scale_micro * 1000) as int;
    let a = slower as int;
    let b = faster as int;
    assert(n * a < n * b) by (nonlinear_arith)
        requires
            0 < n,
            a < b,
    ;
    if length_scale_micro >= 4000 {
        assert(b * (a + 1) <= 2000 * 2000) by (nonlinear_arith)
            requires
                0 < a < b <= 2000,
        ;
        assert(n / b < n / a) by (nonlinear_arith)
            requires
                0 < a < b,
                n >= b * (a + 1),
        {
            let q = n / b;
            assert(q * b <= n);
            assert(q >= a + 1);
            assert(q * a + q <= q * b);
            assert((q + 1) * a <= q * a + q);
            assert((q + 1) * a <= n);
            assert(n / a >= q + 1);
        }
    }
}

/// Settings of the engine.
#[derive(Debug, Clone)]
pub struct NeuralTtsConfig {
    /// Speech rate in thousandths, from 500 to 2000.
    pub rate_milli: u32,
    /// Voice identifier.
    pub voice_id: String,
    /// Model to use.
    pub model_id: String,
    /// Whether to use GPU acceleration.
    pub use_gpu: bool,
}

impl Default for NeuralTtsConfig {
    fn default() -> (c: NeuralTtsConfig)
        ensures
            c.rate_milli == NORMAL_RATE_MILLI,
            c.voice_id@ == "default"@,
            c.model_id@ == "piper-en-us"@,
            c.use_gpu,
    {
        NeuralTtsConfig {
            rate_milli: NORMAL_RATE_MILLI,
            voice_id: String::from_str("default"),
            model_id: String::from_str("piper-en-us"),
            use_gpu: true,
        }
    }
}

/// The phonemizer voice used where a model's configuration names none.
pub fn default_espeak_voice() -> (voice: String)
    ensures
        voice@ == "en-us"@,
{
    String::from_str("en-us")
}

/// What the engine keeps of a model's configuration file.
pub struct PiperConfig {
    /// Samples per second of the model's output.
    pub sample_rate: u32,
    /// Voice selector for the phonemizer.
    pub espeak_voice: String,
    /// Noise scale in millionths.
    pub noise_scale_micro: u32,
    /// Length scale in millionths.
    pub length_scale_micro: u32,
    /// Noise weight in millionths.
    pub noise_w_micro: u32,
    /// The model's table from phonetic symbols to ids.
    pub phoneme_id_map: PhonemeMap,
}

/// The three tensors of one inference call. `input` has shape
/// `[1, input.len()]`, `input_lengths` has shape `[1]` and holds that length,
/// `scales` has shape `[3]`.
#[derive(Debug)]
pub struct InferenceRequest {
    /// The phoneme ids.
    pub input: Vec<i64>,
    /// The shape of `input`: one row of ids.
    pub input_shape: Vec<usize>,
    /// The number of ids.
    pub input_lengths: Vec<i64>,
    /// The shape of `input_lengths`.
    pub lengths_shape: Vec<usize>,
    /// Noise scale, effective length scale and noise weight, in millionths.
    pub scales_micro: Vec<u64>,
    /// The shape of `scales_micro`.
    pub scales_shape: Vec<usize>,
}

/// What to do in order to have a model loaded.
#[derive(Debug)]
pub enum LoadPlan {
    /// The model is the loaded one: nothing to do.
    AlreadyLoaded,
    /// Read the configuration at `config_path`, create a session from the
    /// weights at `weights_path`, then report with `model_loaded`.
    Load { config_path: String, weights_path: String },
}

/// The state of the engine.
#[derive(Debug, Clone, Copy, PartialEq, Eq, Structural)]
pub enum EngineState {
    /// No model is loaded and nothing is spoken.
    Idle,
    /// A model is being loaded.
    Loading,
    /// A model is loaded and nothing is spoken.
    Ready,
    /// A speaking operation is in progress.
    Speaking,
}

/// The index of the first file of `files` whose name ends with `suffix`, or
/// `files.len()` where there is none.
pub open spec fn spec_find_file(files: Seq<ModelFileView>, suffix: Seq<char>) -> int
    decreases files.len(),
{
    if files.len() == 0 {
        0
    } else if spec_ends_with(files[0].name, suffix) {
        0
    } else {
        1 + spec_find_file(files.drop_first(), suffix)
    }
}

/// The first file with the suffix is found where no earlier file has it.
proof fn lemma_find_file(files: Seq<ModelFileView>, suffix: Seq<char>, i: int)
    requires
        0 <= i <= files.len(),
        forall|k: int| 0 <= k < i ==> !spec_ends_with(#[trigger] files[k].name, suffix),
        i < files.len() ==> spec_ends_with(files[i].name, suffix),
    ensures
        spec_find_file(files, suffix) == i,
    decreases i,
{
    if i > 0 {
        assert(!spec_ends_with(files[0].name, suffix));
        let rest = files.drop_first();
        assert forall|k: int| 0 <= k < i - 1 implies !spec_ends_with(
            #[trigger] rest[k].name,
            suffix,
        ) by {
            assert(rest[k] == files[k + 1]);
        }
        lemma_find_file(rest, suffix, i - 1);
    }
}

/// The first file whose name ends with `suffix`.
fn find_file(model: &NeuralModel, suffix: &str) -> (r: Option<usize>)
    ensures
        match r {
            Some(i) => i < model@.files.len() && i == spec_find_file(model@.files, suffix@),
            None => spec_find_file(model@.files, suffix@) == model@.files.len(),
        },
{
    let mut i: usize = 0;
    while i < model.files.len()
        invariant
            i <= model.files.len(),
            forall|k: int|
                0 <= k < i ==> !spec_ends_with(#[trigger] model@.files[k].name, suffix@),
        decreases model.files.len() - i,
    {
        if ends_with(model.files[i].name, suffix) {
            proof {
                lemma_find_file(model@.files, suffix@, i as int);
            }
            return Some(i);
        }
        i += 1;
    }
    proof {
        lemma_find_file(model@.files, suffix@, i as int);
    }
    None
}

/// The engine's settings and state as plain values.
pub struct EngineView {
    pub rate_milli: u32,
    pub voice_id: Seq<char>,
    pub model_id: Seq<char>,
    pub use_gpu: bool,
    pub model_dir: Seq<char>,
    pub loading: Option<Seq<char>>,
    pub loaded_model: Option<Seq<char>>,
    pub is_speaking: bool,
    pub piper_config: Option<PiperConfig>,
}

/// The neural synthesis engine.
pub struct NeuralTtsEngine {
    config: NeuralTtsConfig,
    model_manager: ModelManager,
    loading: Option<String>,
    loaded_model: Option<String>,
    is_speaking: bool,
    piper_config: Option<PiperConfig>,
}

impl View for NeuralTtsEngine {
    type V = EngineView;

    closed spec fn view(&self) -> EngineView {
        EngineView {
            rate_milli: self.config.rate_milli,
            voice_id: self.config.voice_id@,
            model_id: self.config.model_id@,
            use_gpu: self.config.use_gpu,
            model_dir: self.model_manager@,
            loading: match self.loading {
                Some(m) => Some(m@),
                None => None,
            },
            loaded_model: match self.loaded_model {
                Some(m) => Some(m@),
                None => None,
            },
            is_speaking: self.is_speaking,
            piper_config: self.piper_config,
        }
    }
}

/// The state that a view of the engine stands for.
pub open spec fn spec_state(e: EngineView) -> EngineState {
    if e.is_speaking {
        EngineState::Speaking
    } else if e.loading is Some {
        EngineState::Loading
    } else if e.loaded_model is Some {
        EngineState::Ready
    } else {
        EngineState::Idle
    }
}

/// The message of a model that is not on disk.
pub open spec fn spec_not_downloaded(model_id: Seq<char>) -> Seq<char> {
    "Model "@ + model_id + " not downloaded"@
}

/// What loading a model takes, and what stands in its way.
pub enum LoadDecision {
    /// The catalog has no such model.
    UnknownModel,
    /// A file of the model is missing on disk or has the wrong size.
    NotDownloaded,
    /// The model is the loaded one.
    AlreadyLoaded,
    /// The manifest names no configuration file.
    NoConfigFile,
    /// The manifest names no weights file.
    NoWeightsFile,
    /// Load it: the manifest indices of its configuration and weights files.
    Load { config_at: int, weights_at: int },
}

/// The decision on loading `model_id`, in this order: the model must be in
/// the catalog; the loaded model needs nothing, whatever is on disk; any
/// other must be ready on disk and needs a file whose name ends in `.json`
/// and one whose name ends in `.onnx`.
pub open spec fn spec_load_decision(
    loaded_model: Option<Seq<char>>,
    model_id: Seq<char>,
    observed: Seq<Option<u64>>,
) -> LoadDecision {
    match catalog(model_id) {
        None => LoadDecision::UnknownModel,
        Some(model) => {
            let config_at = spec_find_file(model.files, ".json"@);
            let weights_at = spec_find_file(model.files, ".onnx"@);
            if loaded_model == Some(model_id) {
                LoadDecision::AlreadyLoaded
            } else if !model_ready(model.files, observed) {
                LoadDecision::NotDownloaded
            } else if config_at >= model.files.len() {
                LoadDecision::NoConfigFile
            } else if weights_at >= model.files.len() {
                LoadDecision::NoWeightsFile
            } else {
                LoadDecision::Load { config_at, weights_at }
            }
        },
    }
}

impl NeuralTtsEngine {
    /// An idle engine with default settings, rooted at the platform's model
    /// directory.
    pub fn new() -> (r: Result<NeuralTtsEngine, SynthesisError>)
        ensures
            match r {
                Ok(e) => {
                    &&& e@.rate_milli == NORMAL_RATE_MILLI
                    &&& e@.voice_id == "default"@
                    &&& e@.model_id == "piper-en-us"@
                    &&& e@.use_gpu
                    &&& e@.loading is None
                    &&& e@.loaded_model is None
                    &&& !e@.is_speaking
                    &&& e@.piper_config is None
                    &&& exists|base: Seq<char>| e@.model_dir == spec_models_below(base)
                },
                Err(e) => e matches SynthesisError::Model(ModelError::DirectoryError(s)) && s@
                    == "Cannot determine data directory"@,
            },
    {
        match ModelManager::new() {
            Ok(model_manager) => Ok(Self::with_manager(model_manager)),
            Err(e) => Err(SynthesisError::Model(e)),
        }
    }

    /// An idle engine with default settings that keeps its models where
    /// `model_manager` says.
    pub fn with_manager(model_manager: ModelManager) -> (e: NeuralTtsEngine)
        ensures
            e@.rate_milli == NORMAL_RATE_MILLI,
            e@.voice_id == "default"@,
            e@.model_id == "piper-en-us"@,
            e@.use_gpu,
            e@.model_dir == model_manager@,
            e@.loading is None,
            e@.loaded_model is None,
            !e@.is_speaking,
            e@.piper_config is None,
    {
        NeuralTtsEngine {
            config: NeuralTtsConfig::default(),
            model_manager,
            loading: None,
            loaded_model: None,
            is_speaking: false,
            piper_config: None,
        }
    }

    /// The engine's settings.
    pub fn config(&self) -> (c: &NeuralTtsConfig)
        ensures
            c.rate_milli == self@.rate_milli,
            c.voice_id@ == self@.voice_id,
            c.model_id@ == self@.model_id,
            c.use_gpu == self@.use_gpu,
    {
        &self.config
    }

    /// The manager of the engine's model directory.
    pub fn model_manager(&self) -> (m: &ModelManager)
        ensures
            m@ == self@.model_dir,
    {
        &self.model_manager
    }

    /// The configuration of the loaded model.
    pub fn piper_config(&self) -> (c: Option<&PiperConfig>)
        ensures
            match c {
                Some(p) => self@.piper_config == Some(*p),
                None => self@.piper_config is None,
            },
    {
        self.piper_config.as_ref()
    }

    /// The state of the engine.
    pub fn state(&self) -> (s: EngineState)
        ensures
            s == spec_state(self@),
    {
        if self.is_speaking {
            EngineState::Speaking
        } else if self.loading.is_some() {
            EngineState::Loading
        } else if self.loaded_model.is_some() {
            EngineState::Ready
        } else {
            EngineState::Idle
        }
    }

    /// Whether a speaking operation is in progress.
    pub fn is_speaking(&self) -> (b: bool)
        ensures
            b == self@.is_speaking,
    {
        self.is_speaking
    }

    /// Whether `model_id` is the loaded model.
    pub fn has_loaded(&self, model_id: &str) -> (b: bool)
        ensures
            b == (self@.loaded_model == Some(model_id@)),
    {
        match &self.loaded_model {
            Some(loaded) => str_equal(loaded.as_str(), model_id),
            None => false,
        }
    }

    /// Whether a model is loaded.
    pub fn is_loaded(&self) -> (b: bool)
        ensures
            b == (self@.loaded_model is Some),
    {
        self.loaded_model.is_some()
    }

    /// The sample rate of the audio the engine produces: the loaded model's,
    /// or the default while none is loaded.
    pub fn sample_rate(&self) -> (rate: u32)
        ensures
            rate == match self@.piper_config {
                Some(c) => c.sample_rate,
                None => DEFAULT_SAMPLE_RATE,
            },
    {
        match &self.piper_config {
            Some(c) => c.sample_rate,
            None => DEFAULT_SAMPLE_RATE,
        }
    }

    /// Whether the configured model is in the catalog and ready on disk.
    /// `observed` holds the sizes seen for the model returned by
    /// `NeuralModel::from_id` for the configured model id.
    pub fn is_available(&self, observed: &Vec<Option<u64>>) -> (b: bool)
        ensures
            b == match catalog(self@.model_id) {
                Some(model) => model_ready(model.files, observed@),
                None => false,
            },
    {
        match NeuralModel::from_id(self.config.model_id.as_str()) {
            Some(model) => self.model_manager.is_model_ready(&model, observed),
            None => false,
        }
    }

    /// Sets the speech rate, clamped to the range from half to double speed.
    pub fn set_rate(&mut self, rate_milli: u32)
        ensures
            final(self)@ == (EngineView {
                rate_milli: spec_clamp_rate(rate_milli),
                ..old(self)@
            }),
    {
        self.config.rate_milli = clamp_rate(rate_milli);
    }

    /// Clears the speaking flag. A playback loop that polls the flag halts
    /// within one poll interval.
    pub fn stop(&mut self)
        ensures
            final(self)@ == (EngineView { is_speaking: false, ..old(self)@ }),
    {
        self.is_speaking = false;
    }

    /// Decides what loading `model_id` takes. Loading the loaded model is a
    /// no-op: the answer is `AlreadyLoaded` without a look at `observed`, so
    /// a caller need not look at the disk for it. While the answer is
    /// `LoadPlan::Load`, the engine is `Loading` until `model_loaded` or
    /// `load_failed` is called; any other answer leaves the engine as it was.
    pub fn plan_load(&mut self, model_id: &str, observed: &Vec<Option<u64>>) -> (r: Result<
        LoadPlan,
        SynthesisError,
    >)
        ensures
            match spec_load_decision(old(self)@.loaded_model, model_id@, observed@) {
                LoadDecision::UnknownModel => {
                    &&& r matches Err(SynthesisError::ModelNotLoaded(s)) && s@ == model_id@
                    &&& final(self)@ == old(self)@
                },
                LoadDecision::NotDownloaded => {
                    &&& r matches Err(SynthesisError::ModelNotLoaded(s)) && s@
                        == spec_not_downloaded(model_id@)
                    &&& final(self)@ == old(self)@
                },
                LoadDecision::AlreadyLoaded => {
                    &&& r matches Ok(LoadPlan::AlreadyLoaded)
                    &&& final(self)@ == old(self)@
                },
                LoadDecision::NoConfigFile => {
                    &&& r matches Err(SynthesisError::ConfigError(s)) && s@
                        == "No config JSON in model"@
                    &&& final(self)@ == old(self)@
                },
                LoadDecision::NoWeightsFile => {
                    &&& r matches Err(SynthesisError::ModelNotLoaded(s)) && s@
                        == "No ONNX file in model"@
                    &&& final(self)@ == old(self)@
                },
                LoadDecision::Load { config_at, weights_at } => {
                    let model = catalog(model_id@)->0;
                    let dir = spec_join_path(old(self)@.model_dir, model.id);
                    &&& r matches Ok(LoadPlan::Load { config_path, weights_path }) && config_path@
                        == spec_join_path(dir, model.files[config_at].name) && weights_path@
                        == spec_join_path(dir, model.files[weights_at].name)
                    &&& final(self)@ == (EngineView { loading: Some(model_id@), ..old(self)@ })
                },
            },
    {
        let model = match NeuralModel::from_id(model_id) {
            Some(m) => m,
            None => {
                return Err(SynthesisError::ModelNotLoaded(String::from_str(model_id)));
            },
        };
        if self.has_loaded(model_id) {
            return Ok(LoadPlan::AlreadyLoaded);
        }
        if !self.model_manager.is_model_ready(&model, observed) {
            let mut text = String::from_str("Model ");
            text.append(model_id);
            text.append(" not downloaded");
            return Err(SynthesisError::ModelNotLoaded(text));
        }
        let config_at = match find_file(&model, ".json") {
            Some(i) => i,
            None => {
                return Err(
                    SynthesisError::ConfigError(String::from_str("No config JSON in model")),
                );
            },
        };
        let weights_at = match find_file(&model, ".onnx") {
            Some(i) => i,
            None => {
                return Err(
                    SynthesisError::ModelNotLoaded(String::from_str("No ONNX file in model")),
                );
            },
        };
        let dir = self.model_manager.get_model_path(&model);
        let config_path = join_path(dir.as_str(), model.files[config_at].name);
        let weights_path = join_path(dir.as_str(), model.files[weights_at].name);
        self.loading = Some(String::from_str(model_id));
        Ok(LoadPlan::Load { config_path, weights_path })
    }

    /// Records that the model being loaded is in memory: its configuration
    /// replaces the previous one, and it becomes the loaded and the
    /// configured model. Without a load in progress nothing changes and the
    /// answer is `false`.
    pub fn model_loaded(&mut self, config: PiperConfig) -> (accepted: bool)
        ensures
            accepted == (old(self)@.loading is Some),
            match old(self)@.loading {
                Some(id) => final(self)@ == (EngineView {
                    loading: None,
                    loaded_model: Some(id),
                    model_id: id,
                    piper_config: Some(config),
                    ..old(self)@
                }),
                None => final(self)@ == old(self)@,
            },
    {
        match self.loading.take() {
            Some(id) => {
                self.config.model_id = id.clone();
                self.loaded_model = Some(id);
                self.piper_config = Some(config);
                true
            },
            None => false,
        }
    }

    /// Records that the load in progress failed: the engine returns to the
    /// state it had before `plan_load`.
    pub fn load_failed(&mut self)
        ensures
            final(self)@ == (EngineView { loading: None, ..old(self)@ }),
    {
        self.loading = None;
    }
}

/// How the phonemizer process ended.
#[derive(Debug)]
pub enum PhonemizerOutcome {
    /// The process could not be started; the text says why.
    Unavailable(String),
    /// The process ran and exited.
    Exited { success: bool, stdout: String, stderr: String },
}

/// The phonemes, or the error, that a phonemizer run stands for.
pub open spec fn spec_phonemes_from(outcome: PhonemizerOutcome) -> Result<Seq<char>, Seq<char>> {
    match outcome {
        PhonemizerOutcome::Unavailable(detail) => Err(
            "Failed to run espeak-ng (is it installed?): "@ + detail@,
        ),
        PhonemizerOutcome::Exited { success, stdout, stderr } => if success {
            Ok(spec_trim(stdout@))
        } else {
            Err("espeak-ng failed: "@ + stderr@)
        },
    }
}

/// Reads the result of a phonemizer run: the trimmed output of a successful
/// run, a `PhonemeError` for any other.
pub fn phonemes_from_outcome(outcome: PhonemizerOutcome) -> (r: Result<String, SynthesisError>)
    ensures
        match r {
            Ok(phonemes) => spec_phonemes_from(outcome) == Ok::<Seq<char>, Seq<char>>(phonemes@),
            Err(e) => e matches SynthesisError::PhonemeError(s) && spec_phonemes_from(outcome)
                == Err::<Seq<char>, Seq<char>>(s@),
        },
{
    match outcome {
        PhonemizerOutcome::Unavailable(detail) => Err(
            SynthesisError::PhonemeError(
                String::from_str("Failed to run espeak-ng (is it installed?): ").concat(
                    detail.as_str(),
                ),
            ),
        ),
        PhonemizerOutcome::Exited { success, stdout, stderr } => {
            if success {
                Ok(trim(stdout.as_str()))
            } else {
                Err(
                    SynthesisError::PhonemeError(
                        String::from_str("espeak-ng failed: ").concat(stderr.as_str()),
                    ),
                )
            }
        },
    }
}

/// The voice handed to the phonemizer: the loaded model's, or `en-us` while
/// none is loaded.
pub open spec fn spec_phonemizer_voice(e: EngineView) -> Seq<char> {
    match e.piper_config {
        Some(c) => c.espeak_voice@,
        None => "en-us"@,
    }
}

/// The shapes of an inference call, for error messages.
pub open spec fn spec_shapes_text(ids: nat) -> Seq<char> {
    " (input [1, "@ + spec_decimal(ids) + "], input_lengths [1], scales [3])"@
}

/// The request for `ids` under `config` at `rate_milli`.
pub open spec fn request_matches(
    request: InferenceRequest,
    ids: Seq<i64>,
    config: PiperConfig,
    rate_milli: u32,
) -> bool {
    &&& request.input@ == ids
    &&& request.input_shape@ == seq![1usize, ids.len() as usize]
    &&& request.input_lengths@ == seq![ids.len() as i64]
    &&& request.lengths_shape@ == seq![1usize]
    &&& request.scales_micro@ == seq![
        config.noise_scale_micro as u64,
        spec_effective_length_scale(config.length_scale_micro, rate_milli) as u64,
        config.noise_w_micro as u64,
    ]
    &&& request.scales_shape@ == seq![3usize]
}

impl NeuralTtsEngine {
    /// Brings `text` into the form the phonemizer takes: white space
    /// collapsed, web addresses removed, ends trimmed. This succeeds for
    /// every text where the web-address pattern compiles, and for none where
    /// it does not.
    pub fn preprocess_text(&self, text: &str) -> (r: Result<String, SynthesisError>)
        ensures
            r is Ok <==> regex_compiles(URL_PATTERN@),
            match r {
                Ok(s) => spec_normalize(text@) == Some(s@),
                Err(e) => spec_normalize(text@) is None && (e matches SynthesisError::InvalidInput(s)
                    && s@ == "Web address pattern refused"@),
            },
    {
        match normalize(text) {
            Some(s) => Ok(s),
            None => Err(
                SynthesisError::InvalidInput(String::from_str("Web address pattern refused")),
            ),
        }
    }

    /// Cuts `text` into chunks of at most 500 characters at sentence
    /// boundaries.
    pub fn chunk_text(&self, text: &str) -> (chunks: Vec<String>)
        ensures
            string_texts(chunks@) == spec_chunks(text@),
    {
        chunk_text(text)
    }

    /// The arguments of the phonemizer process for `text`: phonetic output,
    /// quiet, the voice, the text.
    pub fn phonemizer_args(&self, text: &str) -> (args: Vec<String>)
        ensures
            args@.len() == 5,
            args@[0]@ == "--ipa"@,
            args@[1]@ == "-q"@,
            args@[2]@ == "-v"@,
            args@[3]@ == spec_phonemizer_voice(self@),
            args@[4]@ == text@,
    {
        let voice = match &self.piper_config {
            Some(c) => c.espeak_voice.clone(),
            None => default_espeak_voice(),
        };
        let mut args: Vec<String> = Vec::new();
        args.push(String::from_str("--ipa"));
        args.push(String::from_str("-q"));
        args.push(String::from_str("-v"));
        args.push(voice);
        args.push(String::from_str(text));
        args
    }

    /// Maps a phoneme string to the loaded model's ids. Fails with
    /// `ConfigError` while no model is loaded, and with `PhonemeError` where
    /// the string holds no usable symbol: none of its characters has an
    /// entry or is white space, or not a single id comes out. The markers
    /// alone do not make an utterance.
    pub fn phonemes_to_ids(&self, phonemes: &str) -> (r: Result<Vec<i64>, SynthesisError>)
        ensures
            match self@.piper_config {
                None => r matches Err(SynthesisError::ConfigError(s)) && s@
                    == "Piper config not loaded"@,
                Some(c) => {
                    if !has_usable_symbols(c.phoneme_id_map@, phonemes@) {
                        r matches Err(SynthesisError::PhonemeError(s)) && s@
                            == "No phoneme IDs generated"@
                    } else {
                        r matches Ok(out) && out@ == spec_phoneme_ids(
                            c.phoneme_id_map@,
                            phonemes@,
                        )
                    }
                },
            },
    {
        let config = match &self.piper_config {
            Some(c) => c,
            None => {
                return Err(
                    SynthesisError::ConfigError(String::from_str("Piper config not loaded")),
                );
            },
        };
        if emitted_symbols(&config.phoneme_id_map, phonemes) == 0 {
            return Err(SynthesisError::PhonemeError(String::from_str("No phoneme IDs generated")));
        }
        let ids = map_phonemes(&config.phoneme_id_map, phonemes);
        if ids.len() == 0 {
            return Err(SynthesisError::PhonemeError(String::from_str("No phoneme IDs generated")));
        }
        Ok(ids)
    }

    /// Builds the tensors of one inference call from a phoneme string. Where
    /// the string holds no usable symbol the answer is the `PhonemeError` of
    /// `phonemes_to_ids` and no request exists, so no inference runs on it.
    pub fn prepare_inference(&self, phonemes: &str) -> (r: Result<InferenceRequest, SynthesisError>)
        ensures
            match self@.piper_config {
                None => r matches Err(SynthesisError::ConfigError(s)) && s@
                    == "Piper config not loaded"@,
                Some(c) => {
                    let ids = spec_phoneme_ids(c.phoneme_id_map@, phonemes@);
                    if !has_usable_symbols(c.phoneme_id_map@, phonemes@) {
                        r matches Err(SynthesisError::PhonemeError(s)) && s@
                            == "No phoneme IDs generated"@
                    } else if ids.len() > i64::MAX {
                        r matches Err(SynthesisError::InferenceError(s)) && s@
                            == "Too many phoneme IDs"@ + spec_shapes_text(ids.len())
                    } else {
                        r matches Ok(request) && request_matches(request, ids, c, self@.rate_milli)
                    }
                },
            },
    {
        let ids = match self.phonemes_to_ids(phonemes) {
            Ok(ids) => ids,
            Err(e) => {
                return Err(e);
            },
        };
        let config = match &self.piper_config {
            Some(c) => c,
            None => {
                return Err(
                    SynthesisError::ConfigError(String::from_str("Piper config not loaded")),
                );
            },
        };
        let n = ids.len();
        if n as u64 > i64::MAX as u64 {
            return Err(Self::inference_failed(n, "Too many phoneme IDs"));
        }
        let mut input_shape: Vec<usize> = Vec::new();
        input_shape.push(1);
        input_shape.push(n);
        let mut input_lengths: Vec<i64> = Vec::new();
        input_lengths.push(n as i64);
        let mut lengths_shape: Vec<usize> = Vec::new();
        lengths_shape.push(1);
        let mut scales_micro: Vec<u64> = Vec::new();
        scales_micro.push(config.noise_scale_micro as u64);
        scales_micro.push(
            effective_length_scale(config.length_scale_micro, self.config.rate_milli),
        );
        scales_micro.push(config.noise_w_micro as u64);
        let mut scales_shape: Vec<usize> = Vec::new();
        scales_shape.push(3);
        let request = InferenceRequest {
            input: ids,
            input_shape,
            input_lengths,
            lengths_shape,
            scales_micro,
            scales_shape,
        };
        proof {
            let ghost want = spec_phoneme_ids(config.phoneme_id_map@, phonemes@);
            assert(request.input_shape@ =~= seq![1usize, want.len() as usize]);
            assert(request.input_lengths@ =~= seq![want.len() as i64]);
            assert(request.lengths_shape@ =~= seq![1usize]);
            assert(request.scales_shape@ =~= seq![3usize]);
            assert(request.scales_micro@ =~= seq![
                config.noise_scale_micro as u64,
                spec_effective_length_scale(config.length_scale_micro, self@.rate_milli) as u64,
                config.noise_w_micro as u64,
            ]);
        }
        Ok(request)
    }

    /// The error for an inference call on `ids` ids that the runtime
    /// refused: the runtime's words, then the tensor shapes that were tried.
    pub fn inference_failed(ids: usize, detail: &str) -> (e: SynthesisError)
        ensures
            e matches SynthesisError::InferenceError(s) && s@ == detail@ + spec_shapes_text(
                ids as nat,
            ),
    {
        let mut text = String::from_str(detail);
        let ghost d = detail@;
        text.append(" (input [1, ");
        text.append(decimal(ids as u64).as_str());
        text.append("], input_lengths [1], scales [3])");
        proof {
            assert(text@ =~= d + spec_shapes_text(ids as nat));
        }
        SynthesisError::InferenceError(text)
    }

    /// Starts speaking `text` as one unit. Refused with `Busy` while a
    /// speaking operation is in progress and with `ModelNotLoaded` while no
    /// model is loaded; neither changes the engine. Otherwise the voice, if
    /// one is given, is taken over, and the text is normalized and cut into
    /// the chunks to synthesize, upon which the engine is speaking.
    pub fn begin_speak(&mut self, text: &str, voice_id: Option<&str>) -> (r: Result<
        Vec<String>,
        SynthesisError,
    >)
        ensures
            if old(self)@.is_speaking {
                r matches Err(SynthesisError::Busy) && final(self)@ == old(self)@
            } else if old(self)@.loaded_model is None {
                &&& r matches Err(SynthesisError::ModelNotLoaded(s)) && s@ == "Model not loaded"@
                &&& final(self)@ == old(self)@
            } else {
                let voice = match voice_id {
                    Some(v) => v@,
                    None => old(self)@.voice_id,
                };
                match spec_normalize(text@) {
                    Some(normal) => {
                        &&& r matches Ok(chunks) && string_texts(chunks@) == spec_chunks(normal)
                        &&& final(self)@ == (EngineView {
                            voice_id: voice,
                            is_speaking: true,
                            ..old(self)@
                        })
                    },
                    None => {
                        &&& r matches Err(SynthesisError::InvalidInput(s)) && s@
                            == "Web address pattern refused"@
                        &&& final(self)@ == (EngineView { voice_id: voice, ..old(self)@ })
                    },
                }
            },
    {
        if self.is_speaking {
            return Err(SynthesisError::Busy);
        }
        if self.loaded_model.is_none() {
            return Err(SynthesisError::ModelNotLoaded(String::from_str("Model not loaded")));
        }
        if let Some(v) = voice_id {
            self.config.voice_id = String::from_str(v);
        }
        let normal = match self.preprocess_text(text) {
            Ok(s) => s,
            Err(e) => {
                return Err(e);
            },
        };
        let chunks = chunk_text(normal.as_str());
        self.is_speaking = true;
        Ok(chunks)
    }

    /// Starts speaking a list of sentences one by one. Refused like
    /// `begin_speak`; otherwise the voice, if one is given, is taken over and
    /// the engine is speaking.
    pub fn begin_speak_sentences(&mut self, voice_id: Option<&str>) -> (r: Result<
        (),
        SynthesisError,
    >)
        ensures
            if old(self)@.is_speaking {
                r matches Err(SynthesisError::Busy) && final(self)@ == old(self)@
            } else if old(self)@.loaded_model is None {
                &&& r matches Err(SynthesisError::ModelNotLoaded(s)) && s@ == "Model not loaded"@
                &&& final(self)@ == old(self)@
            } else {
                &&& r is Ok
                &&& final(self)@ == (EngineView {
                    voice_id: match voice_id {
                        Some(v) => v@,
                        None => old(self)@.voice_id,
                    },
                    is_speaking: true,
                    ..old(self)@
                })
            },
    {
        if self.is_speaking {
            return Err(SynthesisError::Busy);
        }
        if self.loaded_model.is_none() {
            return Err(SynthesisError::ModelNotLoaded(String::from_str("Model not loaded")));
        }
        if let Some(v) = voice_id {
            self.config.voice_id = String::from_str(v);
        }
        self.is_speaking = true;
        Ok(())
    }

    /// Ends a speaking operation, whether it completed, failed or was
    /// stopped.
    pub fn finish_speaking(&mut self)
        ensures
            final(self)@ == (EngineView { is_speaking: false, ..old(self)@ }),
    {
        self.is_speaking = false;
    }
}

} // verus!
