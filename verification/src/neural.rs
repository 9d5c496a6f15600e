//! The operations that a front end calls: voices, model readiness, disk
//! usage, deletion, status, and the choice between neural and native speech.

use vstd::prelude::*;
use crate::download::{spec_start, DownloadRun};
use crate::model::{
    capped_total,
    catalog,
    model_ready,
    spec_models_below,
    ModelManager,
    NeuralModel,
};
use crate::synth::{NeuralTtsEngine, SynthesisError, NORMAL_RATE_MILLI};
use crate::text::spec_join_path;

verus! {

/// What a front end shows of a neural voice.
#[derive(Debug, Clone)]
pub struct NeuralVoiceInfo {
    pub id: String,
    pub name: String,
    pub language: String,
    pub description: Option<String>,
}

/// What a front end shows of the neural engine.
#[derive(Debug)]
pub struct NeuralTtsStatus {
    /// Whether the configured model is ready on disk.
    pub available: bool,
    /// Whether a speaking operation is in progress.
    pub is_speaking: bool,
    /// The selected voice.
    pub current_voice: Option<String>,
    /// The speech rate in thousandths, from 500 to 2000.
    pub rate_milli: u32,
    /// The progress of a download in percent, if one is under way.
    pub download_progress: Option<u8>,
    /// The voices on offer.
    pub voices: Vec<NeuralVoiceInfo>,
    /// Why the engine is not available, if it is not.
    pub message: Option<String>,
}

/// The message for an identifier that the catalog does not know.
pub open spec fn spec_unknown_model(model_id: Seq<char>) -> Seq<char> {
    "Unknown model: "@ + model_id
}

/// The message for an identifier that the catalog does not know.
fn unknown_model(model_id: &str) -> (text: String)
    ensures
        text@ == spec_unknown_model(model_id@),
{
    String::from_str("Unknown model: ").concat(model_id)
}

/// The voices on offer: the Piper US English voice and no other.
pub open spec fn spec_voices(voices: Seq<NeuralVoiceInfo>) -> bool {
    &&& voices.len() == 1
    &&& voices[0].id@ == "piper-en-us"@
    &&& voices[0].name@ == "Piper (US English)"@
    &&& voices[0].language@ == "en"@
    &&& voices[0].description matches Some(d) && d@ == "Lightweight neural voice (~63MB)"@
}

/// The neural voices on offer.
pub fn list_neural_voices() -> (voices: Vec<NeuralVoiceInfo>)
    ensures
        spec_voices(voices@),
{
    let mut voices: Vec<NeuralVoiceInfo> = Vec::new();
    voices.push(
        NeuralVoiceInfo {
            id: String::from_str("piper-en-us"),
            name: String::from_str("Piper (US English)"),
            language: String::from_str("en"),
            description: Some(String::from_str("Lightweight neural voice (~63MB)")),
        },
    );
    voices
}

/// Whether the model `model_id` is ready, given the sizes seen on disk for
/// the files of its manifest.
pub fn is_model_ready(manager: &ModelManager, model_id: &str, observed: &Vec<Option<u64>>) -> (r:
    Result<bool, String>)
    ensures
        match catalog(model_id@) {
            Some(model) => r == Ok::<bool, String>(model_ready(model.files, observed@)),
            None => r matches Err(text) && text@ == spec_unknown_model(model_id@),
        },
{
    match NeuralModel::from_id(model_id) {
        Some(model) => Ok(manager.is_model_ready(&model, observed)),
        None => Err(unknown_model(model_id)),
    }
}

/// Begins a download of the model `model_id`.
pub fn download_model(model_id: &str) -> (r: Result<DownloadRun, String>)
    ensures
        match catalog(model_id@) {
            Some(model) => r matches Ok(run) && run@ == spec_start(model),
            None => r matches Err(text) && text@ == spec_unknown_model(model_id@),
        },
{
    match NeuralModel::from_id(model_id) {
        Some(model) => Ok(DownloadRun::new(model)),
        None => Err(unknown_model(model_id)),
    }
}

/// The platform's model directory, or the reason why there is none. Which
/// directory comes back depends on the environment; it always ends in
/// `pastel-hn/models`.
pub fn get_model_dir() -> (r: Result<String, String>)
    ensures
        match r {
            Ok(dir) => exists|base: Seq<char>| dir@ == spec_models_below(base),
            Err(text) => text@ == "Model directory not accessible: "@
                + "Cannot determine data directory"@,
        },
{
    match ModelManager::get_model_dir() {
        Ok(dir) => Ok(dir),
        Err(e) => Err(e.message()),
    }
}

/// The disk usage of all models, given the sizes of all files below the
/// model root.
pub fn get_model_disk_usage(manager: &ModelManager, file_sizes: &Vec<u64>) -> (total: u64)
    ensures
        total == capped_total(file_sizes@),
{
    manager.get_total_size(file_sizes)
}

/// The directory to remove in order to delete the model `model_id`: the
/// model's directory if it exists, nothing if it is already gone.
pub fn delete_model(manager: &ModelManager, model_id: &str, exists: bool) -> (r: Result<
    Option<String>,
    String,
>)
    ensures
        match catalog(model_id@) {
            Some(model) => r matches Ok(target) && match target {
                Some(dir) => exists && dir@ == spec_join_path(manager@, model.id),
                None => !exists,
            },
            None => r matches Err(text) && text@ == spec_unknown_model(model_id@),
        },
{
    match NeuralModel::from_id(model_id) {
        Some(model) => Ok(manager.delete_model(&model, exists)),
        None => Err(unknown_model(model_id)),
    }
}

/// The message of an engine whose model is not on disk.
pub open spec fn spec_not_downloaded_message(model_id: Seq<char>) -> Seq<char> {
    "Model '"@ + model_id + "' not downloaded"@
}

/// The status of `engine`, or of no engine at all. `observed` holds the
/// sizes seen on disk for the files of the engine's configured model.
pub fn get_status(engine: Option<&NeuralTtsEngine>, observed: &Vec<Option<u64>>) -> (status:
    NeuralTtsStatus)
    ensures
        status.download_progress is None,
        match engine {
            Some(e) => {
                let available = match catalog(e@.model_id) {
                    Some(model) => model_ready(model.files, observed@),
                    None => false,
                };
                &&& status.available == available
                &&& status.is_speaking == e@.is_speaking
                &&& status.current_voice matches Some(v) && v@ == e@.voice_id
                &&& status.rate_milli == e@.rate_milli
                &&& spec_voices(status.voices@)
                &&& if available {
                    status.message is None
                } else {
                    status.message matches Some(m) && m@ == spec_not_downloaded_message(
                        e@.model_id,
                    )
                }
            },
            None => {
                &&& !status.available
                &&& !status.is_speaking
                &&& status.current_voice is None
                &&& status.rate_milli == NORMAL_RATE_MILLI
                &&& status.voices@.len() == 0
                &&& status.message matches Some(m) && m@ == "Neural TTS not initialized"@
            },
        },
{
    match engine {
        Some(e) => {
            let available = e.is_available(observed);
            let config = e.config();
            let message = if available {
                None
            } else {
                let mut text = String::from_str("Model '");
                text.append(config.model_id.as_str());
                text.append("' not downloaded");
                Some(text)
            };
            NeuralTtsStatus {
                available,
                is_speaking: e.is_speaking(),
                current_voice: Some(config.voice_id.clone()),
                rate_milli: config.rate_milli,
                download_progress: None,
                voices: list_neural_voices(),
                message,
            }
        },
        None => NeuralTtsStatus {
            available: false,
            is_speaking: false,
            current_voice: None,
            rate_milli: NORMAL_RATE_MILLI,
            download_progress: None,
            voices: Vec::new(),
            message: Some(String::from_str("Neural TTS not initialized")),
        },
    }
}

/// Whether speech falls back to the native voice after `error`: yes where
/// neural synthesis is not available (the model is absent, cannot be loaded
/// or has no usable configuration), no where it failed in the middle of an
/// utterance.
pub open spec fn spec_falls_back(error: SynthesisError) -> bool {
    match error {
        SynthesisError::ModelNotLoaded(_) => true,
        SynthesisError::Model(_) => true,
        SynthesisError::ConfigError(_) => true,
        SynthesisError::Ort(_) => true,
        _ => false,
    }
}

/// Whether speech falls back to the native voice after `error`.
pub fn falls_back_to_native(error: &SynthesisError) -> (b: bool)
    ensures
        b == spec_falls_back(*error),
{
    match error {
        SynthesisError::ModelNotLoaded(_) => true,
        SynthesisError::Model(_) => true,
        SynthesisError::ConfigError(_) => true,
        SynthesisError::Ort(_) => true,
        _ => false,
    }
}

} // verus!
