use pastel_hn::download::DownloadDirective;
use pastel_hn::model::{ModelManager, NeuralModel};
use pastel_hn::neural::{
    delete_model, download_model, falls_back_to_native, get_model_dir, get_model_disk_usage,
    get_status, is_model_ready, list_neural_voices,
};
use pastel_hn::synth::{NeuralTtsEngine, SynthesisError};

#[test]
fn test_model_from_id() {
    assert!(NeuralModel::from_id("piper-en-us").is_some());
    assert!(NeuralModel::from_id("unknown").is_none());
}

#[test]
fn test_list_neural_voices() {
    let voices = list_neural_voices();
    assert_eq!(voices.len(), 1);
    assert!(voices.iter().any(|v| v.id == "piper-en-us"));
}

#[test]
fn test_model_dir_path() {
    let dir = get_model_dir();
    assert!(dir.is_ok());

    let path = dir.unwrap();
    assert!(path.contains("pastel-hn"));
}

#[test]
fn test_neural_tts_status_default() {
    // Without an engine the status says so
    let status = get_status(None, &vec![]);

    assert!(!status.available);
    assert!(status.message.is_some());
}

#[test]
fn test_is_model_ready_with_temp_dir() {
    // Only the first file of the model is there, and with the wrong size
    let manager = ModelManager::with_model_dir("/tmp/models");
    assert_eq!(is_model_ready(&manager, "piper-en-us", &vec![Some(10), None]), Ok(false));
}

#[test]
fn status_of_an_engine() {
    let engine = NeuralTtsEngine::with_manager(ModelManager::with_model_dir("/m"));

    let status = get_status(Some(&engine), &vec![None, None]);
    assert!(!status.available);
    assert!(!status.is_speaking);
    assert_eq!(status.current_voice, Some("default".to_string()));
    assert_eq!(status.rate_milli, 1000);
    assert_eq!(status.download_progress, None);
    assert_eq!(status.voices.len(), 1);
    assert_eq!(status.message, Some("Model 'piper-en-us' not downloaded".to_string()));

    let status = get_status(Some(&engine), &vec![Some(63_201_294), Some(4_885)]);
    assert!(status.available);
    assert_eq!(status.message, None);

    let status = get_status(None, &vec![]);
    assert_eq!(status.message, Some("Neural TTS not initialized".to_string()));
    assert_eq!(status.current_voice, None);
    assert_eq!(status.voices.len(), 0);
    assert_eq!(status.rate_milli, 1000);
}

#[test]
fn voice_details() {
    let voices = list_neural_voices();
    assert_eq!(voices[0].name, "Piper (US English)");
    assert_eq!(voices[0].language, "en");
    assert_eq!(voices[0].description, Some("Lightweight neural voice (~63MB)".to_string()));
}

#[test]
fn readiness_by_model_id() {
    let manager = ModelManager::with_model_dir("/m");
    assert_eq!(
        is_model_ready(&manager, "piper-en-us", &vec![Some(63_201_294), Some(4_885)]),
        Ok(true)
    );
    assert_eq!(is_model_ready(&manager, "piper-en-us", &vec![Some(1), Some(4_885)]), Ok(false));
    assert_eq!(
        is_model_ready(&manager, "nope", &vec![]),
        Err("Unknown model: nope".to_string())
    );
}

#[test]
fn disk_usage_and_deletion_by_model_id() {
    let manager = ModelManager::with_model_dir("/m");
    assert_eq!(get_model_disk_usage(&manager, &vec![63_201_294, 4_885]), 63_206_179);
    assert_eq!(
        delete_model(&manager, "piper-en-us", true),
        Ok(Some("/m/piper-en-us".to_string()))
    );
    assert_eq!(delete_model(&manager, "piper-en-us", false), Ok(None));
    assert_eq!(
        delete_model(&manager, "other", true),
        Err("Unknown model: other".to_string())
    );
}

#[test]
fn download_by_model_id() {
    let run = download_model("piper-en-us").unwrap();
    assert!(matches!(run.directive(), DownloadDirective::Inspect { index: 0 }));
    match download_model("missing") {
        Err(text) => assert_eq!(text, "Unknown model: missing"),
        Ok(_) => panic!("a model that is not in the catalog"),
    }
}

#[test]
fn native_fallback_only_when_neural_speech_is_unavailable() {
    assert!(falls_back_to_native(&SynthesisError::ModelNotLoaded("x".to_string())));
    assert!(falls_back_to_native(&SynthesisError::ConfigError("x".to_string())));
    assert!(falls_back_to_native(&SynthesisError::Ort("x".to_string())));
    assert!(falls_back_to_native(&SynthesisError::Model(
        pastel_hn::model::ModelError::ChecksumError
    )));
    assert!(!falls_back_to_native(&SynthesisError::InferenceError("x".to_string())));
    assert!(!falls_back_to_native(&SynthesisError::PhonemeError("x".to_string())));
    assert!(!falls_back_to_native(&SynthesisError::AudioError("x".to_string())));
    assert!(!falls_back_to_native(&SynthesisError::InvalidInput("x".to_string())));
    assert!(!falls_back_to_native(&SynthesisError::Busy));
}
