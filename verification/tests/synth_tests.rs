use pastel_hn::model::{ModelError, ModelManager};
use pastel_hn::phoneme::PhonemeMap;
use pastel_hn::synth::{
    clamp_rate, default_espeak_voice, effective_length_scale, phonemes_from_outcome, EngineState,
    LoadPlan, NeuralTtsConfig, NeuralTtsEngine, PhonemizerOutcome, PiperConfig, SynthesisError,
    DEFAULT_SAMPLE_RATE, MAX_RATE_MILLI, MIN_RATE_MILLI,
};

fn ready() -> Vec<Option<u64>> {
    vec![Some(63_201_294), Some(4_885)]
}

fn sample_config() -> PiperConfig {
    let mut map = PhonemeMap::new();
    map.insert('_', vec![0]);
    map.insert('^', vec![1]);
    map.insert('$', vec![2]);
    map.insert(' ', vec![3]);
    map.insert('a', vec![14]);
    map.insert('b', vec![15]);
    PiperConfig {
        sample_rate: 16000,
        espeak_voice: "en-gb".to_string(),
        noise_scale_micro: 667_000,
        length_scale_micro: 1_000_000,
        noise_w_micro: 800_000,
        phoneme_id_map: map,
    }
}

fn loaded_engine() -> NeuralTtsEngine {
    let mut engine = NeuralTtsEngine::with_manager(ModelManager::with_model_dir("/m"));
    engine.plan_load("piper-en-us", &ready()).unwrap();
    assert!(engine.model_loaded(sample_config()));
    engine
}

#[test]
fn test_neural_tts_config_default() {
    let config = NeuralTtsConfig::default();
    assert_eq!(config.rate_milli, 1000);
    assert_eq!(config.voice_id, "default");
    assert_eq!(config.model_id, "piper-en-us");
    assert!(config.use_gpu);
}

#[test]
fn test_preprocess_text() {
    let engine = NeuralTtsEngine::new().unwrap();

    let text = "Hello\n\tWorld  ";
    let result = engine.preprocess_text(text).unwrap();
    assert_eq!(result, "Hello World");

    let with_url = "Check out https://example.com for more info.";
    let result = engine.preprocess_text(with_url).unwrap();
    assert!(!result.contains("https"));
}

#[test]
fn test_long_text_is_accepted() {
    let engine = NeuralTtsEngine::new().unwrap();
    let long_text = "a".repeat(10000);

    // Long text should be accepted (chunking handles it)
    let result = engine.preprocess_text(&long_text);
    assert!(result.is_ok());
}

#[test]
fn test_chunk_text_splits_long_text() {
    let engine = NeuralTtsEngine::new().unwrap();
    let long_text = "This is sentence one. ".repeat(50); // ~1100 chars

    let chunks = engine.chunk_text(&long_text);
    assert!(
        chunks.len() > 1,
        "Long text should be split into multiple chunks"
    );

    // Each chunk should be within the limit
    for chunk in &chunks {
        assert!(chunk.len() <= 600, "Chunk too long: {} chars", chunk.len());
    }
}

#[test]
fn test_chunk_text() {
    let engine = NeuralTtsEngine::new().unwrap();
    let text = "First sentence. Second sentence! Third sentence? Fourth sentence here.";

    let chunks = engine.chunk_text(text);
    assert!(!chunks.is_empty());

    // Verify each chunk ends with a period
    for chunk in &chunks {
        assert!(chunk.ends_with('.'));
    }
}

#[test]
fn test_set_rate_clamping() {
    let mut engine = NeuralTtsEngine::new().unwrap();

    engine.set_rate(100);
    assert_eq!(engine.config().rate_milli, 500);

    engine.set_rate(3000);
    assert_eq!(engine.config().rate_milli, 2000);

    engine.set_rate(1500);
    assert_eq!(engine.config().rate_milli, 1500);
}

#[test]
fn rates_are_clamped_to_half_and_double_speed() {
    assert_eq!(MIN_RATE_MILLI, 500);
    assert_eq!(MAX_RATE_MILLI, 2000);
    assert_eq!(clamp_rate(0), 500);
    assert_eq!(clamp_rate(499), 500);
    assert_eq!(clamp_rate(500), 500);
    assert_eq!(clamp_rate(1000), 1000);
    assert_eq!(clamp_rate(2000), 2000);
    assert_eq!(clamp_rate(2001), 2000);
    assert_eq!(clamp_rate(u32::MAX), 2000);
}

#[test]
fn length_scale_is_divided_by_the_rate() {
    assert_eq!(effective_length_scale(1_000_000, 1000), 1_000_000);
    assert_eq!(effective_length_scale(1_000_000, 2000), 500_000);
    assert_eq!(effective_length_scale(1_000_000, 500), 2_000_000);
    assert_eq!(effective_length_scale(1_000_000, 1500), 666_666);
    assert_eq!(effective_length_scale(1_200_000, 800), 1_500_000);
    // out of range rates count as the nearest bound
    assert_eq!(effective_length_scale(1_000_000, 100), 2_000_000);
    assert_eq!(effective_length_scale(1_000_000, 9000), 500_000);
    assert_eq!(effective_length_scale(0, 1000), 0);
    assert_eq!(effective_length_scale(u32::MAX, 500), 8_589_934_590);
}

#[test]
fn a_faster_rate_gives_a_shorter_length_scale() {
    let mut previous = u64::MAX;
    let mut rate = 400;
    while rate <= 2200 {
        let scale = effective_length_scale(1_000_000, rate);
        assert!(scale <= previous);
        if rate > 500 && rate <= 2000 {
            assert!(scale < previous);
        }
        previous = scale;
        rate += 100;
    }
}

#[test]
fn names_of_the_outside_interfaces() {
    assert_eq!(pastel_hn::synth::PHONEMIZER_PROGRAM, "espeak-ng");
    assert_eq!(pastel_hn::synth::INPUT_TENSOR, "input");
    assert_eq!(pastel_hn::synth::INPUT_LENGTHS_TENSOR, "input_lengths");
    assert_eq!(pastel_hn::synth::SCALES_TENSOR, "scales");
    assert_eq!(pastel_hn::synth::INFERENCE_THREADS, 4);
}

#[test]
fn a_new_engine_is_idle() {
    let engine = NeuralTtsEngine::with_manager(ModelManager::with_model_dir("/m"));
    assert_eq!(engine.state(), EngineState::Idle);
    assert!(!engine.is_speaking());
    assert!(!engine.is_loaded());
    assert!(engine.piper_config().is_none());
    assert_eq!(engine.sample_rate(), DEFAULT_SAMPLE_RATE);
    assert_eq!(engine.sample_rate(), 22050);
    assert_eq!(engine.model_manager().model_dir(), "/m");
    assert_eq!(default_espeak_voice(), "en-us");
}

#[test]
fn availability_follows_the_files_on_disk() {
    let engine = NeuralTtsEngine::with_manager(ModelManager::with_model_dir("/m"));
    assert!(engine.is_available(&ready()));
    assert!(!engine.is_available(&vec![Some(63_201_294), None]));
    assert!(!engine.is_available(&vec![]));
}

#[test]
fn loading_goes_through_the_states() {
    let mut engine = NeuralTtsEngine::with_manager(ModelManager::with_model_dir("/m"));

    match engine.plan_load("piper-en-us", &ready()) {
        Ok(LoadPlan::Load { config_path, weights_path }) => {
            assert_eq!(config_path, "/m/piper-en-us/en_US-lessac-medium.onnx.json");
            assert_eq!(weights_path, "/m/piper-en-us/en_US-lessac-medium.onnx");
        }
        other => panic!("unexpected: {:?}", other),
    }
    assert_eq!(engine.state(), EngineState::Loading);

    assert!(engine.model_loaded(sample_config()));
    assert_eq!(engine.state(), EngineState::Ready);
    assert!(engine.is_loaded());
    assert_eq!(engine.sample_rate(), 16000);
    assert_eq!(engine.config().model_id, "piper-en-us");

    // the loaded model needs nothing more
    assert!(matches!(engine.plan_load("piper-en-us", &ready()), Ok(LoadPlan::AlreadyLoaded)));
    assert_eq!(engine.state(), EngineState::Ready);

    // without a load in progress a report changes nothing
    assert!(!engine.model_loaded(sample_config()));
    assert_eq!(engine.state(), EngineState::Ready);
}

#[test]
fn loading_is_refused_for_absent_models() {
    let mut engine = NeuralTtsEngine::with_manager(ModelManager::with_model_dir("/m"));

    match engine.plan_load("other", &ready()) {
        Err(SynthesisError::ModelNotLoaded(text)) => assert_eq!(text, "other"),
        other => panic!("unexpected: {:?}", other),
    }
    match engine.plan_load("piper-en-us", &vec![Some(63_201_294), Some(4_884)]) {
        Err(SynthesisError::ModelNotLoaded(text)) => {
            assert_eq!(text, "Model piper-en-us not downloaded")
        }
        other => panic!("unexpected: {:?}", other),
    }
    assert_eq!(engine.state(), EngineState::Idle);

}

#[test]
fn loading_the_loaded_model_is_a_no_op() {
    let mut engine = loaded_engine();
    assert!(engine.has_loaded("piper-en-us"));
    assert!(!engine.has_loaded("piper"));

    // whatever is on disk by now
    for observed in [ready(), vec![None, None], vec![Some(1), Some(2)], vec![]] {
        assert!(matches!(
            engine.plan_load("piper-en-us", &observed),
            Ok(LoadPlan::AlreadyLoaded)
        ));
        assert_eq!(engine.state(), EngineState::Ready);
        assert_eq!(engine.sample_rate(), 16000);
        assert_eq!(engine.phonemizer_args("x")[3], "en-gb");
    }

    // a name that the catalog does not know is refused all the same
    assert!(matches!(
        engine.plan_load("other", &ready()),
        Err(SynthesisError::ModelNotLoaded(_))
    ));
    assert!(!NeuralTtsEngine::with_manager(ModelManager::with_model_dir("/m"))
        .has_loaded("piper-en-us"));
}

#[test]
fn a_failed_load_returns_to_the_state_before() {
    let mut engine = NeuralTtsEngine::with_manager(ModelManager::with_model_dir("/m"));
    engine.plan_load("piper-en-us", &ready()).unwrap();
    assert_eq!(engine.state(), EngineState::Loading);
    engine.load_failed();
    assert_eq!(engine.state(), EngineState::Idle);
    assert!(!engine.is_loaded());
}

#[test]
fn phonemizer_is_called_for_phonetic_output() {
    let engine = NeuralTtsEngine::with_manager(ModelManager::with_model_dir("/m"));
    assert_eq!(
        engine.phonemizer_args("Hello world"),
        vec!["--ipa", "-q", "-v", "en-us", "Hello world"]
    );
    let engine = loaded_engine();
    assert_eq!(engine.phonemizer_args("Hi"), vec!["--ipa", "-q", "-v", "en-gb", "Hi"]);
}

#[test]
fn phonemizer_results() {
    let ok = PhonemizerOutcome::Exited {
        success: true,
        stdout: " həlˈoʊ\n".to_string(),
        stderr: "warning".to_string(),
    };
    assert_eq!(phonemes_from_outcome(ok).unwrap(), "həlˈoʊ");

    let failed = PhonemizerOutcome::Exited {
        success: false,
        stdout: "x".to_string(),
        stderr: "no such voice".to_string(),
    };
    match phonemes_from_outcome(failed) {
        Err(SynthesisError::PhonemeError(text)) => {
            assert_eq!(text, "espeak-ng failed: no such voice")
        }
        other => panic!("unexpected: {:?}", other),
    }

    let missing = PhonemizerOutcome::Unavailable("No such file or directory".to_string());
    match phonemes_from_outcome(missing) {
        Err(SynthesisError::PhonemeError(text)) => assert_eq!(
            text,
            "Failed to run espeak-ng (is it installed?): No such file or directory"
        ),
        other => panic!("unexpected: {:?}", other),
    }
}

#[test]
fn inference_takes_three_tensors() {
    let mut engine = loaded_engine();
    let request = engine.prepare_inference("ab").unwrap();
    assert_eq!(request.input, vec![1, 0, 14, 0, 15, 0, 2]);
    assert_eq!(request.input_shape, vec![1, 7]);
    assert_eq!(request.input_lengths, vec![7]);
    assert_eq!(request.lengths_shape, vec![1]);
    assert_eq!(request.scales_micro, vec![667_000, 1_000_000, 800_000]);
    assert_eq!(request.scales_shape, vec![3]);

    engine.set_rate(2000);
    let request = engine.prepare_inference("a").unwrap();
    assert_eq!(request.scales_micro, vec![667_000, 500_000, 800_000]);
    assert_eq!(request.input_shape, vec![1, 5]);

    engine.set_rate(1);
    let request = engine.prepare_inference("a").unwrap();
    assert_eq!(request.scales_micro, vec![667_000, 2_000_000, 800_000]);

    // white space is a symbol of its own
    let request = engine.prepare_inference(" ").unwrap();
    assert_eq!(request.input, vec![1, 0, 3, 0, 2]);
}

#[test]
fn the_engine_roots_its_models_below_the_data_directory() {
    let engine = NeuralTtsEngine::new().unwrap();
    assert!(engine.model_manager().model_dir().ends_with("/pastel-hn/models"));
}

#[test]
fn inference_errors_name_the_shapes() {
    match NeuralTtsEngine::inference_failed(7, "invalid dimensions") {
        SynthesisError::InferenceError(text) => assert_eq!(
            text,
            "invalid dimensions (input [1, 7], input_lengths [1], scales [3])"
        ),
        other => panic!("unexpected: {:?}", other),
    }
}

#[test]
fn speaking_needs_a_loaded_model() {
    let mut engine = NeuralTtsEngine::with_manager(ModelManager::with_model_dir("/m"));
    match engine.begin_speak("Hello.", None) {
        Err(SynthesisError::ModelNotLoaded(text)) => assert_eq!(text, "Model not loaded"),
        other => panic!("unexpected: {:?}", other),
    }
    assert!(matches!(
        engine.begin_speak_sentences(Some("v")),
        Err(SynthesisError::ModelNotLoaded(_))
    ));
    assert_eq!(engine.state(), EngineState::Idle);
    assert_eq!(engine.config().voice_id, "default");
}

#[test]
fn speaking_sets_and_clears_the_flag() {
    let mut engine = loaded_engine();
    let chunks = engine
        .begin_speak("One\nsentence. See https://example.com now!  ", Some("amy"))
        .unwrap();
    assert_eq!(chunks, vec!["One sentence. See  now.".to_string()]);
    assert_eq!(engine.state(), EngineState::Speaking);
    assert!(engine.is_speaking());
    assert_eq!(engine.config().voice_id, "amy");

    // a second operation is turned away and changes nothing
    assert!(matches!(engine.begin_speak("More.", Some("joe")), Err(SynthesisError::Busy)));
    assert!(matches!(engine.begin_speak_sentences(Some("joe")), Err(SynthesisError::Busy)));
    assert_eq!(engine.config().voice_id, "amy");

    engine.finish_speaking();
    assert_eq!(engine.state(), EngineState::Ready);

    engine.begin_speak_sentences(None).unwrap();
    assert!(engine.is_speaking());
    assert_eq!(engine.config().voice_id, "amy");
    engine.stop();
    assert!(!engine.is_speaking());
    assert_eq!(engine.state(), EngineState::Ready);
}

#[test]
fn empty_text_has_no_chunks() {
    let mut engine = loaded_engine();
    let chunks = engine.begin_speak("  \n ", None).unwrap();
    assert!(chunks.is_empty());
    assert!(engine.is_speaking());
}

#[test]
fn synthesis_error_messages() {
    assert_eq!(
        SynthesisError::ModelNotLoaded("m".to_string()).message(),
        "Model not loaded: m"
    );
    assert_eq!(
        SynthesisError::InferenceError("m".to_string()).message(),
        "ONNX inference error: m"
    );
    assert_eq!(SynthesisError::InvalidInput("m".to_string()).message(), "Invalid input text: m");
    assert_eq!(SynthesisError::AudioError("m".to_string()).message(), "Audio generation error: m");
    assert_eq!(
        SynthesisError::Model(ModelError::NotFound("m".to_string())).message(),
        "Model error: Model not found: m"
    );
    assert_eq!(SynthesisError::Ort("m".to_string()).message(), "ONNX runtime error: m");
    assert_eq!(
        SynthesisError::PhonemeError("m".to_string()).message(),
        "Phoneme conversion error: m"
    );
    assert_eq!(SynthesisError::ConfigError("m".to_string()).message(), "Config parse error: m");
    assert_eq!(SynthesisError::Busy.message(), "Synthesis engine is busy");
}
