use pastel_hn::model::ModelManager;
use pastel_hn::phoneme::{emitted_symbols, map_phonemes, PhonemeMap};
use pastel_hn::synth::{NeuralTtsEngine, PiperConfig, SynthesisError};

fn sample_map() -> PhonemeMap {
    let mut map = PhonemeMap::new();
    map.insert('_', vec![0]);
    map.insert('^', vec![1]);
    map.insert('$', vec![2]);
    map.insert(' ', vec![3]);
    map.insert('a', vec![14]);
    map.insert('b', vec![15]);
    map.insert('h', vec![20]);
    map.insert('ə', vec![59]);
    map
}

fn engine_with(map: PhonemeMap) -> NeuralTtsEngine {
    let mut engine = NeuralTtsEngine::with_manager(ModelManager::with_model_dir("/m"));
    let observed = vec![Some(63_201_294), Some(4_885)];
    engine.plan_load("piper-en-us", &observed).unwrap();
    assert!(engine.model_loaded(PiperConfig {
        sample_rate: 22050,
        espeak_voice: "en-us".to_string(),
        noise_scale_micro: 667_000,
        length_scale_micro: 1_000_000,
        noise_w_micro: 800_000,
        phoneme_id_map: map,
    }));
    engine
}

#[test]
fn table_lookup() {
    let mut map = sample_map();
    assert_eq!(map.len(), 8);
    assert_eq!(map.get('^'), Some(&vec![1]));
    assert_eq!(map.get('ə'), Some(&vec![59]));
    assert_eq!(map.get('z'), None);
    map.insert('a', vec![7, 8]);
    assert_eq!(map.get('a'), Some(&vec![7, 8]));
    assert_eq!(map.len(), 8);
    assert_eq!(PhonemeMap::new().len(), 0);
}

#[test]
fn a_blank_follows_the_start_and_every_symbol() {
    let map = sample_map();
    assert_eq!(map_phonemes(&map, "ab"), vec![1, 0, 14, 0, 15, 0, 2]);
    assert_eq!(map_phonemes(&map, "həb"), vec![1, 0, 20, 0, 59, 0, 15, 0, 2]);
    assert_eq!(map_phonemes(&map, ""), vec![1, 0, 2]);
}

#[test]
fn blank_count_is_one_more_than_the_symbols() {
    let map = sample_map();
    let ids = map_phonemes(&map, "abhəab");
    assert_eq!(ids.iter().filter(|&&id| id == 0).count(), 7);
    assert_eq!(ids.len(), 1 + 1 + 6 * 2 + 1);
    assert_eq!(ids[..2], [1, 0]);
    assert_eq!(ids[ids.len() - 1], 2);
}

#[test]
fn white_space_stands_for_the_space_symbol() {
    let map = sample_map();
    assert_eq!(map_phonemes(&map, "a b"), vec![1, 0, 14, 0, 3, 0, 15, 0, 2]);
    assert_eq!(map_phonemes(&map, "a\tb"), vec![1, 0, 14, 0, 3, 0, 15, 0, 2]);
    assert_eq!(map_phonemes(&map, "a\nb"), vec![1, 0, 14, 0, 3, 0, 15, 0, 2]);
}

#[test]
fn white_space_without_a_space_entry_leaves_only_its_blank() {
    let mut map = PhonemeMap::new();
    map.insert('_', vec![0]);
    map.insert('^', vec![1]);
    map.insert('$', vec![2]);
    map.insert('a', vec![14]);
    assert_eq!(map_phonemes(&map, "a a"), vec![1, 0, 14, 0, 0, 14, 0, 2]);
}

#[test]
fn unknown_symbols_are_dropped() {
    let map = sample_map();
    assert_eq!(map_phonemes(&map, "azb"), vec![1, 0, 14, 0, 15, 0, 2]);
    assert_eq!(map_phonemes(&map, "zzz"), vec![1, 0, 2]);
}

#[test]
fn symbols_may_have_several_ids() {
    let mut map = PhonemeMap::new();
    map.insert('_', vec![0, 0]);
    map.insert('^', vec![1]);
    map.insert('$', vec![2, 2, 2]);
    map.insert('a', vec![5, 6]);
    assert_eq!(map_phonemes(&map, "aa"), vec![1, 0, 0, 5, 6, 0, 0, 5, 6, 0, 0, 2, 2, 2]);
}

#[test]
fn without_markers_only_the_symbols_remain() {
    let mut map = PhonemeMap::new();
    map.insert('a', vec![14]);
    assert_eq!(map_phonemes(&map, "aza"), vec![14, 14]);
}

#[test]
fn engine_maps_with_the_loaded_table() {
    let engine = engine_with(sample_map());
    assert_eq!(engine.phonemes_to_ids("ab").unwrap(), vec![1, 0, 14, 0, 15, 0, 2]);
}

#[test]
fn only_unrecognized_symbols_are_a_phoneme_error() {
    // the table holds the markers, and none of the symbols
    let engine = engine_with(sample_map());
    for phonemes in ["xyz", "zzz", "z", "越"] {
        match engine.phonemes_to_ids(phonemes) {
            Err(SynthesisError::PhonemeError(text)) => {
                assert_eq!(text, "No phoneme IDs generated")
            }
            other => panic!("unexpected: {:?}", other),
        }
        // and no inference request comes into being
        match engine.prepare_inference(phonemes) {
            Err(SynthesisError::PhonemeError(text)) => {
                assert_eq!(text, "No phoneme IDs generated")
            }
            other => panic!("unexpected: {:?}", other),
        }
    }

    // one usable symbol among them is enough
    assert_eq!(engine.phonemes_to_ids("xayz").unwrap(), vec![1, 0, 14, 0, 2]);
    assert_eq!(engine.phonemes_to_ids("x z").unwrap(), vec![1, 0, 3, 0, 2]);

    // a table that knows neither the symbols nor the markers
    let mut map = PhonemeMap::new();
    map.insert('a', vec![14]);
    let engine = engine_with(map);
    assert!(matches!(engine.phonemes_to_ids("zzz"), Err(SynthesisError::PhonemeError(_))));
    assert!(matches!(engine.prepare_inference("zzz"), Err(SynthesisError::PhonemeError(_))));
    let empty = engine_with(PhonemeMap::new());
    assert!(matches!(empty.phonemes_to_ids("hello"), Err(SynthesisError::PhonemeError(_))));
}

#[test]
fn nothing_to_say_is_a_phoneme_error() {
    let engine = engine_with(sample_map());
    assert!(matches!(engine.phonemes_to_ids(""), Err(SynthesisError::PhonemeError(_))));
    assert!(matches!(engine.prepare_inference(""), Err(SynthesisError::PhonemeError(_))));

    // symbols whose entries hold no id give nothing either
    let mut map = PhonemeMap::new();
    map.insert('a', vec![]);
    let engine = engine_with(map);
    assert!(matches!(engine.phonemes_to_ids("aaa"), Err(SynthesisError::PhonemeError(_))));
}

#[test]
fn emitted_symbols_are_counted() {
    let map = sample_map();
    assert_eq!(emitted_symbols(&map, ""), 0);
    assert_eq!(emitted_symbols(&map, "xyz"), 0);
    assert_eq!(emitted_symbols(&map, "ab"), 2);
    assert_eq!(emitted_symbols(&map, "a b"), 3);
    assert_eq!(emitted_symbols(&map, "a\tz\u{a0}"), 3);
    assert_eq!(emitted_symbols(&map, "^_$"), 3);
    assert_eq!(emitted_symbols(&PhonemeMap::new(), "a b"), 1);
}

#[test]
fn no_configuration_is_a_config_error() {
    let engine = NeuralTtsEngine::with_manager(ModelManager::with_model_dir("/m"));
    match engine.phonemes_to_ids("ab") {
        Err(SynthesisError::ConfigError(text)) => assert_eq!(text, "Piper config not loaded"),
        other => panic!("unexpected: {:?}", other),
    }
    assert!(matches!(engine.prepare_inference("ab"), Err(SynthesisError::ConfigError(_))));
}
