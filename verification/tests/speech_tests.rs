use pastel_hn::speech::{SpeakDirective, SpeakReport, SpeakRun};
use pastel_hn::synth::SynthesisError;

#[test]
fn chunks_are_synthesized_in_order_and_played_once() {
    let mut run = SpeakRun::new(3);
    let units: [Vec<i16>; 3] = [vec![1, 2], vec![], vec![3, 4, 5]];
    for (index, samples) in units.into_iter().enumerate() {
        assert_eq!(run.directive(), SpeakDirective::ReadFlag);
        run.observe(SpeakReport::Flag { speaking: true });
        assert_eq!(run.directive(), SpeakDirective::Synthesize { index });
        run.observe(SpeakReport::Synthesized { samples });
    }
    assert_eq!(run.directive(), SpeakDirective::Play);
    assert_eq!(run.samples(), &vec![1, 2, 3, 4, 5]);
    assert!(!run.is_done());
    run.observe(SpeakReport::PlaybackEnded);
    assert_eq!(run.directive(), SpeakDirective::Halt);
    assert!(run.is_done());
    assert!(run.into_result().is_ok());
}

#[test]
fn a_failing_chunk_ends_the_run_and_nothing_is_played() {
    let mut run = SpeakRun::new(3);
    run.observe(SpeakReport::Flag { speaking: true });
    run.observe(SpeakReport::Synthesized { samples: vec![9; 100] });
    run.observe(SpeakReport::Flag { speaking: true });
    run.observe(SpeakReport::Failed { error: SynthesisError::InferenceError("bad".to_string()) });
    assert_eq!(run.directive(), SpeakDirective::Halt);
    assert!(run.is_done());

    // nothing that is reported afterwards leads to playing
    run.observe(SpeakReport::Flag { speaking: true });
    run.observe(SpeakReport::Synthesized { samples: vec![1] });
    run.observe(SpeakReport::PlaybackEnded);
    assert_eq!(run.directive(), SpeakDirective::Halt);

    match run.into_result() {
        Err(SynthesisError::InferenceError(text)) => assert_eq!(text, "bad"),
        other => panic!("unexpected: {:?}", other),
    }
}

#[test]
fn a_cleared_flag_ends_the_synthesizing() {
    let mut run = SpeakRun::new(3);
    run.observe(SpeakReport::Flag { speaking: true });
    run.observe(SpeakReport::Synthesized { samples: vec![7, 8] });
    run.observe(SpeakReport::Flag { speaking: false });
    assert_eq!(run.directive(), SpeakDirective::Play);
    assert_eq!(run.samples(), &vec![7, 8]);
    run.observe(SpeakReport::PlaybackEnded);
    assert!(run.into_result().is_ok());

    // cleared before anything was synthesized: there is nothing to play
    let mut run = SpeakRun::new(2);
    run.observe(SpeakReport::Flag { speaking: false });
    assert_eq!(run.directive(), SpeakDirective::Halt);
    assert!(run.into_result().is_ok());
}

#[test]
fn silence_is_not_played() {
    let mut run = SpeakRun::new(1);
    run.observe(SpeakReport::Flag { speaking: true });
    run.observe(SpeakReport::Synthesized { samples: vec![] });
    assert_eq!(run.directive(), SpeakDirective::Halt);

    let run = SpeakRun::new(0);
    assert_eq!(run.directive(), SpeakDirective::Halt);
    assert!(run.is_done());
}

#[test]
fn reports_that_do_not_fit_the_phase_are_ignored() {
    let mut run = SpeakRun::new(1);
    run.observe(SpeakReport::Synthesized { samples: vec![1] });
    run.observe(SpeakReport::PlaybackEnded);
    run.observe(SpeakReport::Failed { error: SynthesisError::Busy });
    assert_eq!(run.directive(), SpeakDirective::ReadFlag);
    assert!(run.samples().is_empty());
    assert!(run.into_result().is_ok());
}
