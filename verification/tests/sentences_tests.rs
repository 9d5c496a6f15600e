use pastel_hn::sentences::{Directive, Observation, SentenceEvent, SentenceRun};

fn show(event: &SentenceEvent) -> String {
    match event {
        SentenceEvent::Start { index, text } => format!("Start({},{})", index, text),
        SentenceEvent::End { index } => format!("End({})", index),
        SentenceEvent::Finished => "Finished".to_string(),
        SentenceEvent::Stopped => "Stopped".to_string(),
    }
}

fn sentences(texts: &[&str]) -> Vec<String> {
    texts.iter().map(|t| t.to_string()).collect()
}

/// Runs a reading against a script and returns every event, as text.
fn run(texts: &[&str], script: &[Observation]) -> (SentenceRun, Vec<String>) {
    let (mut reading, first) = SentenceRun::new(sentences(texts));
    let mut events: Vec<String> = first.iter().map(show).collect();
    for seen in script {
        events.extend(reading.observe(*seen).iter().map(show));
    }
    (reading, events)
}

const GO: Observation = Observation::Flag { speaking: true };
const HALT: Observation = Observation::Flag { speaking: false };
const USABLE: Observation = Observation::Prepared { usable: true };
const UNUSABLE: Observation = Observation::Prepared { usable: false };
const AUDIO: Observation = Observation::Synthesized { has_audio: true };
const NO_AUDIO: Observation = Observation::Synthesized { has_audio: false };
const AUDIBLE: Observation = Observation::Audible;
const ENDED: Observation = Observation::PlaybackEnded;

#[test]
fn three_sentences_are_read_in_order() {
    let spoken = [GO, USABLE, AUDIO, AUDIBLE, ENDED];
    let script: Vec<Observation> = spoken.iter().chain(&spoken).chain(&spoken).copied().collect();
    let (reading, events) = run(&["A.", "B.", "C."], &script);
    assert_eq!(
        events,
        vec![
            "Start(0,A.)",
            "End(0)",
            "Start(1,B.)",
            "End(1)",
            "Start(2,C.)",
            "End(2)",
            "Finished"
        ]
    );
    assert!(reading.is_done());
    assert_eq!(reading.directive(), Directive::Halt);
    assert_eq!(reading.current_sentence(), None);
}

#[test]
fn stopping_during_a_sentence_ends_with_stopped() {
    // the flag is cleared while the second sentence is audible
    let script = [
        GO, USABLE, AUDIO, AUDIBLE, ENDED, // first sentence
        GO, USABLE, AUDIO, AUDIBLE, ENDED, // second sentence, cut off
        HALT,
    ];
    let (mut reading, events) = run(&["A.", "B.", "C."], &script);
    assert_eq!(events, vec!["Start(0,A.)", "End(0)", "Start(1,B.)", "End(1)", "Stopped"]);
    assert!(reading.is_done());

    // nothing follows, whatever is reported
    for seen in [GO, USABLE, AUDIO, AUDIBLE, ENDED, HALT] {
        assert!(reading.observe(seen).is_empty());
    }
    assert_eq!(reading.directive(), Directive::Halt);
}

#[test]
fn stopping_before_the_first_sentence() {
    let (_, events) = run(&["A.", "B."], &[HALT]);
    assert_eq!(events, vec!["Stopped"]);
}

#[test]
fn stopping_during_the_last_sentence_still_finishes() {
    let (_, events) = run(&["A."], &[GO, USABLE, AUDIO, AUDIBLE, ENDED]);
    assert_eq!(events, vec!["Start(0,A.)", "End(0)", "Finished"]);
}

#[test]
fn no_sentences_finish_at_once() {
    let (reading, events) = run(&[], &[]);
    assert_eq!(events, vec!["Finished"]);
    assert!(reading.is_done());
}

#[test]
fn an_empty_sentence_is_passed_over_without_events() {
    let script = [GO, UNUSABLE, GO, USABLE, AUDIO, AUDIBLE, ENDED];
    let (_, events) = run(&["   ", "B."], &script);
    assert_eq!(events, vec!["Start(1,B.)", "End(1)", "Finished"]);

    let (_, events) = run(&["A.", ""], &[GO, USABLE, AUDIO, AUDIBLE, ENDED, GO, UNUSABLE]);
    assert_eq!(events, vec!["Start(0,A.)", "End(0)", "Finished"]);
}

#[test]
fn a_sentence_that_fails_still_ends() {
    let script = [GO, USABLE, NO_AUDIO, GO, USABLE, AUDIO, AUDIBLE, ENDED];
    let (_, events) = run(&["A.", "B."], &script);
    assert_eq!(events, vec!["End(0)", "Start(1,B.)", "End(1)", "Finished"]);
}

#[test]
fn playback_that_never_becomes_audible_ends_without_a_start() {
    let script = [GO, USABLE, AUDIO, ENDED, GO, USABLE, AUDIO, AUDIBLE, ENDED];
    let (_, events) = run(&["A.", "B."], &script);
    assert_eq!(events, vec!["End(0)", "Start(1,B.)", "End(1)", "Finished"]);
}

#[test]
fn directives_follow_the_phases() {
    let (mut reading, first) = SentenceRun::new(sentences(&["A.", "B."]));
    assert!(first.is_empty());
    assert_eq!(reading.directive(), Directive::ReadFlag);
    assert_eq!(reading.current_sentence(), Some("A."));
    reading.observe(GO);
    assert_eq!(reading.directive(), Directive::Prepare { index: 0 });
    reading.observe(USABLE);
    assert_eq!(reading.directive(), Directive::Synthesize { index: 0 });
    reading.observe(AUDIO);
    assert_eq!(reading.directive(), Directive::Play { index: 0 });
    reading.observe(AUDIBLE);
    assert_eq!(reading.directive(), Directive::AwaitPlayback { index: 0 });
    reading.observe(ENDED);
    assert_eq!(reading.directive(), Directive::ReadFlag);
    assert_eq!(reading.current_sentence(), Some("B."));
    assert!(!reading.is_done());
}

#[test]
fn reports_that_do_not_fit_are_ignored() {
    let (mut reading, _) = SentenceRun::new(sentences(&["A."]));
    for seen in [USABLE, UNUSABLE, AUDIO, NO_AUDIO, AUDIBLE, ENDED] {
        assert!(reading.observe(seen).is_empty());
        assert_eq!(reading.directive(), Directive::ReadFlag);
    }
    reading.observe(GO);
    reading.observe(USABLE);
    reading.observe(AUDIO);
    reading.observe(AUDIBLE);
    // a second announcement does not start the sentence again
    assert!(reading.observe(AUDIBLE).is_empty());
    assert!(reading.observe(GO).is_empty());
    assert_eq!(reading.directive(), Directive::AwaitPlayback { index: 0 });
}

#[test]
fn the_start_event_carries_the_sentence_as_given() {
    let (mut reading, _) = SentenceRun::new(sentences(&["  Raw\ttext https://x.y  "]));
    reading.observe(GO);
    reading.observe(USABLE);
    reading.observe(AUDIO);
    let events = reading.observe(AUDIBLE);
    assert_eq!(events.len(), 1);
    match &events[0] {
        SentenceEvent::Start { index, text } => {
            assert_eq!(*index, 0);
            assert_eq!(text, "  Raw\ttext https://x.y  ");
        }
        other => panic!("unexpected: {:?}", other),
    }
}
