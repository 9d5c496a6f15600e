//! Speaking a list of sentences one by one, with events that a listener can
//! follow: `Start` when a sentence becomes audible, `End` when it is over,
//! and one last event, `Finished` or `Stopped`.
//!
//! `SentenceRun` decides; the caller does the outside work. The caller asks
//! `directive` what to do, does it, and reports what happened with `observe`,
//! which answers with the events to emit.

use vstd::prelude::*;

verus! {

/// An event of a sentence-by-sentence reading.
#[derive(Debug, Clone)]
pub enum SentenceEvent {
    /// The sentence at `index` has become audible.
    Start { index: usize, text: String },
    /// The sentence at `index` is over.
    End { index: usize },
    /// Every sentence has been handled.
    Finished,
    /// The reading was stopped before its end.
    Stopped,
}

/// A `SentenceEvent` as plain values.
pub enum EventView {
    Start { index: int, text: Seq<char> },
    End { index: int },
    Finished,
    Stopped,
}

impl View for SentenceEvent {
    type V = EventView;

    open spec fn view(&self) -> EventView {
        match self {
            SentenceEvent::Start { index, text } => EventView::Start {
                index: *index as int,
                text: text@,
            },
            SentenceEvent::End { index } => EventView::End { index: *index as int },
            SentenceEvent::Finished => EventView::Finished,
            SentenceEvent::Stopped => EventView::Stopped,
        }
    }
}

/// The events held by a list, as plain values.
pub open spec fn event_views(events: Seq<SentenceEvent>) -> Seq<EventView> {
    Seq::new(events.len(), |i: int| events[i]@)
}

/// Where a reading stands.
#[derive(Debug, Clone, Copy, PartialEq, Eq, Structural)]
pub enum RunPhase {
    /// Before a sentence: the speaking flag is to be read.
    Checking,
    /// The sentence is being normalized.
    Preparing,
    /// The sentence is being synthesized.
    Synthesizing,
    /// The audio is handed to the device and not audible yet.
    Playing,
    /// The audio is audible.
    Sounding,
    /// The last event has been emitted.
    Done,
}

/// What the caller reports.
#[derive(Debug, Clone, Copy, PartialEq, Eq, Structural)]
pub enum Observation {
    /// The speaking flag, read at the checkpoint before a sentence.
    Flag { speaking: bool },
    /// The sentence was normalized; `usable` says that this succeeded and
    /// left text.
    Prepared { usable: bool },
    /// Synthesis ended; `has_audio` says that it succeeded and produced
    /// samples.
    Synthesized { has_audio: bool },
    /// The audio has become audible.
    Audible,
    /// Playback is over: played to the end, cut off, or failed.
    PlaybackEnded,
}

/// What the caller does next.
#[derive(Debug, Clone, Copy, PartialEq, Eq, Structural)]
pub enum Directive {
    /// Read the speaking flag and report `Flag`.
    ReadFlag,
    /// Normalize the sentence at `index` and report `Prepared`.
    Prepare { index: usize },
    /// Synthesize the sentence at `index` and report `Synthesized`.
    Synthesize { index: usize },
    /// Play the audio of the sentence at `index`; report `Audible` when it is
    /// audible and `PlaybackEnded` when it is over.
    Play { index: usize },
    /// Wait for the audio of the sentence at `index` to end and report
    /// `PlaybackEnded`.
    AwaitPlayback { index: usize },
    /// Nothing: the reading is over.
    Halt,
}

/// A reading as plain values.
pub struct RunView {
    pub sentences: Seq<Seq<char>>,
    pub index: int,
    pub phase: RunPhase,
}

/// A reading before anything has happened: at the first sentence, or over
/// where there is none.
pub open spec fn spec_begin(sentences: Seq<Seq<char>>) -> (RunView, Seq<EventView>) {
    if sentences.len() == 0 {
        (RunView { sentences, index: 0, phase: RunPhase::Done }, seq![EventView::Finished])
    } else {
        (RunView { sentences, index: 0, phase: RunPhase::Checking }, Seq::empty())
    }
}

/// Moves on from the current sentence, after the events `emitted` for it: to
/// the checkpoint before the next sentence, or to the end with `Finished`.
pub open spec fn spec_advance(run: RunView, emitted: Seq<EventView>) -> (RunView, Seq<EventView>) {
    if run.index + 1 < run.sentences.len() {
        (RunView { index: run.index + 1, phase: RunPhase::Checking, ..run }, emitted)
    } else {
        (
            RunView { index: run.index + 1, phase: RunPhase::Done, ..run },
            emitted.push(EventView::Finished),
        )
    }
}

/// One step of a reading: the state after `seen`, and the events to emit. A
/// report that does not fit the phase changes nothing.
pub open spec fn spec_observe(run: RunView, seen: Observation) -> (RunView, Seq<EventView>) {
    let index = run.index;
    match (run.phase, seen) {
        (RunPhase::Checking, Observation::Flag { speaking }) => if speaking {
            (RunView { phase: RunPhase::Preparing, ..run }, Seq::empty())
        } else {
            (RunView { phase: RunPhase::Done, ..run }, seq![EventView::Stopped])
        },
        (RunPhase::Preparing, Observation::Prepared { usable }) => if usable {
            (RunView { phase: RunPhase::Synthesizing, ..run }, Seq::empty())
        } else {
            spec_advance(run, Seq::empty())
        },
        (RunPhase::Synthesizing, Observation::Synthesized { has_audio }) => if has_audio {
            (RunView { phase: RunPhase::Playing, ..run }, Seq::empty())
        } else {
            spec_advance(run, seq![EventView::End { index }])
        },
        (RunPhase::Playing, Observation::Audible) => (
            RunView { phase: RunPhase::Sounding, ..run },
            seq![EventView::Start { index, text: run.sentences[index] }],
        ),
        (RunPhase::Playing, Observation::PlaybackEnded) => spec_advance(
            run,
            seq![EventView::End { index }],
        ),
        (RunPhase::Sounding, Observation::PlaybackEnded) => spec_advance(
            run,
            seq![EventView::End { index }],
        ),
        _ => (run, Seq::empty()),
    }
}

/// What the caller does in a given state.
pub open spec fn spec_directive(run: RunView) -> Directive {
    match run.phase {
        RunPhase::Checking => Directive::ReadFlag,
        RunPhase::Preparing => Directive::Prepare { index: run.index as usize },
        RunPhase::Synthesizing => Directive::Synthesize { index: run.index as usize },
        RunPhase::Playing => Directive::Play { index: run.index as usize },
        RunPhase::Sounding => Directive::AwaitPlayback { index: run.index as usize },
        RunPhase::Done => Directive::Halt,
    }
}

/// The state after a series of reports, and every event emitted on the way,
/// from the start of the reading.
pub open spec fn spec_run(sentences: Seq<Seq<char>>, seen: Seq<Observation>) -> (
    RunView,
    Seq<EventView>,
)
    decreases seen.len(),
{
    if seen.len() == 0 {
        spec_begin(sentences)
    } else {
        let (before, events) = spec_run(sentences, seen.drop_last());
        let (after, emitted) = spec_observe(before, seen.last());
        (after, events + emitted)
    }
}

/// Whether `e` is the last event of a reading.
pub open spec fn is_terminal(e: EventView) -> bool {
    e is Finished || e is Stopped
}

/// The sentence that `e` is about; `-1` for a terminal event.
pub open spec fn sentence_of(e: EventView) -> int {
    match e {
        EventView::Start { index, .. } => index,
        EventView::End { index } => index,
        _ => -1,
    }
}

/// The order of events in a reading. Only the last event is terminal. Events
/// never go back to an earlier sentence. Every event before a `Start` is
/// about an earlier sentence, so a sentence never starts before the one
/// before it has ended. Every event after an `End` is about a later sentence
/// or is terminal. A `Start` is followed by the `End` of the same sentence
/// and by nothing else.
pub open spec fn well_ordered(events: Seq<EventView>) -> bool {
    &&& forall|p: int| 0 <= p < events.len() - 1 ==> !is_terminal(#[trigger] events[p])
    &&& forall|p: int, q: int|
        0 <= p < q < events.len() && !is_terminal(events[q]) ==> sentence_of(#[trigger] events[p])
            <= sentence_of(#[trigger] events[q])
    &&& forall|p: int, q: int|
        0 <= p < q < events.len() && events[q] is Start ==> sentence_of(#[trigger] events[p])
            < sentence_of(#[trigger] events[q])
    &&& forall|p: int, q: int|
        0 <= p < q < events.len() && events[p] is End && !is_terminal(events[q]) ==> sentence_of(
            #[trigger] events[p],
        ) < sentence_of(#[trigger] events[q])
    &&& forall|p: int|
        0 <= p < events.len() - 1 && (#[trigger] events[p]) is Start ==> events[p + 1]
            == (EventView::End { index: sentence_of(events[p]) })
}

/// What holds of a state and the events that led to it.
pub open spec fn run_invariant(run: RunView, events: Seq<EventView>) -> bool {
    &&& well_ordered(events)
    &&& 0 <= run.index <= run.sentences.len()
    &&& run.phase != RunPhase::Done ==> run.index < run.sentences.len()
    &&& match run.phase {
        RunPhase::Done => events.len() >= 1 && is_terminal(events.last()),
        RunPhase::Sounding => {
            &&& events.len() >= 1
            &&& events.last() == (EventView::Start {
                index: run.index,
                text: run.sentences[run.index],
            })
            &&& earlier_sentences(events.drop_last(), run.index)
        },
        _ => earlier_sentences(events, run.index) && (events.len() > 0 ==> !(
        events.last() is Start)),
    }
}

/// Every event of `events` is about a sentence before `index`.
pub open spec fn earlier_sentences(events: Seq<EventView>, index: int) -> bool {
    forall|p: int|
        0 <= p < events.len() ==> !is_terminal(#[trigger] events[p]) && sentence_of(events[p])
            < index
}

/// One more event keeps the order. The event is terminal or about sentence
/// `index`, and the events so far are about earlier sentences, but for a last
/// `Start` of sentence `index` itself, which only its `End` may follow.
proof fn lemma_push_event(events: Seq<EventView>, e: EventView, index: int)
    requires
        well_ordered(events),
        is_terminal(e) || sentence_of(e) == index,
        if events.len() > 0 && events.last() is Start {
            &&& e == (EventView::End { index })
            &&& sentence_of(events.last()) == index
            &&& earlier_sentences(events.drop_last(), index)
        } else {
            earlier_sentences(events, index)
        },
    ensures
        well_ordered(events.push(e)),
        e is End ==> earlier_sentences(events.push(e), index + 1),
{
    let all = events.push(e);
    let n = events.len() as int;
    assert forall|p: int| 0 <= p < n implies all[p] == events[p] && !is_terminal(
        #[trigger] events[p],
    ) && sentence_of(events[p]) <= index && (events[p] is End || e is Start ==> sentence_of(
        events[p],
    ) < index) by {
        if p < n - 1 {
            assert(events.drop_last()[p] == events[p]);
        }
    }
    assert(all[n] == e);
    assert forall|p: int| 0 <= p < all.len() - 1 implies !is_terminal(#[trigger] all[p]) by {
        assert(!is_terminal(events[p]));
    }
    assert forall|p: int, q: int|
        0 <= p < q < all.len() && !is_terminal(all[q]) implies sentence_of(#[trigger] all[p])
            <= sentence_of(#[trigger] all[q]) by {
        assert(sentence_of(events[p]) <= index);
        if q < n {
            assert(all[q] == events[q]);
        }
    }
    assert forall|p: int, q: int| 0 <= p < q < all.len() && all[q] is Start implies sentence_of(
        #[trigger] all[p],
    ) < sentence_of(#[trigger] all[q]) by {
        assert(all[p] == events[p]);
        if q < n {
            assert(all[q] == events[q]);
        }
    }
    assert forall|p: int, q: int|
        0 <= p < q < all.len() && all[p] is End && !is_terminal(all[q]) implies sentence_of(
            #[trigger] all[p],
        ) < sentence_of(#[trigger] all[q]) by {
        assert(all[p] == events[p]);
        if q < n {
            assert(all[q] == events[q]);
        }
    }
    assert forall|p: int| 0 <= p < all.len() - 1 && (#[trigger] all[p]) is Start implies all[p
        + 1] == (EventView::End { index: sentence_of(all[p]) }) by {
        assert(all[p] == events[p]);
        if p + 1 < n {
            assert(all[p + 1] == events[p + 1]);
        }
    }
    if e is End {
        assert forall|p: int| 0 <= p < all.len() implies !is_terminal(#[trigger] all[p])
            && sentence_of(all[p]) < index + 1 by {
            if p < n {
                assert(all[p] == events[p]);
            }
        }
    }
}

/// Moving on from a sentence whose events are emitted keeps the invariant.
proof fn lemma_advance_keeps_invariant(run: RunView, before: Seq<EventView>)
    requires
        0 <= run.index < run.sentences.len(),
        well_ordered(before),
        earlier_sentences(before, run.index + 1),
        before.len() > 0 ==> !(before.last() is Start),
    ensures
        run_invariant(spec_advance(run, before).0, spec_advance(run, before).1),
{
    if run.index + 1 >= run.sentences.len() {
        lemma_push_event(before, EventView::Finished, run.index + 1);
    }
}

/// Every step keeps the invariant.
proof fn lemma_step_keeps_invariant(run: RunView, events: Seq<EventView>, seen: Observation)
    requires
        run_invariant(run, events),
    ensures
        run_invariant(spec_observe(run, seen).0, events + spec_observe(run, seen).1),
{
    let (after, emitted) = spec_observe(run, seen);
    let index = run.index;
    let end = EventView::End { index };
    if emitted.len() == 0 {
        assert(events + emitted =~= events);
        if after != run && run.phase == RunPhase::Preparing && after.phase != RunPhase::Synthesizing {
            assert forall|p: int| 0 <= p < events.len() implies !is_terminal(#[trigger] events[p])
                && sentence_of(events[p]) < index + 1 by {}
        }
    } else {
        match (run.phase, seen) {
            (RunPhase::Checking, Observation::Flag { speaking }) => {
                assert(events + emitted =~= events.push(EventView::Stopped));
                lemma_push_event(events, EventView::Stopped, index);
            },
            (RunPhase::Preparing, Observation::Prepared { usable }) => {
                assert(emitted =~= seq![EventView::Finished]);
                assert(events + emitted =~= events.push(EventView::Finished));
                lemma_push_event(events, EventView::Finished, index);
            },
            (RunPhase::Playing, Observation::Audible) => {
                let start = EventView::Start { index, text: run.sentences[index] };
                assert(events + emitted =~= events.push(start));
                lemma_push_event(events, start, index);
                assert(events.push(start).drop_last() =~= events);
            },
            _ => {
                lemma_push_event(events, end, index);
                let ended = events.push(end);
                lemma_advance_keeps_invariant(run, ended);
                assert(spec_advance(run, seq![end]).0 == spec_advance(run, ended).0);
                assert(events + spec_advance(run, seq![end]).1 =~= spec_advance(run, ended).1);
            },
        }
    }
}

/// Every reading is well ordered, whatever is reported and in whatever
/// order. Once it is over, its last event is `Finished` or `Stopped` and no
/// other event is.
pub proof fn lemma_reading_is_well_ordered(sentences: Seq<Seq<char>>, seen: Seq<Observation>)
    ensures
        run_invariant(spec_run(sentences, seen).0, spec_run(sentences, seen).1),
        well_ordered(spec_run(sentences, seen).1),
        spec_run(sentences, seen).0.phase == RunPhase::Done ==> {
            let events = spec_run(sentences, seen).1;
            &&& events.len() >= 1
            &&& is_terminal(events.last())
            &&& forall|p: int| 0 <= p < events.len() - 1 ==> !is_terminal(#[trigger] events[p])
        },
    decreases seen.len(),
{
    if seen.len() > 0 {
        lemma_reading_is_well_ordered(sentences, seen.drop_last());
        let (before, events) = spec_run(sentences, seen.drop_last());
        lemma_step_keeps_invariant(before, events, seen.last());
    }
}

/// What is reported of a sentence that is spoken to its end.
pub open spec fn spoken_to_the_end() -> Seq<Observation> {
    seq![
        Observation::Flag { speaking: true },
        Observation::Prepared { usable: true },
        Observation::Synthesized { has_audio: true },
        Observation::Audible,
        Observation::PlaybackEnded,
    ]
}

/// The reports of a reading in which the first `count` sentences are spoken
/// to their end.
pub open spec fn undisturbed(count: nat) -> Seq<Observation>
    decreases count,
{
    if count == 0 {
        Seq::empty()
    } else {
        undisturbed((count - 1) as nat) + spoken_to_the_end()
    }
}

/// `Start` and `End` of each of the first `count` sentences, in order.
pub open spec fn spoken_events(sentences: Seq<Seq<char>>, count: nat) -> Seq<EventView>
    decreases count,
{
    if count == 0 {
        Seq::empty()
    } else {
        spoken_events(sentences, (count - 1) as nat).push(
            EventView::Start { index: count - 1, text: sentences[count - 1] },
        ).push(EventView::End { index: count - 1 })
    }
}

/// The state and the events after further reports.
pub open spec fn spec_continue(run: RunView, events: Seq<EventView>, seen: Seq<Observation>) -> (
    RunView,
    Seq<EventView>,
)
    decreases seen.len(),
{
    if seen.len() == 0 {
        (run, events)
    } else {
        let (before, so_far) = spec_continue(run, events, seen.drop_last());
        let (after, emitted) = spec_observe(before, seen.last());
        (after, so_far + emitted)
    }
}

/// A reading can be followed in two parts.
proof fn lemma_run_in_parts(sentences: Seq<Seq<char>>, first: Seq<Observation>, then: Seq<Observation>)
    ensures
        spec_run(sentences, first + then) == spec_continue(
            spec_run(sentences, first).0,
            spec_run(sentences, first).1,
            then,
        ),
    decreases then.len(),
{
    if then.len() == 0 {
        assert(first + then =~= first);
    } else {
        lemma_run_in_parts(sentences, first, then.drop_last());
        assert((first + then).drop_last() =~= first + then.drop_last());
        assert((first + then).last() == then.last());
    }
}

/// A sentence that is spoken to its end gives its `Start` and its `End`, and
/// `Finished` after the last sentence.
proof fn lemma_one_sentence_spoken(run: RunView, events: Seq<EventView>)
    requires
        run.phase == RunPhase::Checking,
        0 <= run.index < run.sentences.len(),
    ensures
        spec_continue(run, events, spoken_to_the_end()) == ({
            let spoken = events.push(
                EventView::Start { index: run.index, text: run.sentences[run.index] },
            ).push(EventView::End { index: run.index });
            if run.index + 1 < run.sentences.len() {
                (RunView { index: run.index + 1, phase: RunPhase::Checking, ..run }, spoken)
            } else {
                (
                    RunView { index: run.index + 1, phase: RunPhase::Done, ..run },
                    spoken.push(EventView::Finished),
                )
            }
        }),
{
    let all = spoken_to_the_end();
    let s4 = all.drop_last();
    let s3 = s4.drop_last();
    let s2 = s3.drop_last();
    let s1 = s2.drop_last();
    let s0 = s1.drop_last();
    assert(s0.len() == 0);
    let r0 = spec_continue(run, events, s0);
    assert(r0 == (run, events));
    let r1 = spec_continue(run, events, s1);
    assert(s1.last() == Observation::Flag { speaking: true });
    assert(r1.0 == RunView { phase: RunPhase::Preparing, ..run });
    assert(r1.1 =~= events);
    let r2 = spec_continue(run, events, s2);
    assert(s2.last() == Observation::Prepared { usable: true });
    assert(r2.0 == RunView { phase: RunPhase::Synthesizing, ..run });
    assert(r2.1 =~= events);
    let r3 = spec_continue(run, events, s3);
    assert(s3.last() == Observation::Synthesized { has_audio: true });
    assert(r3.0 == RunView { phase: RunPhase::Playing, ..run });
    assert(r3.1 =~= events);
    let r4 = spec_continue(run, events, s4);
    assert(s4.last() == Observation::Audible);
    assert(r4.0 == RunView { phase: RunPhase::Sounding, ..run });
    let start = EventView::Start { index: run.index, text: run.sentences[run.index] };
    assert(r4.1 =~= events.push(start));
    let r5 = spec_continue(run, events, all);
    assert(all.last() == Observation::PlaybackEnded);
    let end = EventView::End { index: run.index };
    if run.index + 1 < run.sentences.len() {
        assert(r5.1 =~= events.push(start).push(end));
    } else {
        assert(r5.1 =~= events.push(start).push(end).push(EventView::Finished));
    }
}

/// A reading that nothing disturbs: where every sentence is spoken to its
/// end, the events are `Start` and `End` of the first sentence, then of the
/// second, and so on, and `Finished` after the last.
pub proof fn lemma_undisturbed_reading(sentences: Seq<Seq<char>>, count: nat)
    requires
        count <= sentences.len(),
        sentences.len() > 0,
    ensures
        spec_run(sentences, undisturbed(count)) == (if count < sentences.len() {
            (
                RunView { sentences, index: count as int, phase: RunPhase::Checking },
                spoken_events(sentences, count),
            )
        } else {
            (
                RunView { sentences, index: count as int, phase: RunPhase::Done },
                spoken_events(sentences, count).push(EventView::Finished),
            )
        }),
    decreases count,
{
    if count > 0 {
        let before = (count - 1) as nat;
        lemma_undisturbed_reading(sentences, before);
        lemma_run_in_parts(sentences, undisturbed(before), spoken_to_the_end());
        let (run, events) = spec_run(sentences, undisturbed(before));
        lemma_one_sentence_spoken(run, events);
    }
}

/// After `Stopped` or `Finished` nothing more is emitted.
pub proof fn lemma_nothing_after_the_end(run: RunView, seen: Observation)
    requires
        run.phase == RunPhase::Done,
    ensures
        spec_observe(run, seen) == (run, Seq::<EventView>::empty()),
{
}

/// Stopping: once the flag is found cleared before a sentence, `Stopped` is
/// the one event that follows, whatever is reported afterwards. No sentence
/// starts any more.
pub proof fn lemma_stop_ends_the_reading(run: RunView, later: Seq<Observation>)
    requires
        run.phase == RunPhase::Checking,
    ensures
        spec_continue(
            spec_observe(run, Observation::Flag { speaking: false }).0,
            spec_observe(run, Observation::Flag { speaking: false }).1,
            later,
        ) == (RunView { phase: RunPhase::Done, ..run }, seq![EventView::Stopped]),
    decreases later.len(),
{
    if later.len() > 0 {
        lemma_stop_ends_the_reading(run, later.drop_last());
        let stopped = RunView { phase: RunPhase::Done, ..run };
        lemma_nothing_after_the_end(stopped, later.last());
        assert(seq![EventView::Stopped] + Seq::<EventView>::empty() =~= seq![EventView::Stopped]);
    }
}

/// A reading in progress.
pub struct SentenceRun {
    sentences: Vec<String>,
    index: usize,
    phase: RunPhase,
}

impl View for SentenceRun {
    type V = RunView;

    closed spec fn view(&self) -> RunView {
        RunView {
            sentences: Seq::new(self.sentences@.len(), |i: int| self.sentences@[i]@),
            index: self.index as int,
            phase: self.phase,
        }
    }
}

impl SentenceRun {
    /// The index stays within the sentences, and short of their end until
    /// the reading is over.
    #[verifier::type_invariant]
    spec fn well_formed(&self) -> bool {
        &&& self.index <= self.sentences@.len()
        &&& self.phase != RunPhase::Done ==> self.index < self.sentences@.len()
    }

    /// Begins a reading of `sentences`. The events are those to emit right
    /// away: `Finished` where there is no sentence, none otherwise.
    pub fn new(sentences: Vec<String>) -> (r: (SentenceRun, Vec<SentenceEvent>))
        ensures
            (r.0@, event_views(r.1@)) == spec_begin(
                Seq::new(sentences@.len(), |i: int| sentences@[i]@),
            ),
    {
        let mut events: Vec<SentenceEvent> = Vec::new();
        let phase = if sentences.len() == 0 {
            events.push(SentenceEvent::Finished);
            RunPhase::Done
        } else {
            RunPhase::Checking
        };
        let run = SentenceRun { sentences, index: 0, phase };
        proof {
            let ghost texts = Seq::new(sentences@.len(), |i: int| sentences@[i]@);
            assert(event_views(events@) =~= spec_begin(texts).1);
        }
        (run, events)
    }

    /// What the caller does next.
    pub fn directive(&self) -> (d: Directive)
        ensures
            d == spec_directive(self@),
    {
        match self.phase {
            RunPhase::Checking => Directive::ReadFlag,
            RunPhase::Preparing => Directive::Prepare { index: self.index },
            RunPhase::Synthesizing => Directive::Synthesize { index: self.index },
            RunPhase::Playing => Directive::Play { index: self.index },
            RunPhase::Sounding => Directive::AwaitPlayback { index: self.index },
            RunPhase::Done => Directive::Halt,
        }
    }

    /// The sentence that the reading is at, or none once it is over.
    pub fn current_sentence(&self) -> (s: Option<&str>)
        ensures
            match s {
                Some(text) => self@.phase != RunPhase::Done && text@
                    == self@.sentences[self@.index],
                None => self@.phase == RunPhase::Done,
            },
    {
        proof {
            use_type_invariant(self);
        }
        match self.phase {
            RunPhase::Done => None,
            _ => Some(self.sentences[self.index].as_str()),
        }
    }

    /// Whether the reading is over.
    pub fn is_done(&self) -> (b: bool)
        ensures
            b == (self@.phase == RunPhase::Done),
    {
        match self.phase {
            RunPhase::Done => true,
            _ => false,
        }
    }

    /// Moves on from the current sentence.
    fn advance(&mut self, events: &mut Vec<SentenceEvent>)
        requires
            old(self)@.phase != RunPhase::Done,
        ensures
            (final(self)@, event_views(final(events)@)) == spec_advance(
                old(self)@,
                event_views(old(events)@),
            ),
    {
        proof {
            use_type_invariant(&*self);
        }
        let count = self.sentences.len();
        self.phase = RunPhase::Done;
        self.index = self.index + 1;
        if self.index < count {
            self.phase = RunPhase::Checking;
        } else {
            events.push(SentenceEvent::Finished);
            proof {
                assert(event_views(events@) =~= event_views(old(events)@).push(
                    EventView::Finished,
                ));
            }
        }
    }

    /// Takes a report and answers with the events to emit, in order.
    pub fn observe(&mut self, seen: Observation) -> (events: Vec<SentenceEvent>)
        ensures
            (final(self)@, event_views(events@)) == spec_observe(old(self)@, seen),
    {
        let mut events: Vec<SentenceEvent> = Vec::new();
        proof {
            use_type_invariant(&*self);
            assert(event_views(events@) =~= Seq::<EventView>::empty());
        }
        let index = self.index;
        match (self.phase, seen) {
            (RunPhase::Checking, Observation::Flag { speaking }) => {
                if speaking {
                    self.phase = RunPhase::Preparing;
                } else {
                    self.phase = RunPhase::Done;
                    events.push(SentenceEvent::Stopped);
                    proof {
                        assert(event_views(events@) =~= seq![EventView::Stopped]);
                    }
                }
            },
            (RunPhase::Preparing, Observation::Prepared { usable }) => {
                if usable {
                    self.phase = RunPhase::Synthesizing;
                } else {
                    self.advance(&mut events);
                }
            },
            (RunPhase::Synthesizing, Observation::Synthesized { has_audio }) => {
                if has_audio {
                    self.phase = RunPhase::Playing;
                } else {
                    events.push(SentenceEvent::End { index });
                    proof {
                        assert(event_views(events@) =~= seq![
                            EventView::End { index: index as int },
                        ]);
                    }
                    self.advance(&mut events);
                }
            },
            (RunPhase::Playing, Observation::Audible) => {
                let text = self.sentences[index].clone();
                self.phase = RunPhase::Sounding;
                events.push(SentenceEvent::Start { index, text });
                proof {
                    assert(event_views(events@) =~= seq![
                        EventView::Start { index: index as int, text: old(self)@.sentences[index as int] },
                    ]);
                }
            },
            (RunPhase::Playing, Observation::PlaybackEnded) => {
                events.push(SentenceEvent::End { index });
                proof {
                    assert(event_views(events@) =~= seq![EventView::End { index: index as int }]);
                }
                self.advance(&mut events);
            },
            (RunPhase::Sounding, Observation::PlaybackEnded) => {
                events.push(SentenceEvent::End { index });
                proof {
                    assert(event_views(events@) =~= seq![EventView::End { index: index as int }]);
                }
                self.advance(&mut events);
            },
            _ => {},
        }
        events
    }
}

} // verus!
