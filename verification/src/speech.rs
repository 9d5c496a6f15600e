//! Speaking a text as one unit: its chunks are synthesized one after
//! another, their audio is put together, and the whole is played once.
//!
//! `SpeakRun` decides; the caller does the outside work. A chunk that fails
//! ends the run, and what was synthesized before it is not played.

use vstd::prelude::*;
use crate::synth::SynthesisError;

verus! {

/// Where the speaking of a text stands.
#[derive(Debug, Clone, Copy, PartialEq, Eq, Structural)]
pub enum SpeakPhase {
    /// Before a chunk: the speaking flag is to be read.
    Checking,
    /// The chunk is being synthesized.
    Synthesizing,
    /// The audio of all chunks is being played.
    Playing,
    /// The run is over.
    Done,
}

/// What the caller reports.
#[derive(Debug)]
pub enum SpeakReport {
    /// The speaking flag, read at the checkpoint before a chunk.
    Flag { speaking: bool },
    /// The chunk was synthesized to `samples`.
    Synthesized { samples: Vec<i16> },
    /// The chunk could not be synthesized.
    Failed { error: SynthesisError },
    /// Playback is over.
    PlaybackEnded,
}

/// What the caller does next.
#[derive(Debug, Clone, Copy, PartialEq, Eq, Structural)]
pub enum SpeakDirective {
    /// Read the speaking flag and report `Flag`.
    ReadFlag,
    /// Synthesize the chunk at `index` and report `Synthesized` or `Failed`.
    Synthesize { index: usize },
    /// Play the samples of the run and report `PlaybackEnded`.
    Play,
    /// Nothing: the run is over.
    Halt,
}

/// A run as plain values.
pub struct SpeakView {
    pub chunk_count: int,
    pub index: int,
    pub phase: SpeakPhase,
    pub samples: Seq<i16>,
    pub failure: Option<SynthesisError>,
}

/// The state once no further chunk is synthesized: playing, if there is
/// anything to play, and over if not.
pub open spec fn spec_wrap_up(run: SpeakView) -> SpeakView {
    if run.samples.len() > 0 {
        SpeakView { phase: SpeakPhase::Playing, ..run }
    } else {
        SpeakView { phase: SpeakPhase::Done, ..run }
    }
}

/// A run before anything has happened.
pub open spec fn spec_begin(chunk_count: int) -> SpeakView {
    SpeakView {
        chunk_count,
        index: 0,
        phase: if chunk_count <= 0 {
            SpeakPhase::Done
        } else {
            SpeakPhase::Checking
        },
        samples: Seq::empty(),
        failure: None,
    }
}

/// One step of a run. A cleared flag ends the synthesizing, and what there
/// is gets played. A synthesized chunk adds its samples. A failed chunk ends
/// the run at once. A report that does not fit the phase changes nothing.
pub open spec fn spec_observe(run: SpeakView, report: SpeakReport) -> SpeakView {
    match (run.phase, report) {
        (SpeakPhase::Checking, SpeakReport::Flag { speaking }) => if speaking {
            SpeakView { phase: SpeakPhase::Synthesizing, ..run }
        } else {
            spec_wrap_up(run)
        },
        (SpeakPhase::Synthesizing, SpeakReport::Synthesized { samples }) => {
            let grown = SpeakView {
                samples: run.samples + samples@,
                index: run.index + 1,
                ..run
            };
            if run.index + 1 < run.chunk_count {
                SpeakView { phase: SpeakPhase::Checking, ..grown }
            } else {
                spec_wrap_up(grown)
            }
        },
        (SpeakPhase::Synthesizing, SpeakReport::Failed { error }) => SpeakView {
            phase: SpeakPhase::Done,
            failure: Some(error),
            ..run
        },
        (SpeakPhase::Playing, SpeakReport::PlaybackEnded) => SpeakView {
            phase: SpeakPhase::Done,
            ..run
        },
        _ => run,
    }
}

/// What the caller does in a given state.
pub open spec fn spec_directive(run: SpeakView) -> SpeakDirective {
    match run.phase {
        SpeakPhase::Checking => SpeakDirective::ReadFlag,
        SpeakPhase::Synthesizing => SpeakDirective::Synthesize { index: run.index as usize },
        SpeakPhase::Playing => SpeakDirective::Play,
        SpeakPhase::Done => SpeakDirective::Halt,
    }
}

/// The state after a series of reports, from the start of the run.
pub open spec fn spec_run(chunk_count: int, reports: Seq<SpeakReport>) -> SpeakView
    decreases reports.len(),
{
    if reports.len() == 0 {
        spec_begin(chunk_count)
    } else {
        spec_observe(spec_run(chunk_count, reports.drop_last()), reports.last())
    }
}

/// Partial speech is not played: once a chunk has failed, the run is over,
/// and it stays over whatever is reported. A run is playing only while no
/// chunk has failed.
pub proof fn lemma_failure_is_final(chunk_count: int, reports: Seq<SpeakReport>)
    ensures
        spec_run(chunk_count, reports).failure is Some ==> spec_run(chunk_count, reports).phase
            == SpeakPhase::Done,
        0 <= spec_run(chunk_count, reports).index,
        spec_run(chunk_count, reports).chunk_count == chunk_count,
        spec_run(chunk_count, reports).phase == SpeakPhase::Checking || spec_run(
            chunk_count,
            reports,
        ).phase == SpeakPhase::Synthesizing ==> spec_run(chunk_count, reports).index
            < chunk_count,
    decreases reports.len(),
{
    if reports.len() > 0 {
        lemma_failure_is_final(chunk_count, reports.drop_last());
    }
}

/// The speaking of one text.
pub struct SpeakRun {
    chunk_count: usize,
    index: usize,
    phase: SpeakPhase,
    samples: Vec<i16>,
    failure: Option<SynthesisError>,
}

impl View for SpeakRun {
    type V = SpeakView;

    closed spec fn view(&self) -> SpeakView {
        SpeakView {
            chunk_count: self.chunk_count as int,
            index: self.index as int,
            phase: self.phase,
            samples: self.samples@,
            failure: self.failure,
        }
    }
}

impl SpeakRun {
    /// While chunks remain to be synthesized, the index is short of their
    /// count.
    #[verifier::type_invariant]
    spec fn well_formed(&self) -> bool {
        (self.phase == SpeakPhase::Checking || self.phase == SpeakPhase::Synthesizing)
            ==> self.index < self.chunk_count
    }

    /// Begins the speaking of a text of `chunk_count` chunks.
    pub fn new(chunk_count: usize) -> (run: SpeakRun)
        ensures
            run@ == spec_begin(chunk_count as int),
    {
        let phase = if chunk_count == 0 {
            SpeakPhase::Done
        } else {
            SpeakPhase::Checking
        };
        SpeakRun { chunk_count, index: 0, phase, samples: Vec::new(), failure: None }
    }

    /// What the caller does next.
    pub fn directive(&self) -> (d: SpeakDirective)
        ensures
            d == spec_directive(self@),
    {
        match self.phase {
            SpeakPhase::Checking => SpeakDirective::ReadFlag,
            SpeakPhase::Synthesizing => SpeakDirective::Synthesize { index: self.index },
            SpeakPhase::Playing => SpeakDirective::Play,
            SpeakPhase::Done => SpeakDirective::Halt,
        }
    }

    /// The samples synthesized so far, in the order of their chunks.
    pub fn samples(&self) -> (s: &Vec<i16>)
        ensures
            s@ == self@.samples,
    {
        &self.samples
    }

    /// Whether the run is over.
    pub fn is_done(&self) -> (b: bool)
        ensures
            b == (self@.phase == SpeakPhase::Done),
    {
        match self.phase {
            SpeakPhase::Done => true,
            _ => false,
        }
    }

    /// How the run ended: with the error of the chunk that failed, or well.
    pub fn into_result(self) -> (r: Result<(), SynthesisError>)
        ensures
            match self@.failure {
                Some(e) => r == Err::<(), SynthesisError>(e),
                None => r is Ok,
            },
    {
        match self.failure {
            Some(e) => Err(e),
            None => Ok(()),
        }
    }

    /// Ends the synthesizing: plays what there is, or ends the run.
    fn wrap_up(&mut self)
        ensures
            final(self)@ == spec_wrap_up(old(self)@),
    {
        if self.samples.len() > 0 {
            self.phase = SpeakPhase::Playing;
        } else {
            self.phase = SpeakPhase::Done;
        }
    }

    /// Takes a report.
    pub fn observe(&mut self, report: SpeakReport)
        ensures
            final(self)@ == spec_observe(old(self)@, report),
    {
        proof {
            use_type_invariant(&*self);
        }
        match (self.phase, report) {
            (SpeakPhase::Checking, SpeakReport::Flag { speaking }) => {
                if speaking {
                    self.phase = SpeakPhase::Synthesizing;
                } else {
                    self.wrap_up();
                }
            },
            (SpeakPhase::Synthesizing, SpeakReport::Synthesized { samples }) => {
                let mut joined: Vec<i16> = Vec::new();
                let mut j: usize = 0;
                while j < self.samples.len()
                    invariant
                        j <= self.samples.len(),
                        joined@ == self.samples@.take(j as int),
                    decreases self.samples.len() - j,
                {
                    proof {
                        assert(self.samples@.take(j + 1) =~= self.samples@.take(j as int).push(
                            self.samples@[j as int],
                        ));
                    }
                    joined.push(self.samples[j]);
                    j += 1;
                }
                proof {
                    assert(self.samples@.take(j as int) =~= self.samples@);
                }
                let ghost base = joined@;
                let mut k: usize = 0;
                while k < samples.len()
                    invariant
                        k <= samples.len(),
                        joined@ == base + samples@.take(k as int),
                    decreases samples.len() - k,
                {
                    proof {
                        assert(samples@.take(k + 1) =~= samples@.take(k as int).push(
                            samples@[k as int],
                        ));
                        assert((base + samples@.take(k as int)).push(samples@[k as int]) =~= base
                            + samples@.take(k + 1));
                    }
                    joined.push(samples[k]);
                    k += 1;
                }
                proof {
                    assert(samples@.take(k as int) =~= samples@);
                }
                self.samples = joined;
                let count = self.chunk_count;
                self.phase = SpeakPhase::Done;
                self.index = self.index + 1;
                if self.index < count {
                    self.phase = SpeakPhase::Checking;
                } else {
                    self.wrap_up();
                }
            },
            (SpeakPhase::Synthesizing, SpeakReport::Failed { error }) => {
                self.phase = SpeakPhase::Done;
                self.failure = Some(error);
            },
            (SpeakPhase::Playing, SpeakReport::PlaybackEnded) => {
                self.phase = SpeakPhase::Done;
            },
            _ => {},
        }
    }
}

} // verus!
