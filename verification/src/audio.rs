//! Audio as 16-bit samples: framing into a WAVE container, buffering of
//! chunks, and the decisions of a playback that must say when it has become
//! audible and must stop when told to.

use vstd::prelude::*;

verus! {

/// Errors of audio output.
#[derive(Debug)]
pub enum AudioError {
    /// The output stream could not be created.
    StreamError(String),
    /// Playback failed.
    PlaybackError(String),
    /// The audio could not be brought into the container format.
    FormatError(String),
    /// There is nothing to play.
    NoAudio,
}

impl AudioError {
    /// The text of `message`.
    pub open spec fn spec_message(self) -> Seq<char> {
        match self {
            AudioError::StreamError(s) => "Failed to create output stream: "@ + s@,
            AudioError::PlaybackError(s) => "Playback error: "@ + s@,
            AudioError::FormatError(s) => "Audio format error: "@ + s@,
            AudioError::NoAudio => "No audio available"@,
        }
    }

    /// A sentence a person can read.
    pub fn message(&self) -> (out: String)
        ensures
            out@ == self.spec_message(),
    {
        match self {
            AudioError::StreamError(s) => String::from_str(
                "Failed to create output stream: ",
            ).concat(s.as_str()),
            AudioError::PlaybackError(s) => String::from_str("Playback error: ").concat(
                s.as_str(),
            ),
            AudioError::FormatError(s) => String::from_str("Audio format error: ").concat(
                s.as_str(),
            ),
            AudioError::NoAudio => String::from_str("No audio available"),
        }
    }
}

/// A 16-bit value, low byte first.
pub open spec fn le16(x: int) -> Seq<u8> {
    seq![(x % 256) as u8, ((x / 256) % 256) as u8]
}

/// A 32-bit value, low byte first.
pub open spec fn le32(x: int) -> Seq<u8> {
    seq![
        (x % 256) as u8,
        ((x / 256) % 256) as u8,
        ((x / 65536) % 256) as u8,
        ((x / 16777216) % 256) as u8,
    ]
}

/// A sample in two's complement, low byte first.
pub open spec fn sample_bytes(s: i16) -> Seq<u8> {
    le16(
        if s < 0 {
            s + 65536
        } else {
            s as int
        },
    )
}

/// The samples one after another, two bytes each.
pub open spec fn pcm_bytes(samples: Seq<i16>) -> Seq<u8>
    decreases samples.len(),
{
    if samples.len() == 0 {
        Seq::empty()
    } else {
        pcm_bytes(samples.drop_last()) + sample_bytes(samples.last())
    }
}

/// The bits that name the speakers of `channels` channels: one per channel,
/// at most eighteen.
pub open spec fn channel_mask(channels: u16) -> int {
    if channels >= 18 {
        0x3FFFF
    } else {
        vstd::arithmetic::power2::pow2(channels as nat) - 1
    }
}

/// The identifier of integer samples in the extended format block.
pub open spec fn pcm_subformat() -> Seq<u8> {
    seq![
        0x01u8,
        0x00u8,
        0x00u8,
        0x00u8,
        0x00u8,
        0x00u8,
        0x10u8,
        0x00u8,
        0x80u8,
        0x00u8,
        0x00u8,
        0xaau8,
        0x00u8,
        0x38u8,
        0x9bu8,
        0x71u8,
    ]
}

/// The fields that both format blocks share: channels, sample rate, bytes per
/// second, bytes per frame.
pub open spec fn wave_format(sample_rate: u32, channels: u16) -> Seq<u8> {
    le16(channels as int) + le32(sample_rate as int) + le32(sample_rate * 2 * channels) + le16(
        2 * channels,
    )
}

/// The format block: the plain one for one or two channels, the extended one
/// for more.
pub open spec fn format_block(sample_rate: u32, channels: u16) -> Seq<u8> {
    if channels > 2 {
        le32(40) + le16(0xfffe) + wave_format(sample_rate, channels) + le16(16) + le16(22) + le16(
            16,
        ) + le32(channel_mask(channels)) + pcm_subformat()
    } else {
        le32(16) + le16(1) + wave_format(sample_rate, channels) + le16(16)
    }
}

/// The four bytes of a chunk tag.
pub open spec fn tag(a: u8, b: u8, c: u8, d: u8) -> Seq<u8> {
    seq![a, b, c, d]
}

/// A WAVE file of 16-bit integer samples: `RIFF`, the size of what follows,
/// `WAVE`, the `fmt ` block, and the `data` block with the samples.
pub open spec fn spec_wav(samples: Seq<i16>, sample_rate: u32, channels: u16) -> Seq<u8> {
    let format = format_block(sample_rate, channels);
    let data = pcm_bytes(samples);
    tag(0x52, 0x49, 0x46, 0x46) + le32((2 * samples.len() + format.len() + 16) as int) + tag(
        0x57,
        0x41,
        0x56,
        0x45,
    ) + tag(0x66, 0x6d, 0x74, 0x20) + format + tag(0x64, 0x61, 0x74, 0x61) + le32(
        (2 * samples.len()) as int,
    ) + data
}

/// Two bytes per sample.
pub proof fn lemma_pcm_len(samples: Seq<i16>)
    ensures
        pcm_bytes(samples).len() == 2 * samples.len(),
    decreases samples.len(),
{
    if samples.len() > 0 {
        lemma_pcm_len(samples.drop_last());
    }
}

/// The size of a WAVE file: a header of 44 bytes for one or two channels and
/// of 68 bytes for more, then two bytes per sample. The file begins with
/// `RIFF`, and `WAVE` follows the size field.
pub proof fn lemma_wav_layout(samples: Seq<i16>, sample_rate: u32, channels: u16)
    ensures
        spec_wav(samples, sample_rate, channels).len() == 2 * samples.len() + if channels > 2 {
            68int
        } else {
            44int
        },
        spec_wav(samples, sample_rate, channels).subrange(0, 4) == tag(0x52, 0x49, 0x46, 0x46),
        spec_wav(samples, sample_rate, channels).subrange(8, 12) == tag(0x57, 0x41, 0x56, 0x45),
{
    lemma_pcm_len(samples);
    let wav = spec_wav(samples, sample_rate, channels);
    assert(wav.subrange(0, 4) =~= tag(0x52, 0x49, 0x46, 0x46));
    assert(wav.subrange(8, 12) =~= tag(0x57, 0x41, 0x56, 0x45));
}

/// What the encoder can take: at least one channel and one sample per
/// second, and sizes that fit the 32-bit fields of the container.
pub open spec fn encodable(sample_count: nat, sample_rate: u32, channels: u16) -> bool {
    &&& channels >= 1
    &&& sample_rate >= 1
    &&& 2 * channels <= u16::MAX
    &&& sample_rate * 2 * channels <= u32::MAX
    &&& 2 * sample_count + 60 <= u32::MAX
}

/// `hound::Error`, the error of the WAVE writer; nothing is known of what
/// it holds.
#[verifier::external_type_specification]
#[verifier::external_body]
pub struct ExHoundError(hound::Error);

/// Writes `samples` with `hound::WavWriter` (`new`, `write_sample` for each
/// sample, `finalize`) into memory, as integer samples of `bits` bits. The
/// writer fails only where the samples do not fill whole frames; otherwise
/// the bytes are those of `spec_wav`.
#[verifier::external_body]
fn encode_wav(samples: &Vec<i16>, sample_rate: u32, channels: u16, bits: u16) -> (r: Result<
    Vec<u8>,
    hound::Error,
>)
    requires
        bits == 16,
        encodable(samples@.len(), sample_rate, channels),
    ensures
        r is Ok <==> samples@.len() % (channels as nat) == 0,
        r matches Ok(bytes) ==> bytes@ == spec_wav(samples@, sample_rate, channels),
{
    let sample_format = hound::SampleFormat::Int;
    let spec = hound::WavSpec { channels, sample_rate, bits_per_sample: bits, sample_format };
    let mut cursor = std::io::Cursor::new(Vec::new());
    let mut writer = hound::WavWriter::new(&mut cursor, spec)?;
    for sample in samples.iter() {
        writer.write_sample(*sample)?;
    }
    writer.finalize()?;
    Ok(cursor.into_inner())
}

/// The words of a `hound::Error`, as its `Display` gives them. Nothing is
/// claimed of them.
#[verifier::external_body]
fn encoder_error_text(e: &hound::Error) -> String {
    e.to_string()
}

/// Samples with their rate and channel count.
#[derive(Debug)]
pub struct AudioData {
    /// The samples; with several channels, frame after frame.
    pub samples: Vec<i16>,
    /// Samples per second and channel.
    pub sample_rate: u32,
    /// Number of channels.
    pub channels: u16,
}

/// The duration in milliseconds of `sample_count` samples, rounded down, or
/// none where rate or channel count is zero or the duration exceeds what a
/// `u64` holds.
pub open spec fn spec_duration_millis(sample_count: nat, sample_rate: u32, channels: u16) -> Option<
    u64,
> {
    if sample_rate == 0 || channels == 0 {
        None
    } else {
        let ms = (sample_count * 1000) as int / (sample_rate * channels) as int;
        if ms > u64::MAX {
            None
        } else {
            Some(ms as u64)
        }
    }
}

impl AudioData {
    /// Audio of the given samples.
    pub fn new(samples: Vec<i16>, sample_rate: u32, channels: u16) -> (a: AudioData)
        ensures
            a.samples == samples,
            a.sample_rate == sample_rate,
            a.channels == channels,
    {
        AudioData { samples, sample_rate, channels }
    }

    /// The duration in milliseconds, rounded down; none where rate or
    /// channel count is zero or the duration exceeds what a `u64` holds.
    pub fn duration_millis(&self) -> (d: Option<u64>)
        ensures
            d == spec_duration_millis(self.samples@.len(), self.sample_rate, self.channels),
    {
        if self.sample_rate == 0 || self.channels == 0 {
            return None;
        }
        let rate: u128 = self.sample_rate as u128;
        let channels: u128 = self.channels as u128;
        assert(1 <= rate * channels <= 0xFFFF_FFFF * 0xFFFF) by (nonlinear_arith)
            requires
                1 <= rate <= 0xFFFF_FFFF,
                1 <= channels <= 0xFFFF,
        ;
        let per_second: u128 = rate * channels;
        let scaled: u128 = self.samples.len() as u128 * 1000;
        let ms: u128 = scaled / per_second;
        if ms > u64::MAX as u128 {
            None
        } else {
            Some(ms as u64)
        }
    }

    /// Wraps the samples into a WAVE file in memory. Fails with
    /// `FormatError` where the encoder cannot take the audio (see
    /// `encodable`) and where the samples do not fill whole frames.
    pub fn to_wav_bytes(&self) -> (r: Result<Vec<u8>, AudioError>)
        ensures
            r is Ok <==> encodable(self.samples@.len(), self.sample_rate, self.channels)
                && self.samples@.len() % (self.channels as nat) == 0,
            r matches Ok(bytes) ==> bytes@ == spec_wav(
                self.samples@,
                self.sample_rate,
                self.channels,
            ),
            r matches Err(e) ==> e is FormatError,
    {
        if !can_encode(self.samples.len(), self.sample_rate, self.channels) {
            return Err(
                AudioError::FormatError(
                    String::from_str("Sample rate, channel count or length out of range"),
                ),
            );
        }
        match encode_wav(&self.samples, self.sample_rate, self.channels, 16) {
            Ok(bytes) => Ok(bytes),
            Err(e) => Err(AudioError::FormatError(encoder_error_text(&e))),
        }
    }
}

/// Whether the encoder can take audio of these dimensions.
pub fn can_encode(sample_count: usize, sample_rate: u32, channels: u16) -> (b: bool)
    ensures
        b == encodable(sample_count as nat, sample_rate, channels),
{
    if channels < 1 || channels > 32767 || sample_rate < 1 {
        return false;
    }
    let frame: u64 = 2 * (channels as u64);
    let rate: u64 = sample_rate as u64;
    assert(rate * frame <= 0xFFFF_FFFF * 65534) by (nonlinear_arith)
        requires
            rate <= 0xFFFF_FFFF,
            frame <= 65534,
    ;
    assert(rate * frame == sample_rate * 2 * channels) by (nonlinear_arith)
        requires
            rate == sample_rate,
            frame == 2 * channels,
    ;
    rate * frame <= 0xFFFF_FFFF && (sample_count as u128) * 2 + 60 <= 0xFFFF_FFFF
}

/// The samples of all of `chunks`, in order.
pub open spec fn spec_combined(chunks: Seq<AudioData>) -> Seq<i16>
    decreases chunks.len(),
{
    if chunks.len() == 0 {
        Seq::empty()
    } else {
        spec_combined(chunks.drop_last()) + chunks.last().samples@
    }
}

/// The summed durations of `chunks` in milliseconds, capped at the largest
/// `u64`; a chunk without a duration counts as zero.
pub open spec fn spec_total_millis(chunks: Seq<AudioData>) -> nat
    decreases chunks.len(),
{
    if chunks.len() == 0 {
        0
    } else {
        let last = chunks.last();
        let own: nat = match spec_duration_millis(
            last.samples@.len(),
            last.sample_rate,
            last.channels,
        ) {
            Some(ms) => ms as nat,
            None => 0,
        };
        let sum = spec_total_millis(chunks.drop_last()) + own;
        if sum > u64::MAX {
            u64::MAX as nat
        } else {
            sum as nat
        }
    }
}

/// Chunks of audio that share one rate and channel count.
pub struct AudioChunkBuffer {
    chunks: Vec<AudioData>,
    sample_rate: u32,
    channels: u16,
}

impl AudioChunkBuffer {
    /// The chunks held, oldest first.
    pub closed spec fn spec_chunks(&self) -> Seq<AudioData> {
        self.chunks@
    }

    /// The sample rate of every chunk.
    pub closed spec fn spec_sample_rate(&self) -> u32 {
        self.sample_rate
    }

    /// The channel count of every chunk.
    pub closed spec fn spec_channels(&self) -> u16 {
        self.channels
    }

    /// An empty buffer.
    pub fn new(sample_rate: u32, channels: u16) -> (b: AudioChunkBuffer)
        ensures
            b.spec_chunks() == Seq::<AudioData>::empty(),
            b.spec_sample_rate() == sample_rate,
            b.spec_channels() == channels,
    {
        AudioChunkBuffer { chunks: Vec::new(), sample_rate, channels }
    }

    /// Adds a chunk after those that are held.
    pub fn push_chunk(&mut self, samples: Vec<i16>)
        ensures
            final(self).spec_chunks() == old(self).spec_chunks().push(
                AudioData {
                    samples,
                    sample_rate: old(self).spec_sample_rate(),
                    channels: old(self).spec_channels(),
                },
            ),
            final(self).spec_sample_rate() == old(self).spec_sample_rate(),
            final(self).spec_channels() == old(self).spec_channels(),
    {
        let chunk = AudioData::new(samples, self.sample_rate, self.channels);
        self.chunks.push(chunk);
    }

    /// All chunks as one piece of audio.
    pub fn combine(&self) -> (a: AudioData)
        ensures
            a.samples@ == spec_combined(self.spec_chunks()),
            a.sample_rate == self.spec_sample_rate(),
            a.channels == self.spec_channels(),
    {
        let mut combined: Vec<i16> = Vec::new();
        let mut i: usize = 0;
        while i < self.chunks.len()
            invariant
                i <= self.chunks.len(),
                combined@ == spec_combined(self.chunks@.take(i as int)),
            decreases self.chunks.len() - i,
        {
            let ghost before = combined@;
            let chunk = &self.chunks[i];
            let mut k: usize = 0;
            while k < chunk.samples.len()
                invariant
                    k <= chunk.samples.len(),
                    combined@ == before + chunk.samples@.take(k as int),
                decreases chunk.samples.len() - k,
            {
                proof {
                    assert(chunk.samples@.take(k + 1) =~= chunk.samples@.take(k as int).push(
                        chunk.samples@[k as int],
                    ));
                    assert((before + chunk.samples@.take(k as int)).push(chunk.samples@[k as int])
                        =~= before + chunk.samples@.take(k + 1));
                }
                combined.push(chunk.samples[k]);
                k += 1;
            }
            proof {
                assert(chunk.samples@.take(k as int) =~= chunk.samples@);
                assert(self.chunks@.take(i + 1).drop_last() =~= self.chunks@.take(i as int));
                assert(self.chunks@.take(i + 1).last() == self.chunks@[i as int]);
            }
            i += 1;
        }
        proof {
            assert(self.chunks@.take(i as int) =~= self.chunks@);
        }
        AudioData::new(combined, self.sample_rate, self.channels)
    }

    /// Drops every chunk.
    pub fn clear(&mut self)
        ensures
            final(self).spec_chunks() == Seq::<AudioData>::empty(),
            final(self).spec_sample_rate() == old(self).spec_sample_rate(),
            final(self).spec_channels() == old(self).spec_channels(),
    {
        self.chunks.clear();
    }

    /// The number of chunks held.
    pub fn chunk_count(&self) -> (n: usize)
        ensures
            n == self.spec_chunks().len(),
    {
        self.chunks.len()
    }

    /// The summed durations of the chunks in milliseconds.
    pub fn total_duration_millis(&self) -> (total: u64)
        ensures
            total == spec_total_millis(self.spec_chunks()),
    {
        let mut total: u64 = 0;
        let mut i: usize = 0;
        while i < self.chunks.len()
            invariant
                i <= self.chunks.len(),
                total == spec_total_millis(self.chunks@.take(i as int)),
            decreases self.chunks.len() - i,
        {
            proof {
                assert(self.chunks@.take(i + 1).drop_last() =~= self.chunks@.take(i as int));
                assert(self.chunks@.take(i + 1).last() == self.chunks@[i as int]);
            }
            let own = match self.chunks[i].duration_millis() {
                Some(ms) => ms,
                None => 0,
            };
            total = total.saturating_add(own);
            i += 1;
        }
        proof {
            assert(self.chunks@.take(i as int) =~= self.chunks@);
        }
        total
    }
}

/// The wait between handing audio to the device and calling it audible, in
/// milliseconds. It stands for the latency of the device's buffers.
pub const START_DELAY_MS: u64 = 50;

/// The wait between two looks at the speaking flag during playback, in
/// milliseconds.
pub const POLL_INTERVAL_MS: u64 = 50;

/// Where a playback stands.
#[derive(Debug, Clone, Copy, PartialEq, Eq, Structural)]
pub enum PlaybackPhase {
    /// The audio is handed to the device; the start delay is running.
    Queued,
    /// The audio is audible and the device is polled.
    Audible,
    /// The playback is over.
    Done,
}

/// What the playing side reports.
#[derive(Debug, Clone, Copy, PartialEq, Eq, Structural)]
pub enum PlaybackSignal {
    /// The start delay has passed.
    DelayElapsed,
    /// The device was polled: `drained` says that it has played everything,
    /// `speaking` is the speaking flag.
    Polled { drained: bool, speaking: bool },
}

/// What the playing side does next.
#[derive(Debug, Clone, Copy, PartialEq, Eq, Structural)]
pub enum PlaybackAction {
    /// Wait for `millis` milliseconds, then report `DelayElapsed`.
    Delay { millis: u64 },
    /// Tell the listener that the audio is audible, then poll the device.
    Announce,
    /// Wait for `millis` milliseconds, then poll the device again.
    Wait { millis: u64 },
    /// Stop the device at once; the playback is over.
    Stop,
    /// Let the device run out; the playback is over.
    Drain,
    /// Nothing: the playback is over.
    Nothing,
}

/// One step of a playback: the phase after `signal`, and what to do. A
/// signal that does not fit the phase changes nothing.
pub open spec fn spec_react(phase: PlaybackPhase, signal: PlaybackSignal) -> (
    PlaybackPhase,
    PlaybackAction,
) {
    match (phase, signal) {
        (PlaybackPhase::Queued, PlaybackSignal::DelayElapsed) => (
            PlaybackPhase::Audible,
            PlaybackAction::Announce,
        ),
        (PlaybackPhase::Queued, _) => (
            PlaybackPhase::Queued,
            PlaybackAction::Delay { millis: START_DELAY_MS },
        ),
        (PlaybackPhase::Audible, PlaybackSignal::Polled { drained, speaking }) => if drained {
            (PlaybackPhase::Done, PlaybackAction::Drain)
        } else if !speaking {
            (PlaybackPhase::Done, PlaybackAction::Stop)
        } else {
            (PlaybackPhase::Audible, PlaybackAction::Wait { millis: POLL_INTERVAL_MS })
        },
        (PlaybackPhase::Audible, _) => (
            PlaybackPhase::Audible,
            PlaybackAction::Wait { millis: POLL_INTERVAL_MS },
        ),
        (PlaybackPhase::Done, _) => (PlaybackPhase::Done, PlaybackAction::Nothing),
    }
}

/// The phase after a series of signals, and the actions taken on the way,
/// from the moment the audio is handed to the device.
pub open spec fn spec_playback(signals: Seq<PlaybackSignal>) -> (
    PlaybackPhase,
    Seq<PlaybackAction>,
)
    decreases signals.len(),
{
    if signals.len() == 0 {
        (PlaybackPhase::Queued, Seq::empty())
    } else {
        let (phase, actions) = spec_playback(signals.drop_last());
        let (next, action) = spec_react(phase, signals.last());
        (next, actions.push(action))
    }
}

/// How often `actions` announce the audio as audible.
pub open spec fn announcements(actions: Seq<PlaybackAction>) -> nat
    decreases actions.len(),
{
    if actions.len() == 0 {
        0
    } else {
        announcements(actions.drop_last()) + if actions.last() is Announce {
            1nat
        } else {
            0nat
        }
    }
}

/// The audio is announced as audible exactly once, when the start delay has
/// passed, and never before: while the delay runs there is no announcement,
/// and from then on there is exactly one. Polling, stopping and draining
/// happen only after it.
pub proof fn lemma_announced_once(signals: Seq<PlaybackSignal>)
    ensures
        ({
            let (phase, actions) = spec_playback(signals);
            &&& actions.len() == signals.len()
            &&& announcements(actions) == if phase is Queued {
                0nat
            } else {
                1nat
            }
            &&& forall|i: int|
                0 <= i < actions.len() && (actions[i] is Wait || actions[i] is Stop
                    || actions[i] is Drain) ==> announcements(#[trigger] actions.take(i)) == 1
        }),
    decreases signals.len(),
{
    if signals.len() > 0 {
        lemma_announced_once(signals.drop_last());
        let (phase, actions) = spec_playback(signals.drop_last());
        let (next, action) = spec_react(phase, signals.last());
        let all = actions.push(action);
        assert(all.drop_last() =~= actions);
        assert forall|i: int|
            0 <= i < all.len() && (all[i] is Wait || all[i] is Stop || all[i] is Drain) implies announcements(
            #[trigger] all.take(i),
        ) == 1 by {
            if i < actions.len() {
                assert(all.take(i) =~= actions.take(i));
            } else {
                assert(all.take(i) =~= actions);
            }
        }
    }
}

/// Follows one playback.
pub struct PlaybackMonitor {
    phase: PlaybackPhase,
}

impl View for PlaybackMonitor {
    type V = PlaybackPhase;

    closed spec fn view(&self) -> PlaybackPhase {
        self.phase
    }
}

impl PlaybackMonitor {
    /// A playback whose audio was just handed to the device. The first thing
    /// to do is to wait out the start delay.
    pub fn new() -> (r: (PlaybackMonitor, PlaybackAction))
        ensures
            r.0@ == PlaybackPhase::Queued,
            r.1 == (PlaybackAction::Delay { millis: START_DELAY_MS }),
    {
        (
            PlaybackMonitor { phase: PlaybackPhase::Queued },
            PlaybackAction::Delay { millis: START_DELAY_MS },
        )
    }

    /// Takes a signal and answers with what to do.
    pub fn react(&mut self, signal: PlaybackSignal) -> (action: PlaybackAction)
        ensures
            (final(self)@, action) == spec_react(old(self)@, signal),
    {
        match (self.phase, signal) {
            (PlaybackPhase::Queued, PlaybackSignal::DelayElapsed) => {
                self.phase = PlaybackPhase::Audible;
                PlaybackAction::Announce
            },
            (PlaybackPhase::Queued, _) => PlaybackAction::Delay { millis: START_DELAY_MS },
            (PlaybackPhase::Audible, PlaybackSignal::Polled { drained, speaking }) => {
                if drained {
                    self.phase = PlaybackPhase::Done;
                    PlaybackAction::Drain
                } else if !speaking {
                    self.phase = PlaybackPhase::Done;
                    PlaybackAction::Stop
                } else {
                    PlaybackAction::Wait { millis: POLL_INTERVAL_MS }
                }
            },
            (PlaybackPhase::Audible, _) => PlaybackAction::Wait { millis: POLL_INTERVAL_MS },
            (PlaybackPhase::Done, _) => PlaybackAction::Nothing,
        }
    }

    /// Whether the playback is over.
    pub fn is_done(&self) -> (b: bool)
        ensures
            b == (self@ == PlaybackPhase::Done),
    {
        match self.phase {
            PlaybackPhase::Done => true,
            _ => false,
        }
    }
}

} // verus!
