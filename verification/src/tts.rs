//! The native voice of the operating system, as far as its rules go: what a
//! front end is shown of it, how rates are normalized, how a voice is found.
//!
//! Rates are in thousandths of the standard range: `0` is the slowest,
//! `1000` the fastest, `500` normal speed.

use vstd::prelude::*;
use crate::text::str_equal;

verus! {

/// The rate of normal speed.
pub const NORMAL_RATE_MILLI: i32 = 500;

/// What a front end shows of a voice.
#[derive(Debug, Clone)]
pub struct VoiceInfo {
    /// The identifier of the voice on this platform.
    pub id: String,
    /// The name shown to people.
    pub name: String,
    /// The language code, such as `en-US`.
    pub language: Option<String>,
}

/// What the platform's voice can do.
#[derive(Debug, Clone, Copy, PartialEq, Eq, Structural)]
pub struct TtsFeatures {
    pub stop: bool,
    pub rate: bool,
    pub pitch: bool,
    pub volume: bool,
    pub is_speaking: bool,
    pub voice: bool,
    pub utterance_callbacks: bool,
}

impl TtsFeatures {
    /// No feature at all.
    pub open spec fn spec_none() -> TtsFeatures {
        TtsFeatures {
            stop: false,
            rate: false,
            pitch: false,
            volume: false,
            is_speaking: false,
            voice: false,
            utterance_callbacks: false,
        }
    }

    /// No feature at all.
    pub fn none() -> (f: TtsFeatures)
        ensures
            f == TtsFeatures::spec_none(),
    {
        TtsFeatures {
            stop: false,
            rate: false,
            pitch: false,
            volume: false,
            is_speaking: false,
            voice: false,
            utterance_callbacks: false,
        }
    }
}

/// What a front end shows of the native voice.
#[derive(Debug, Clone)]
pub struct TtsStatus {
    /// Whether the voice can be used.
    pub available: bool,
    /// Whether it is speaking.
    pub is_speaking: bool,
    /// The rate in thousandths of the standard range.
    pub rate_milli: i32,
    /// What the voice can do.
    pub features: TtsFeatures,
    /// Why the voice cannot be used, if it cannot.
    pub message: Option<String>,
}

/// A rate brought into the standard range.
pub open spec fn spec_normalize_rate(rate_milli: i32) -> i32 {
    if rate_milli < 0 {
        0
    } else if rate_milli > 1000 {
        1000
    } else {
        rate_milli
    }
}

/// Brings a rate of the platform into the standard range.
pub fn normalize_rate_to_standard(rate_milli: i32) -> (r: i32)
    ensures
        r == spec_normalize_rate(rate_milli),
{
    if rate_milli < 0 {
        0
    } else if rate_milli > 1000 {
        1000
    } else {
        rate_milli
    }
}

/// Brings a rate that a caller asks for into the range that the platform
/// takes.
pub fn normalize_rate_from_standard(rate_milli: i32) -> (r: i32)
    ensures
        r == spec_normalize_rate(rate_milli),
{
    normalize_rate_to_standard(rate_milli)
}

/// The status of a voice that cannot be used.
pub fn unavailable_status(message: String) -> (s: TtsStatus)
    ensures
        !s.available,
        !s.is_speaking,
        s.rate_milli == NORMAL_RATE_MILLI,
        s.features == TtsFeatures::spec_none(),
        s.message == Some(message),
{
    TtsStatus {
        available: false,
        is_speaking: false,
        rate_milli: NORMAL_RATE_MILLI,
        features: TtsFeatures::none(),
        message: Some(message),
    }
}

/// The status of a voice that can be used. What the platform does not tell
/// counts as "not speaking" and "normal speed".
pub fn available_status(is_speaking: Option<bool>, rate_milli: Option<i32>, features: TtsFeatures) -> (s:
    TtsStatus)
    ensures
        s.available,
        s.is_speaking == match is_speaking {
            Some(b) => b,
            None => false,
        },
        s.rate_milli == spec_normalize_rate(
            match rate_milli {
                Some(r) => r,
                None => NORMAL_RATE_MILLI,
            },
        ),
        s.features == features,
        s.message is None,
{
    TtsStatus {
        available: true,
        is_speaking: match is_speaking {
            Some(b) => b,
            None => false,
        },
        rate_milli: normalize_rate_to_standard(
            match rate_milli {
                Some(r) => r,
                None => NORMAL_RATE_MILLI,
            },
        ),
        features,
        message: None,
    }
}

/// The position of the first voice whose identifier is `voice_id`.
pub fn find_voice(voices: &Vec<VoiceInfo>, voice_id: &str) -> (r: Result<usize, String>)
    ensures
        match r {
            Ok(i) => i < voices@.len() && voices@[i as int].id@ == voice_id@ && forall|k: int|
                0 <= k < i ==> (#[trigger] voices@[k]).id@ != voice_id@,
            Err(text) => text@ == "Voice not found: "@ + voice_id@ && forall|k: int|
                0 <= k < voices@.len() ==> (#[trigger] voices@[k]).id@ != voice_id@,
        },
{
    let mut i: usize = 0;
    while i < voices.len()
        invariant
            i <= voices.len(),
            forall|k: int| 0 <= k < i ==> (#[trigger] voices@[k]).id@ != voice_id@,
        decreases voices.len() - i,
    {
        if str_equal(voices[i].id.as_str(), voice_id) {
            return Ok(i);
        }
        i += 1;
    }
    Err(String::from_str("Voice not found: ").concat(voice_id))
}

} // verus!
