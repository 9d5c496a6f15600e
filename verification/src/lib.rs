//! The rules of a Hacker News reader that speaks.
//!
//! The larger part is a neural text-to-speech pipeline: a catalog of voice
//! models and the judgement whether a model on disk is usable (`model`), the
//! course of a download (`download`), text clean-up and chunking (`normalize`,
//! `chunk`), the mapping from phonemes to model ids (`phoneme`), the engine's
//! decisions (`synth`), speaking a text as a whole or sentence by sentence
//! with events (`speech`, `sentences`), and audio framing and playback
//! (`audio`). `neural` holds the operations that a front end calls.
//!
//! Beside it stand the data and rules of the story client (`types`,
//! `client`), of the reading assistant (`copilot`) and of the native voice
//! (`tts`).
//!
//! Nothing here reads a file, opens a connection or plays a sound. Callers do
//! that and hand over what they found; every function says in its contract
//! what it makes of it.

pub mod audio;
pub mod chunk;
pub mod client;
pub mod copilot;
pub mod download;
pub mod model;
pub mod neural;
pub mod normalize;
pub mod phoneme;
pub mod sentences;
pub mod speech;
pub mod synth;
pub mod text;
pub mod tts;
pub mod types;
