//! The core of a meeting recorder that works on the user's own computer: what is recorded,
//! transcribed, translated and summed up, and by whom.

// Texts, times and requests.
pub mod clock;
pub mod endpoint;
pub mod http;
pub mod json;
pub mod sse;
pub mod text;
pub mod wav;

// Recordings.
pub mod device_follower;
pub mod recording;
pub mod recording_start;
pub mod recording_stop;

// Speech recognition.
pub mod chunk_audio;
pub mod chunk_plan;
pub mod metadata;
pub mod progress;
pub mod quick_transcribe;
pub mod retranscription;
pub mod transcription;

// Models that the user runs, translations and summaries.
pub mod custom_local;
pub mod settings;
pub mod summary_client;
pub mod summary_local;
pub mod translation;
pub mod translation_queue;
