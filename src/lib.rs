//! Push-to-talk dictation core: the recording state machine and its audio
//! buffer, the transcript segment model and the merge of successive
//! transcription runs into one transcript with a confirmed/new boundary.

pub mod clock;
pub mod error;
pub mod hear;
pub mod write;
pub mod screen;
