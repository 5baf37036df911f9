//! Materialises tracks of a streaming catalogue as tagged local audio files:
//! format selection, a windowed view of a byte stream, the cover-art cache,
//! the tag bundle, and the per-track and per-album pipelines.

pub mod assoc;
pub mod format;
pub mod stream;
pub mod subfile;
pub mod text;
pub mod cover;
pub mod track;
pub mod tags;
pub mod pipeline;
