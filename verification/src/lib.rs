//! Render orchestration for sequences of still frames.
//!
//! A render request names a source of frames, a frame rate, fades and an
//! output. This library holds the decisions of a render, each with its
//! contract: which files are frames and in what order, where the fades lie,
//! what the encoder is asked to do, what its diagnostics mean, and what is
//! reported. Work on the outside world (the file system, the encoder
//! process) is left to the caller, who is told what to do by `pipeline`.
//!
//! - `config`: the request and the output formats.
//! - `archive`: frames stored in a ZIP archive.
//! - `frames`, `order`: the frames of a directory, in lexicographic order.
//! - `fade`: clip duration, fade windows and the filter fragment.
//! - `dispatch`: the argument lists of the encoder invocations.
//! - `diagnostics`: warnings read off the encoder's diagnostic text.
//! - `report`: the result of a render and its summary.
//! - `preview`: the choice of a single frame.
//! - `pipeline`: the render as a state machine over all of these.
//! - `error`: the failures and their messages.
//! - `text`: text helpers.

pub mod archive;
pub mod config;
pub mod diagnostics;
pub mod dispatch;
pub mod error;
pub mod fade;
pub mod frames;
pub mod order;
pub mod pipeline;
pub mod preview;
pub mod report;
pub mod text;

pub use config::RenderConfig;
pub use error::RenderError;
pub use report::RenderReport;
