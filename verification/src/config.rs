//! The render request and its output formats.

use vstd::prelude::*;
use vstd::string::*;
use crate::error::RenderError;
use crate::text::same_text;

verus! {

/// The frame rate of a request that names none.
pub fn default_fps() -> (fps: u32)
    ensures
        fps == 30,
{
    30
}

/// The format tag of a request that names none.
pub fn default_format() -> (tag: String)
    ensures
        tag@ == "webm"@,
{
    String::from_str("webm")
}

/// A declarative render request. Fade lengths are in microseconds.
#[derive(Debug)]
pub struct RenderConfig {
    /// Directory of frames, or archive that holds them.
    pub input: String,
    /// Where the output is written. A render rejects an empty path.
    pub output: String,
    /// Frames per second, a positive number.
    pub fps: u32,
    /// Format tag: `webm`, `mp4` or `gif`.
    pub format: String,
    /// Length of the fade-in, in microseconds; zero for none.
    pub fade_in: u64,
    /// Length of the fade-out, in microseconds; zero for none.
    pub fade_out: u64,
    /// Target bitrate, as the encoder reads it.
    pub bitrate: Option<String>,
    /// Constant rate factor.
    pub crf: Option<u32>,
    /// Open the output in a viewer after the render.
    pub open: bool,
    /// Glob pattern that selects the frame files; `*.png` where absent.
    pub file_pattern: Option<String>,
    /// Trace the pipeline's own steps.
    pub verbose: bool,
    /// Let the encoder log in full.
    pub verbose_ffmpeg: bool,
}

impl RenderConfig {
    /// A request for `input` and `output` with every optional field at its
    /// default: 30 frames per second, `webm`, no fades, nothing else set.
    pub fn new(input: String, output: String) -> (cfg: RenderConfig)
        ensures
            cfg.input == input,
            cfg.output == output,
            cfg.fps == 30,
            cfg.format@ == "webm"@,
            cfg.fade_in == 0,
            cfg.fade_out == 0,
            cfg.bitrate is None,
            cfg.crf is None,
            !cfg.open,
            cfg.file_pattern is None,
            !cfg.verbose,
            !cfg.verbose_ffmpeg,
    {
        RenderConfig {
            input,
            output,
            fps: default_fps(),
            format: default_format(),
            fade_in: 0,
            fade_out: 0,
            bitrate: None,
            crf: None,
            open: false,
            file_pattern: None,
            verbose: false,
            verbose_ffmpeg: false,
        }
    }
}

/// The supported outputs.
#[derive(Debug, Clone, Copy, PartialEq, Eq, Structural)]
pub enum OutputFormat {
    /// Video with an alpha channel.
    Webm,
    /// Widely supported video without alpha.
    Mp4,
    /// Animated image, encoded in two passes over a palette.
    Gif,
}

/// The format that a tag names, if any.
pub open spec fn format_of(tag: Seq<char>) -> Option<OutputFormat> {
    if tag == "webm"@ {
        Some(OutputFormat::Webm)
    } else if tag == "mp4"@ {
        Some(OutputFormat::Mp4)
    } else if tag == "gif"@ {
        Some(OutputFormat::Gif)
    } else {
        None
    }
}

impl OutputFormat {
    /// Reads a format tag. Any tag but the three supported ones is rejected
    /// as an unsupported format, with the tag in the error.
    pub fn parse(tag: &str) -> (r: Result<OutputFormat, RenderError>)
        ensures
            match r {
                Ok(format) => format_of(tag@) == Some(format),
                Err(RenderError::UnsupportedFormat { format }) => format_of(tag@) is None
                    && format@ == tag@,
                Err(_) => false,
            },
    {
        if same_text(tag, "webm") {
            Ok(OutputFormat::Webm)
        } else if same_text(tag, "mp4") {
            Ok(OutputFormat::Mp4)
        } else if same_text(tag, "gif") {
            Ok(OutputFormat::Gif)
        } else {
            Err(RenderError::UnsupportedFormat { format: String::from_str(tag) })
        }
    }

    /// The video encoder of a video format; an animated image has none.
    pub open spec fn codec_text(self) -> Seq<char> {
        match self {
            OutputFormat::Webm => "libvpx"@,
            OutputFormat::Mp4 => "libx264"@,
            OutputFormat::Gif => Seq::empty(),
        }
    }

    /// The pixel format of a video format: with alpha for `webm`, without
    /// for `mp4`.
    pub open spec fn pixel_format_text(self) -> Seq<char> {
        match self {
            OutputFormat::Webm => "yuva420p"@,
            OutputFormat::Mp4 => "yuv420p"@,
            OutputFormat::Gif => Seq::empty(),
        }
    }

    /// Whether the format is encoded in one pass as a video.
    pub open spec fn is_video(self) -> bool {
        self != OutputFormat::Gif
    }
}

} // verus!
