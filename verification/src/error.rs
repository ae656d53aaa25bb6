//! The failures a render or a preview can end in, and their messages.

use vstd::prelude::*;
use vstd::string::*;
use crate::text::{decimal, decimal_string, has_substring, signed_decimal, signed_decimal_string};

verus! {

/// What the encoder was started for. The message of an encoder failure
/// tells the task.
#[derive(Debug, Clone, Copy, PartialEq, Eq, Structural)]
pub enum EncoderTask {
    /// The probe that finds out whether the encoder can be run.
    Probe,
    /// A run on its own, outside any pipeline.
    Run,
    /// The one pass that encodes a video.
    VideoPass,
    /// The pass that generates the palette of an animated image.
    PalettePass,
    /// The pass that encodes an animated image over its palette.
    ImagePass,
}

impl EncoderTask {
    /// What the message of a failed pass begins with. The probe and a run on
    /// its own have no such beginning.
    pub open spec fn prefix_text(self) -> Seq<char> {
        match self {
            EncoderTask::VideoPass => "❌ Failed to execute ffmpeg: "@,
            EncoderTask::PalettePass => "❌ Failed to run ffmpeg for palettegen: "@,
            EncoderTask::ImagePass => "❌ Failed to render final GIF: "@,
            _ => Seq::empty(),
        }
    }

    /// Writes the beginning of the message of a failed pass.
    pub fn prefix(self) -> (r: &'static str)
        ensures
            r@ == self.prefix_text(),
    {
        proof {
            reveal_strlit("");
        }
        match self {
            EncoderTask::VideoPass => "❌ Failed to execute ffmpeg: ",
            EncoderTask::PalettePass => "❌ Failed to run ffmpeg for palettegen: ",
            EncoderTask::ImagePass => "❌ Failed to render final GIF: ",
            _ => "",
        }
    }
}

/// Where the reading of an archive failed. The message of an unreadable
/// archive tells it.
#[derive(Debug, Clone, Copy, PartialEq, Eq, Structural)]
pub enum ArchiveFault {
    /// The archive file could not be read, or its frames could not be
    /// stored; the detail says which.
    Io,
    /// The bytes are no archive that can be parsed.
    Container,
    /// The member at `index` could not be opened or read while the frames
    /// were extracted.
    Member { index: usize },
    /// The member at `index` could not be opened or read while the frames
    /// were counted or one of them was taken out; the detail is the whole
    /// message.
    Listing { index: usize },
}

/// Why a render or a preview did not produce its output.
#[derive(Debug)]
pub enum RenderError {
    /// The configuration could not be read or parsed.
    ConfigParseError { detail: String },
    /// The input path is neither a directory nor an archive that exists.
    InputNotFound { path: String },
    /// The archive container, or one of its members, could not be read.
    ArchiveUnreadable { fault: ArchiveFault, detail: String },
    /// The archive holds no member that is an image frame.
    NoFramesInArchive,
    /// No file of the directory matches the frame pattern. `preview` tells
    /// whether a preview found it so, or a render.
    NoFramesMatched { dir: String, pattern: String, preview: bool },
    /// The frame pattern is not a well-formed glob expression.
    FramePatternInvalid { detail: String },
    /// A preview asked for a frame beyond the last one.
    FrameIndexOutOfRange { index: usize, count: usize },
    /// The output format is none of the supported ones.
    UnsupportedFormat { format: String },
    /// The encoder binary is not installed.
    EncoderNotFound { task: EncoderTask },
    /// The encoder could not be started.
    EncoderExecutionFailed { task: EncoderTask, detail: String },
    /// The encoder ran and reported failure.
    EncoderNonZeroExit { task: EncoderTask, code: i32 },
    /// The output path is empty.
    OutputPathInvalid,
}

impl RenderError {
    /// The one-line message shown to the user.
    pub open spec fn message_text(self) -> Seq<char> {
        match self {
            RenderError::ConfigParseError { detail } => "❌ Failed to parse config: "@ + detail@,
            RenderError::InputNotFound { path } => "❌ Input path '"@ + path@
                + "' does not exist."@,
            RenderError::ArchiveUnreadable { fault, detail } => match fault {
                ArchiveFault::Io => "❌ "@ + detail@,
                ArchiveFault::Container => "❌ Failed to read zip archive: "@ + detail@,
                ArchiveFault::Member { index } => "❌ Failed to access file in zip at index "@
                    + decimal(index as nat) + ": "@ + detail@,
                ArchiveFault::Listing { index } => detail@,
            },
            RenderError::NoFramesInArchive => "❌ No PNG files found in zip archive"@,
            RenderError::NoFramesMatched { dir, pattern, preview } => if preview {
                "❌ No input files found in '"@ + dir@ + "' matching pattern '"@ + pattern@ + "'"@
            } else {
                "❌ No input files found in '"@ + dir@ + "' matching pattern '"@ + pattern@
                    + "'."@
            },
            RenderError::FramePatternInvalid { detail } => "❌ Failed to read frames: "@
                + detail@,
            RenderError::FrameIndexOutOfRange { index, count } => "❌ Frame index "@ + decimal(
                index as nat,
            ) + " out of range (0.."@ + signed_decimal(count - 1) + ")"@,
            RenderError::UnsupportedFormat { format } => "❌ Unsupported format: "@ + format@
                + ". Use 'webm' or 'mp4'."@,
            RenderError::EncoderNotFound { task } => if task == EncoderTask::Probe {
                "❌ ffmpeg not found. Please install ffmpeg and ensure it is in your PATH."@
            } else {
                task.prefix_text() + "❌ ffmpeg not found in PATH."@
            },
            RenderError::EncoderExecutionFailed { task, detail } => if task
                == EncoderTask::Probe {
                "❌ Failed to execute ffmpeg: "@ + detail@
            } else {
                task.prefix_text() + "❌ ffmpeg failed to run: "@ + detail@
            },
            RenderError::EncoderNonZeroExit { task, code } => if task == EncoderTask::Probe {
                "❌ ffmpeg failed to run correctly."@
            } else {
                task.prefix_text() + "❌ ffmpeg exited with code "@ + signed_decimal(code as int)
            },
            RenderError::OutputPathInvalid => "❌ Output path cannot be empty."@,
        }
    }

    /// Writes the message of this error.
    pub fn message(&self) -> (r: String)
        ensures
            r@ == self.message_text(),
    {
        match self {
            RenderError::ConfigParseError { detail } => String::from_str(
                "❌ Failed to parse config: ",
            ).concat(detail.as_str()),
            RenderError::InputNotFound { path } => String::from_str("❌ Input path '").concat(
                path.as_str(),
            ).concat("' does not exist."),
            RenderError::ArchiveUnreadable { fault, detail } => match fault {
                ArchiveFault::Io => String::from_str("❌ ").concat(detail.as_str()),
                ArchiveFault::Container => String::from_str(
                    "❌ Failed to read zip archive: ",
                ).concat(detail.as_str()),
                ArchiveFault::Member { index } => String::from_str(
                    "❌ Failed to access file in zip at index ",
                ).concat(decimal_string(*index as u128).as_str()).concat(": ").concat(
                    detail.as_str(),
                ),
                ArchiveFault::Listing { index } => detail.clone(),
            },
            RenderError::NoFramesInArchive => String::from_str(
                "❌ No PNG files found in zip archive",
            ),
            RenderError::NoFramesMatched { dir, pattern, preview } => {
                let found = String::from_str("❌ No input files found in '").concat(
                    dir.as_str(),
                ).concat("' matching pattern '").concat(pattern.as_str());
                if *preview {
                    found.concat("'")
                } else {
                    found.concat("'.")
                }
            },
            RenderError::FramePatternInvalid { detail } => String::from_str(
                "❌ Failed to read frames: ",
            ).concat(detail.as_str()),
            RenderError::FrameIndexOutOfRange { index, count } => {
                let last = if *count == 0 {
                    signed_decimal_string(-1)
                } else {
                    decimal_string((*count - 1) as u128)
                };
                String::from_str("❌ Frame index ").concat(
                    decimal_string(*index as u128).as_str(),
                ).concat(" out of range (0..").concat(last.as_str()).concat(")")
            },
            RenderError::UnsupportedFormat { format } => String::from_str(
                "❌ Unsupported format: ",
            ).concat(format.as_str()).concat(". Use 'webm' or 'mp4'."),
            RenderError::EncoderNotFound { task } => match task {
                EncoderTask::Probe => String::from_str(
                    "❌ ffmpeg not found. Please install ffmpeg and ensure it is in your PATH.",
                ),
                _ => String::from_str(task.prefix()).concat("❌ ffmpeg not found in PATH."),
            },
            RenderError::EncoderExecutionFailed { task, detail } => match task {
                EncoderTask::Probe => String::from_str("❌ Failed to execute ffmpeg: ").concat(
                    detail.as_str(),
                ),
                _ => String::from_str(task.prefix()).concat("❌ ffmpeg failed to run: ").concat(
                    detail.as_str(),
                ),
            },
            RenderError::EncoderNonZeroExit { task, code } => match task {
                EncoderTask::Probe => String::from_str("❌ ffmpeg failed to run correctly."),
                _ => String::from_str(task.prefix()).concat("❌ ffmpeg exited with code ").concat(
                    signed_decimal_string(*code).as_str(),
                ),
            },
            RenderError::OutputPathInvalid => String::from_str("❌ Output path cannot be empty."),
        }
    }
}

/// The message of an index out of range tells the index and the range of
/// the valid ones, from 0 to the last frame.
pub proof fn lemma_out_of_range_message(index: usize, count: usize)
    requires
        count > 0,
    ensures
        (RenderError::FrameIndexOutOfRange { index, count }).message_text() == "❌ Frame index "@
            + decimal(index as nat) + " out of range (0.."@ + decimal((count - 1) as nat) + ")"@,
{
}

/// The message of a missing input says that the path does not exist,
/// whatever the path.
pub proof fn lemma_missing_input_message(path: String)
    ensures
        has_substring(
            (RenderError::InputNotFound { path }).message_text(),
            "does not exist"@,
        ),
{
    reveal_strlit("❌ Input path '");
    reveal_strlit("' does not exist.");
    reveal_strlit("does not exist");
    let message = (RenderError::InputNotFound { path }).message_text();
    let at = (path@.len() + 16) as int;
    assert(message.subrange(at, at + 14) =~= "does not exist"@);
}

/// The message of an unsupported format says so, whatever the tag.
pub proof fn lemma_unsupported_format_message(format: String)
    ensures
        has_substring(
            (RenderError::UnsupportedFormat { format }).message_text(),
            "Unsupported format"@,
        ),
{
    reveal_strlit("❌ Unsupported format: ");
    reveal_strlit("Unsupported format");
    let message = (RenderError::UnsupportedFormat { format }).message_text();
    let needle = "Unsupported format"@;
    let at: int = 2;
    assert(message.subrange(at, at + needle.len()) =~= needle);
}

/// The message of an archive without image frames says that no files were
/// found.
pub proof fn lemma_no_frames_message()
    ensures
        has_substring(RenderError::NoFramesInArchive.message_text(), "No PNG files found"@),
{
    reveal_strlit("❌ No PNG files found in zip archive");
    reveal_strlit("No PNG files found");
    let message = RenderError::NoFramesInArchive.message_text();
    let needle = "No PNG files found"@;
    let at: int = 2;
    assert(message.subrange(at, at + needle.len()) =~= needle);
}

} // verus!
