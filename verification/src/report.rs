//! The result object of one render call and its formatted summary.

use vstd::prelude::*;
use vstd::string::*;
use crate::text::{append_all, decimal, decimal_string, texts};

verus! {

/// What one render or preview call produced.
#[derive(Debug)]
pub struct RenderReport {
    /// Where the output was written.
    pub output_path: String,
    /// How many frames went into the output, where that is known.
    pub frames_rendered: Option<usize>,
    /// The warnings read off the encoder's diagnostics, in order.
    pub ffmpeg_warnings: Vec<String>,
    /// Whether a single still frame was produced in place of a video.
    pub preview: bool,
    /// A free-form note.
    pub notes: Option<String>,
}

/// The summary line that tells the frame count.
pub open spec fn frames_line(frames: Option<usize>) -> Seq<char> {
    match frames {
        Some(n) => "Frames rendered: "@ + decimal(n as nat) + "\n"@,
        None => "Frames rendered: Unknown\n"@,
    }
}

/// One summary line per warning, each behind a dash.
pub open spec fn warning_lines(warnings: Seq<Seq<char>>) -> Seq<char>
    decreases warnings.len(),
{
    if warnings.len() == 0 {
        Seq::empty()
    } else {
        warning_lines(warnings.drop_last()) + "- "@ + warnings.last() + "\n"@
    }
}

/// The warnings block of the summary: nothing for an empty list, else a
/// heading and the lines.
pub open spec fn warnings_block(warnings: Seq<Seq<char>>) -> Seq<char> {
    if warnings.len() == 0 {
        Seq::empty()
    } else {
        "⚠️ FFmpeg Warnings:\n"@ + warning_lines(warnings)
    }
}

/// The summary line of preview mode.
pub open spec fn preview_line(preview: bool) -> Seq<char> {
    if preview {
        "🔍 Preview mode enabled.\n"@
    } else {
        Seq::empty()
    }
}

/// The summary line of the note.
pub open spec fn notes_line(notes: Option<String>) -> Seq<char> {
    match notes {
        Some(n) => "📝 Notes: "@ + n@ + "\n"@,
        None => Seq::empty(),
    }
}

impl RenderReport {
    /// The whole summary, line by line.
    pub open spec fn summary_text(&self) -> Seq<char> {
        "✅ Rendered to: "@ + self.output_path@ + "\n"@ + frames_line(self.frames_rendered)
            + warnings_block(texts(self.ffmpeg_warnings@)) + preview_line(self.preview)
            + notes_line(self.notes)
    }

    /// Assembles a report from its parts.
    pub fn new(
        output_path: String,
        frames_rendered: Option<usize>,
        ffmpeg_warnings: Vec<String>,
        preview: bool,
        notes: Option<String>,
    ) -> (r: Self)
        ensures
            r.output_path == output_path,
            r.frames_rendered == frames_rendered,
            r.ffmpeg_warnings == ffmpeg_warnings,
            r.preview == preview,
            r.notes == notes,
    {
        RenderReport { output_path, frames_rendered, ffmpeg_warnings, preview, notes }
    }

    /// Formats the report for the user.
    pub fn summary(&self) -> (r: String)
        ensures
            r@ == self.summary_text(),
    {
        let mut summary = String::from_str("✅ Rendered to: ");
        summary.append(self.output_path.as_str());
        summary.append("\n");
        match self.frames_rendered {
            Some(frames) => {
                let digits = decimal_string(frames as u128);
                append_all(&mut summary, "Frames rendered: ", digits.as_str(), "\n");
            },
            None => {
                summary.append("Frames rendered: Unknown\n");
            },
        }
        let ghost head = summary@;
        let ghost warnings = texts(self.ffmpeg_warnings@);
        if self.ffmpeg_warnings.len() > 0 {
            summary.append("⚠️ FFmpeg Warnings:\n");
            let mut i: usize = 0;
            while i < self.ffmpeg_warnings.len()
                invariant
                    i <= self.ffmpeg_warnings.len(),
                    warnings == texts(self.ffmpeg_warnings@),
                    summary@ == head + "⚠️ FFmpeg Warnings:\n"@ + warning_lines(
                        warnings.take(i as int),
                    ),
                decreases self.ffmpeg_warnings.len() - i,
            {
                append_all(&mut summary, "- ", self.ffmpeg_warnings[i].as_str(), "\n");
                proof {
                    let next = warnings.take(i + 1);
                    assert(next.drop_last() =~= warnings.take(i as int));
                }
                i = i + 1;
            }
            assert(warnings.take(i as int) =~= warnings);
        }
        if self.preview {
            summary.append("🔍 Preview mode enabled.\n");
        }
        match &self.notes {
            Some(notes) => {
                append_all(&mut summary, "📝 Notes: ", notes.as_str(), "\n");
            },
            None => {},
        }
        summary
    }
}

} // verus!
