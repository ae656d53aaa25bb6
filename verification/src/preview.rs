//! Preview: the choice of the one frame that stands for the whole set.

use vstd::prelude::*;
use vstd::string::*;
use crate::archive::{
    all_named,
    as_listing_fault,
    is_first_listing_fault,
    is_ordered_listing_of,
    lemma_ordered_listing_unique,
    member_indices,
    FrameArchive,
    FrameMember,
};
use crate::error::{ArchiveFault, RenderError};
use crate::frames::{effective_pattern, DEFAULT_PATTERN};
use crate::pipeline::{is_archive_path, names_archive};
use crate::report::RenderReport;

verus! {

/// The frame that a preview shows: the one asked for, or the middle one.
pub open spec fn chosen_index(count: nat, frame_index: Option<usize>) -> nat {
    match frame_index {
        Some(i) => i as nat,
        None => count / 2,
    }
}

/// What choosing among `count` frames comes to.
pub open spec fn frame_choice(
    count: nat,
    frame_index: Option<usize>,
    r: Result<usize, RenderError>,
) -> bool {
    let chosen = chosen_index(count, frame_index);
    if chosen < count {
        r == Ok::<usize, RenderError>(chosen as usize)
    } else {
        r matches Err(RenderError::FrameIndexOutOfRange { index, count: of }) && index == chosen
            && of == count
    }
}

/// Chooses the frame of a preview among `count` frames. An index beyond the
/// last frame is rejected as out of range, and the error tells the index
/// and the count. Among no frames every index is out of range.
pub fn choose_frame(count: usize, frame_index: Option<usize>) -> (r: Result<usize, RenderError>)
    ensures
        frame_choice(count as nat, frame_index, r),
{
    let chosen = match frame_index {
        Some(i) => i,
        None => count / 2,
    };
    if chosen >= count {
        Err(RenderError::FrameIndexOutOfRange { index: chosen, count })
    } else {
        Ok(chosen)
    }
}

/// What a preview of the collected frames of a directory comes to.
pub open spec fn preview_choice(
    input_folder: Seq<char>,
    frames: Seq<String>,
    pattern: Seq<char>,
    frame_index: Option<usize>,
    r: Result<String, RenderError>,
) -> bool {
    let chosen = chosen_index(frames.len(), frame_index);
    if frames.len() == 0 {
        r matches Err(RenderError::NoFramesMatched { dir, pattern: p, preview: true }) && dir@
            == input_folder
            && p@ == pattern
    } else if chosen < frames.len() {
        r matches Ok(path) && path@ == frames[chosen as int]@
    } else {
        r matches Err(RenderError::FrameIndexOutOfRange { index, count }) && index == chosen
            && count == frames.len()
    }
}

/// Picks the frame that a preview of a directory copies to its output.
///
/// `frames` are the collected frames of `input_folder`. Without an index the
/// middle frame is taken. An empty set is rejected as holding no frames, an
/// index beyond the last frame as out of range.
pub fn preview_frame(
    input_folder: &str,
    frames: &Vec<String>,
    file_pattern: Option<String>,
    frame_index: Option<usize>,
) -> (r: Result<String, RenderError>)
    ensures
        preview_choice(input_folder@, frames@, effective_pattern(file_pattern), frame_index, r),
{
    if frames.len() == 0 {
        let pattern = match file_pattern {
            Some(p) => p,
            None => String::from_str(DEFAULT_PATTERN),
        };
        return Err(
            RenderError::NoFramesMatched {
                dir: String::from_str(input_folder),
                pattern,
                preview: true,
            },
        );
    }
    match choose_frame(frames.len(), frame_index) {
        Ok(chosen) => Ok(frames[chosen].clone()),
        Err(e) => Err(e),
    }
}

/// What choosing among the frames of an archive comes to, given the frames
/// in the order in which they are rendered: the position in the archive of
/// the chosen frame.
pub open spec fn member_choice(
    ordered: Seq<FrameMember>,
    frame_index: Option<usize>,
    r: Result<usize, RenderError>,
) -> bool {
    let chosen = chosen_index(ordered.len(), frame_index);
    if ordered.len() == 0 {
        r matches Err(RenderError::NoFramesInArchive)
    } else if chosen < ordered.len() {
        r == Ok::<usize, RenderError>(ordered[chosen as int].index)
    } else {
        r matches Err(RenderError::FrameIndexOutOfRange { index, count }) && index == chosen
            && count == ordered.len()
    }
}

/// Chooses the frame of a preview among the frames of an archive, given in
/// the order in which they are rendered. Without an index the middle frame
/// is taken. An archive without frames is rejected as such, an index beyond
/// the last frame as out of range.
pub fn choose_member(ordered: &Vec<FrameMember>, frame_index: Option<usize>) -> (r: Result<
    usize,
    RenderError,
>)
    ensures
        member_choice(ordered@, frame_index, r),
{
    if ordered.len() == 0 {
        return Err(RenderError::NoFramesInArchive);
    }
    match choose_frame(ordered.len(), frame_index) {
        Ok(chosen) => Ok(ordered[chosen].index),
        Err(e) => Err(e),
    }
}

/// What a preview of an archive comes to, given its frames in the order in
/// which they are rendered: the content of the chosen frame.
pub open spec fn archive_preview(
    ordered: Seq<FrameMember>,
    data: Seq<Option<Seq<u8>>>,
    frame_index: Option<usize>,
    r: Result<Vec<u8>, RenderError>,
) -> bool {
    let chosen = chosen_index(ordered.len(), frame_index);
    if ordered.len() == 0 {
        r matches Err(RenderError::NoFramesInArchive)
    } else if chosen >= ordered.len() {
        r matches Err(RenderError::FrameIndexOutOfRange { index, count }) && index == chosen
            && count == ordered.len()
    } else {
        match data[ordered[chosen as int].index as int] {
            Some(bytes) => r matches Ok(found) && found@ == bytes,
            None => r matches Err(
                RenderError::ArchiveUnreadable { fault: ArchiveFault::Listing { index }, .. },
            ) && index == ordered[chosen as int].index,
        }
    }
}

/// Takes the frame of a preview out of an archive.
///
/// The frames are counted in the order in which they are rendered:
/// lexicographic by base name, whatever their order in the archive. The
/// frame asked for is taken, or the middle one. Where a member cannot be
/// opened, or the chosen frame cannot be read, the archive is unreadable.
/// An archive has one such order, which `FrameArchive::ordered_frames`
/// gives.
pub fn preview_frame_from_zip(archive: &mut FrameArchive, frame_index: Option<usize>) -> (r:
    Result<Vec<u8>, RenderError>)
    ensures
        final(archive).names() == old(archive).names(),
        final(archive).data() == old(archive).data(),
        !all_named(old(archive).names()) ==> (r matches Err(e) && is_first_listing_fault(
            e,
            old(archive).names(),
        )),
        all_named(old(archive).names()) ==> exists|ordered: Seq<FrameMember>|
            is_ordered_listing_of(ordered, old(archive).names()) && #[trigger] archive_preview(
                ordered,
                old(archive).data(),
                frame_index,
                r,
            ),
        all_named(old(archive).names()) ==> forall|ordered: Seq<FrameMember>|
            is_ordered_listing_of(ordered, old(archive).names()) ==> #[trigger] archive_preview(
                ordered,
                old(archive).data(),
                frame_index,
                r,
            ),
{
    let ghost names = archive.names();
    let ghost data = archive.data();
    let ordered = match archive.ordered_frames() {
        Ok(ordered) => ordered,
        Err(e) => {
            return Err(as_listing_fault(e));
        },
    };
    let r = match choose_member(&ordered, frame_index) {
        Ok(index) => match archive.member(index) {
            Ok(bytes) => Ok(bytes),
            Err(e) => Err(as_listing_fault(e)),
        },
        Err(e) => Err(e),
    };
    proof {
        assert(archive_preview(ordered@, data, frame_index, r));
        assert forall|listing: Seq<FrameMember>|
            is_ordered_listing_of(listing, names) implies #[trigger] archive_preview(
            listing,
            data,
            frame_index,
            r,
        ) by {
            lemma_ordered_listing_unique(listing, ordered@, names);
            let chosen = chosen_index(ordered@.len(), frame_index);
            assert(member_indices(listing).len() == member_indices(ordered@).len());
            if chosen < ordered@.len() {
                assert(member_indices(listing)[chosen as int] == member_indices(
                    ordered@,
                )[chosen as int]);
            }
        }
    }
    r
}

/// The name of a preview's output: `output` with its extension replaced by
/// `png`, as `std::path::Path::with_extension` builds it on the target that
/// the library is built for.
pub uninterp spec fn png_path_of(output: Seq<char>) -> Seq<char>;

/// Calls `std::path::Path::with_extension` and writes the path out again.
#[verifier::external_body]
fn with_png_extension(output: &str) -> (r: String)
    ensures
        r@ == png_path_of(output@),
{
    std::path::Path::new(output).with_extension("png").to_string_lossy().into_owned()
}

/// Names the still image that a preview writes in place of `output`.
pub fn preview_output(output: &str) -> (r: String)
    ensures
        r@ == png_path_of(output@),
{
    with_png_extension(output)
}

/// Where the frames of a preview are taken from.
#[derive(Debug, Clone, Copy, PartialEq, Eq, Structural)]
pub enum PreviewSource {
    /// The input is a directory of frames.
    Directory,
    /// The input is an archive of frames.
    Archive,
}

/// What the validation of a preview request comes to: an empty output path
/// is rejected first, then an input that does not exist; else the input is
/// an archive or a directory by its name.
pub open spec fn preview_plan(
    output: Seq<char>,
    input: Seq<char>,
    exists: bool,
    r: Result<PreviewSource, RenderError>,
) -> bool {
    if output.len() == 0 {
        r matches Err(RenderError::OutputPathInvalid)
    } else if !exists {
        r matches Err(RenderError::InputNotFound { path }) && path@ == input
    } else if is_archive_path(input) {
        r == Ok::<PreviewSource, RenderError>(PreviewSource::Archive)
    } else {
        r == Ok::<PreviewSource, RenderError>(PreviewSource::Directory)
    }
}

/// Validates a preview request. `exists` tells whether the input path
/// exists.
pub fn plan_preview(output: &str, input: &str, exists: bool) -> (r: Result<
    PreviewSource,
    RenderError,
>)
    ensures
        preview_plan(output@, input@, exists, r),
{
    if output.is_empty() {
        return Err(RenderError::OutputPathInvalid);
    }
    if !exists {
        return Err(RenderError::InputNotFound { path: String::from_str(input) });
    }
    if names_archive(input) {
        Ok(PreviewSource::Archive)
    } else {
        Ok(PreviewSource::Directory)
    }
}

/// The note on the report of a preview.
pub const PREVIEW_NOTE: &'static str = "Preview complete.";

/// Reports a preview written to `output_path`: no frame count, no warnings,
/// the preview flag set.
pub fn preview_report(output_path: String) -> (report: RenderReport)
    ensures
        report.output_path == output_path,
        report.frames_rendered is None,
        report.ffmpeg_warnings@.len() == 0,
        report.preview,
        report.notes matches Some(note) && note@ == PREVIEW_NOTE@,
{
    RenderReport::new(output_path, None, Vec::new(), true, Some(String::from_str(PREVIEW_NOTE)))
}

} // verus!
