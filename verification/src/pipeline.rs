//! The render pipeline as a state machine.
//!
//! A render alternates decisions with work on the outside world: probing the
//! input, reading an archive, listing a directory, running the encoder. The
//! decisions are `render`, a function from the state and the event that
//! answers the last action to the next state and the next action. The caller
//! performs each action and hands back its event, until the action is
//! `Finish` or `Fail`. An event that does not answer the last action is
//! turned away and changes nothing.
//!
//! Every validation comes before the encoder is started: the output path,
//! the format, the input, the frame set. Whatever is created on the way is
//! given up again before the render ends, however it ends: the palette of an
//! animated image once its final pass is over, the ephemeral directory of
//! an archive's frames as the last action before `Finish` or `Fail`.

use vstd::prelude::*;
use vstd::string::*;
use crate::archive::{
    all_frames_readable,
    all_named,
    is_extraction_of,
    unzip_frames,
    ExtractedFrame,
    FrameArchive,
};
use crate::config::{format_of, OutputFormat, RenderConfig};
use crate::diagnostics::{scan_ffmpeg_stderr, warnings_for};
use crate::dispatch::{
    fade_of,
    input_pattern_of,
    optional_string_text,
    palette_args,
    palette_use_args,
    plan_render,
    video_args,
    RenderJob,
    PALETTE_PATH,
};
use crate::error::{
    ArchiveFault,
    lemma_missing_input_message,
    lemma_no_frames_message,
    lemma_unsupported_format_message,
    EncoderTask,
    RenderError,
};
use crate::frames::{
    collect_input_frames,
    effective_pattern,
    glob_accepts,
    matching_paths,
    DEFAULT_PATTERN,
};
use crate::report::RenderReport;
use crate::text::{
    base_name,
    base_name_of,
    ends_with,
    has_substring,
    has_suffix,
    lowercase_of,
    texts,
};

verus! {

/// The note on the report of an animated image.
pub const GIF_NOTE: &'static str = "GIF export via palettegen";

/// Where a render stands.
#[derive(Debug, Clone, Copy, PartialEq, Eq, Structural)]
pub enum RenderStage {
    /// Nothing has been done yet.
    Ready,
    /// Asked whether the input exists.
    AwaitInputProbe,
    /// Asked for the bytes of the archive.
    AwaitArchive,
    /// Asked to store the extracted frames in an ephemeral directory.
    AwaitFrameStore,
    /// Asked for the listing of the frame directory.
    AwaitListing,
    /// Asked whether the encoder can be run.
    AwaitEncoderProbe,
    /// The palette pass is running.
    AwaitPalettePass,
    /// The pass that writes the output is running.
    AwaitEncode,
    /// Asked to remove the palette artifact.
    AwaitCleanup,
    /// Asked to release the ephemeral directory of the extracted frames.
    AwaitRelease,
    /// The render has ended.
    Finished,
}

/// How a run of the encoder ended.
#[derive(Debug)]
pub enum EncoderOutcome {
    /// The encoder binary was not found.
    NotFound,
    /// The encoder could not be started for another reason.
    LaunchFailed { detail: String },
    /// The encoder ran to its end.
    Exited { success: bool, code: Option<i32>, stderr: String },
}

/// What the outside world answers.
pub enum RenderEvent {
    /// The caller is ready to perform actions.
    Start,
    /// Whether the input path exists.
    InputProbed { exists: bool },
    /// The archive was read and opened, or rejected as unreadable.
    ArchiveLoaded { archive: Result<FrameArchive, RenderError> },
    /// The extracted frames are stored in the directory `dir`.
    FramesStored { dir: String },
    /// The names of the files in the frame directory. A directory that
    /// cannot be read is listed as empty.
    DirectoryListed { entries: Vec<String> },
    /// How the probe of the encoder ended.
    EncoderProbed { outcome: EncoderOutcome },
    /// How a pass of the encoder ended.
    EncoderFinished { outcome: EncoderOutcome },
    /// What was to be removed is gone, or could not be removed.
    CleanedUp,
    /// Reading the archive or storing its frames failed; `detail` says what
    /// failed and why.
    IoFailed { detail: String },
}

/// What the caller is to do next.
pub enum RenderAction {
    /// Find out whether `path` exists.
    ProbeInput { path: String },
    /// Read the archive at `path` into memory and open it.
    LoadArchive { path: String },
    /// Store these frames in a fresh ephemeral directory.
    StoreFrames { frames: Vec<ExtractedFrame> },
    /// List the files of `dir`, without descending.
    ListDirectory { dir: String },
    /// Find out whether the encoder can be run.
    ProbeEncoder,
    /// Run the encoder with these arguments.
    RunEncoder { args: Vec<String> },
    /// Remove the file at `path`; a failure is to be logged, no more.
    RemoveFile { path: String },
    /// Remove the ephemeral directory `dir` with the frames in it; a failure
    /// is to be logged, no more.
    ReleaseFrames { dir: String },
    /// The render succeeded.
    Finish { report: RenderReport },
    /// The render failed.
    Fail { error: RenderError },
    /// The event did not answer the last action, and nothing has changed.
    OutOfTurn,
}

/// The state of one render.
pub struct RenderState {
    /// The request.
    pub config: RenderConfig,
    /// Where the render stands.
    pub stage: RenderStage,
    /// The directory the frames are read from, once it is known.
    pub frames_dir: String,
    /// The number of frames, once they are collected.
    pub frame_count: usize,
    /// The arguments of the final pass, while the palette pass runs.
    pub final_args: Vec<String>,
    /// How the final pass ended, while the palette is removed.
    pub result: Option<Result<String, RenderError>>,
    /// The ephemeral directory of the extracted frames, from the moment
    /// they are stored until its release is asked for.
    pub extraction: Option<String>,
    /// How the render ends, while the ephemeral directory is released.
    pub ending: Option<Result<RenderReport, RenderError>>,
}

/// Whether `path` names an archive: its base name ends in `.zip` behind at
/// least one other character.
pub open spec fn is_archive_path(path: Seq<char>) -> bool {
    has_suffix(base_name(path), ".zip"@) && base_name(path).len() > 4
}

/// Tells whether `path` names an archive.
pub fn names_archive(path: &str) -> (r: bool)
    ensures
        r == is_archive_path(path@),
{
    let base = base_name_of(path);
    ends_with(base, ".zip") && base.unicode_len() > 4
}

/// What a run of the encoder for `task` comes to: its diagnostic text where
/// it succeeded, else the failure by its kind, which remembers the task. An
/// encoder that was ended without an exit code counts as having exited with
/// -1.
pub open spec fn encoder_result_of(
    outcome: EncoderOutcome,
    task: EncoderTask,
    r: Result<String, RenderError>,
) -> bool {
    match outcome {
        EncoderOutcome::NotFound => r matches Err(RenderError::EncoderNotFound { task: t }) && t
            == task,
        EncoderOutcome::LaunchFailed { detail } => {
            &&& r matches Err(RenderError::EncoderExecutionFailed { task: t, detail: d })
            &&& t == task
            &&& d@ == detail@
        },
        EncoderOutcome::Exited { success, code, stderr } => if success {
            r matches Ok(text) && text@ == stderr@
        } else {
            &&& r matches Err(RenderError::EncoderNonZeroExit { task: t, code: c })
            &&& t == task
            &&& c == (match code {
                Some(n) => n,
                None => -1i32,
            })
        },
    }
}

/// Classifies how a run of the encoder for `task` ended.
pub fn task_result(outcome: EncoderOutcome, task: EncoderTask) -> (r: Result<String, RenderError>)
    ensures
        encoder_result_of(outcome, task, r),
{
    match outcome {
        EncoderOutcome::NotFound => Err(RenderError::EncoderNotFound { task }),
        EncoderOutcome::LaunchFailed { detail } => Err(
            RenderError::EncoderExecutionFailed { task, detail },
        ),
        EncoderOutcome::Exited { success, code, stderr } => {
            if success {
                Ok(stderr)
            } else {
                let code = match code {
                    Some(n) => n,
                    None => -1i32,
                };
                Err(RenderError::EncoderNonZeroExit { task, code })
            }
        },
    }
}

/// Classifies how a run of the encoder on its own ended: the diagnostic
/// text where the encoder exited with success, else the failure, whose
/// message tells a missing binary from a failed start and from an exit
/// code.
pub fn encoder_result(outcome: EncoderOutcome) -> (r: Result<String, RenderError>)
    ensures
        encoder_result_of(outcome, EncoderTask::Run, r),
{
    task_result(outcome, EncoderTask::Run)
}

/// What the probe of the encoder comes to: nothing to report where it ran
/// and succeeded, else the failure by its kind.
pub open spec fn probe_result_of(outcome: EncoderOutcome, r: Option<RenderError>) -> bool {
    match r {
        None => outcome matches EncoderOutcome::Exited { success: true, .. },
        Some(error) => encoder_result_of(outcome, EncoderTask::Probe, Err(error)),
    }
}

/// Classifies how the probe of the encoder ended.
pub fn probe_result(outcome: EncoderOutcome) -> (r: Option<RenderError>)
    ensures
        probe_result_of(outcome, r),
{
    match task_result(outcome, EncoderTask::Probe) {
        Ok(_) => None,
        Err(error) => Some(error),
    }
}

impl RenderState {
    /// The state of a render that has not begun.
    pub fn new(config: RenderConfig) -> (state: RenderState)
        ensures
            state.config == config,
            state.stage == RenderStage::Ready,
            state.frames_dir@.len() == 0,
            state.frame_count == 0,
            state.final_args@.len() == 0,
            state.result is None,
            state.extraction is None,
            state.ending is None,
            state.wf(),
    {
        RenderState {
            config,
            stage: RenderStage::Ready,
            frames_dir: String::new(),
            frame_count: 0,
            final_args: Vec::new(),
            result: None,
            extraction: None,
            ending: None,
        }
    }

    /// The state is one that a render can be in: an ephemeral directory is
    /// held only between the storing of the frames and its release, and a
    /// state that waits for a removal knows how to go on after it.
    pub open spec fn wf(&self) -> bool {
        match self.stage {
            RenderStage::Ready
            | RenderStage::AwaitInputProbe
            | RenderStage::AwaitArchive
            | RenderStage::AwaitFrameStore
            | RenderStage::Finished => self.extraction is None,
            RenderStage::AwaitRelease => self.extraction is None && self.ending is Some,
            RenderStage::AwaitCleanup => self.result is Some,
            _ => true,
        }
    }

    /// The event answers the action that led to this state.
    pub open spec fn accepts(&self, event: RenderEvent) -> bool {
        match self.stage {
            RenderStage::Ready => event is Start,
            RenderStage::AwaitInputProbe => event is InputProbed,
            RenderStage::AwaitArchive => event is ArchiveLoaded || event is IoFailed,
            RenderStage::AwaitFrameStore => event is FramesStored || event is IoFailed,
            RenderStage::AwaitListing => event is DirectoryListed,
            RenderStage::AwaitEncoderProbe => event is EncoderProbed,
            RenderStage::AwaitPalettePass => event is EncoderFinished,
            RenderStage::AwaitEncode => event is EncoderFinished,
            RenderStage::AwaitCleanup => event is CleanedUp && self.result is Some,
            RenderStage::AwaitRelease => event is CleanedUp && self.ending is Some,
            RenderStage::Finished => false,
        }
    }

    /// Tells whether the event answers the action that led to this state.
    pub fn accepts_event(&self, event: &RenderEvent) -> (r: bool)
        ensures
            r == self.accepts(*event),
    {
        match self.stage {
            RenderStage::Ready => matches!(event, RenderEvent::Start),
            RenderStage::AwaitInputProbe => matches!(event, RenderEvent::InputProbed { .. }),
            RenderStage::AwaitArchive => matches!(
                event,
                RenderEvent::ArchiveLoaded { .. } | RenderEvent::IoFailed { .. }
            ),
            RenderStage::AwaitFrameStore => matches!(
                event,
                RenderEvent::FramesStored { .. } | RenderEvent::IoFailed { .. }
            ),
            RenderStage::AwaitListing => matches!(event, RenderEvent::DirectoryListed { .. }),
            RenderStage::AwaitEncoderProbe => matches!(event, RenderEvent::EncoderProbed { .. }),
            RenderStage::AwaitPalettePass => matches!(event, RenderEvent::EncoderFinished { .. }),
            RenderStage::AwaitEncode => matches!(event, RenderEvent::EncoderFinished { .. }),
            RenderStage::AwaitCleanup => matches!(event, RenderEvent::CleanedUp)
                && self.result.is_some(),
            RenderStage::AwaitRelease => matches!(event, RenderEvent::CleanedUp)
                && self.ending.is_some(),
            RenderStage::Finished => false,
        }
    }

    /// The pattern that the encoder reads the frames by.
    pub open spec fn input_pattern(&self) -> Seq<char> {
        input_pattern_of(self.config, self.frames_dir@)
    }

    /// The fade fragment of this render.
    pub open spec fn fade_text(&self) -> Seq<char> {
        fade_of(self.config, self.frame_count as nat)
    }
}

/// The action that ends a render.
pub open spec fn final_action(ending: Result<RenderReport, RenderError>) -> RenderAction {
    match ending {
        Ok(report) => RenderAction::Finish { report },
        Err(error) => RenderAction::Fail { error },
    }
}

/// The step settles how the render ends. Where frames were extracted, their
/// directory is released first and the ending is kept until that is done;
/// else the render ends at once.
pub open spec fn ends(state: RenderState, next: RenderState, action: RenderAction) -> bool {
    match state.extraction {
        Some(dir) => {
            &&& next.stage == RenderStage::AwaitRelease
            &&& next.extraction is None
            &&& next.ending is Some
            &&& action matches RenderAction::ReleaseFrames { dir: d }
            &&& d@ == dir@
        },
        None => {
            &&& next.stage == RenderStage::Finished
            &&& next.extraction is None
            &&& (action is Finish || action is Fail)
        },
    }
}

/// How the render ends after a step that settles it.
pub open spec fn ending_of(state: RenderState, next: RenderState, action: RenderAction) -> Result<
    RenderReport,
    RenderError,
> {
    match state.extraction {
        Some(_) => next.ending.unwrap(),
        None => match action {
            RenderAction::Finish { report } => Ok(report),
            RenderAction::Fail { error } => Err(error),
            _ => arbitrary(),
        },
    }
}

/// The step settles that the render fails with `error`.
pub open spec fn fails_with(
    state: RenderState,
    next: RenderState,
    action: RenderAction,
    error: RenderError,
) -> bool {
    ends(state, next, action) && ending_of(state, next, action) == Err::<
        RenderReport,
        RenderError,
    >(error)
}

/// The step goes on: the render has not ended, and the ephemeral directory
/// is held as before.
pub open spec fn goes_on(state: RenderState, next: RenderState, stage: RenderStage) -> bool {
    next.stage == stage && next.extraction == state.extraction
}

/// The report of a render whose encoder wrote `stderr`: the output path, the
/// number of frames, the warnings read off the diagnostics, and the note.
pub open spec fn is_report_of(
    state: RenderState,
    stderr: Seq<char>,
    note: Option<Seq<char>>,
    report: RenderReport,
) -> bool {
    &&& report.output_path@ == state.config.output@
    &&& report.frames_rendered == Some(state.frame_count)
    &&& texts(report.ffmpeg_warnings@) == warnings_for(lowercase_of(stderr))
    &&& !report.preview
    &&& optional_string_text(report.notes) == note
}

/// The step settles that the render ends as its last pass did: in the
/// failure of the pass, or in the report.
pub open spec fn ends_with_result(
    state: RenderState,
    result: Result<String, RenderError>,
    note: Option<Seq<char>>,
    next: RenderState,
    action: RenderAction,
) -> bool {
    &&& ends(state, next, action)
    &&& match result {
        Ok(stderr) => {
            &&& ending_of(state, next, action) matches Ok(report)
            &&& is_report_of(state, stderr@, note, report)
        },
        Err(e) => ending_of(state, next, action) == Err::<RenderReport, RenderError>(e),
    }
}

/// The first step: the output path and the format are validated, then the
/// input is probed.
pub open spec fn after_start(state: RenderState, next: RenderState, action: RenderAction) -> bool {
    &&& next.config == state.config
    &&& if state.config.output@.len() == 0 {
        fails_with(state, next, action, RenderError::OutputPathInvalid)
    } else if format_of(state.config.format@) is None {
        &&& ends(state, next, action)
        &&& ending_of(state, next, action) matches Err(RenderError::UnsupportedFormat { format })
        &&& format@ == state.config.format@
    } else {
        &&& goes_on(state, next, RenderStage::AwaitInputProbe)
        &&& action matches RenderAction::ProbeInput { path }
        &&& path@ == state.config.input@
    }
}

/// After the input probe: a missing input fails the render, an archive is
/// loaded, a directory is listed as it is.
pub open spec fn after_input_probe(
    state: RenderState,
    exists: bool,
    next: RenderState,
    action: RenderAction,
) -> bool {
    &&& next.config == state.config
    &&& if !exists {
        &&& ends(state, next, action)
        &&& ending_of(state, next, action) matches Err(RenderError::InputNotFound { path })
        &&& path@ == state.config.input@
    } else if is_archive_path(state.config.input@) {
        &&& goes_on(state, next, RenderStage::AwaitArchive)
        &&& action matches RenderAction::LoadArchive { path }
        &&& path@ == state.config.input@
    } else {
        &&& goes_on(state, next, RenderStage::AwaitListing)
        &&& next.frames_dir@ == state.config.input@
        &&& action matches RenderAction::ListDirectory { dir }
        &&& dir@ == state.config.input@
    }
}

/// After the archive is loaded: its image frames are handed out to be
/// stored, or the render fails as the extraction did.
pub open spec fn after_archive(
    state: RenderState,
    archive: Result<FrameArchive, RenderError>,
    next: RenderState,
    action: RenderAction,
) -> bool {
    &&& next.config == state.config
    &&& match archive {
        Err(e) => fails_with(state, next, action, e),
        Ok(a) => if all_named(a.names()) && all_frames_readable(a.names(), a.data())
            && a.frames().len() > 0 {
            &&& goes_on(state, next, RenderStage::AwaitFrameStore)
            &&& action matches RenderAction::StoreFrames { frames }
            &&& is_extraction_of(frames@, a.names(), a.data())
        } else if all_named(a.names()) && all_frames_readable(a.names(), a.data()) {
            fails_with(state, next, action, RenderError::NoFramesInArchive)
        } else {
            &&& ends(state, next, action)
            &&& ending_of(state, next, action) matches Err(RenderError::ArchiveUnreadable { .. })
        },
    }
}

/// After reading the archive or storing its frames failed.
pub open spec fn after_io_failure(
    state: RenderState,
    detail: Seq<char>,
    next: RenderState,
    action: RenderAction,
) -> bool {
    &&& next.config == state.config
    &&& ends(state, next, action)
    &&& ending_of(state, next, action) matches Err(
        RenderError::ArchiveUnreadable { fault: ArchiveFault::Io, detail: d },
    )
    &&& d@ == detail
}

/// After the frames are stored: their directory is held from now on, and
/// it is listed.
pub open spec fn after_frame_store(
    state: RenderState,
    dir: Seq<char>,
    next: RenderState,
    action: RenderAction,
) -> bool {
    &&& next.config == state.config
    &&& next.stage == RenderStage::AwaitListing
    &&& next.frames_dir@ == dir
    &&& next.extraction matches Some(held)
    &&& held@ == dir
    &&& action matches RenderAction::ListDirectory { dir: d }
    &&& d@ == dir
}

/// After the listing: the frames are collected and counted. A malformed
/// pattern and an empty frame set fail the render; else the encoder is
/// probed.
pub open spec fn after_listing(
    state: RenderState,
    entries: Seq<String>,
    next: RenderState,
    action: RenderAction,
) -> bool {
    let pattern = effective_pattern(state.config.file_pattern);
    let expected = matching_paths(state.frames_dir@, texts(entries), pattern);
    &&& next.config == state.config
    &&& next.frames_dir == state.frames_dir
    &&& if !glob_accepts(pattern) {
        &&& ends(state, next, action)
        &&& ending_of(state, next, action) matches Err(RenderError::FramePatternInvalid { .. })
    } else if expected.len() == 0 {
        &&& ends(state, next, action)
        &&& ending_of(state, next, action) matches Err(
            RenderError::NoFramesMatched { dir, pattern: p, preview: false },
        )
        &&& dir@ == state.frames_dir@
        &&& p@ == pattern
    } else {
        &&& goes_on(state, next, RenderStage::AwaitEncoderProbe)
        &&& next.frame_count == expected.len()
        &&& action is ProbeEncoder
    }
}

/// After the encoder probe: a failed probe fails the render; else the
/// invocations are planned and the first is run.
pub open spec fn after_encoder_probe(
    state: RenderState,
    outcome: EncoderOutcome,
    next: RenderState,
    action: RenderAction,
) -> bool {
    &&& next.config == state.config
    &&& next.frames_dir == state.frames_dir
    &&& next.frame_count == state.frame_count
    &&& if !(outcome matches EncoderOutcome::Exited { success: true, .. }) {
        &&& ends(state, next, action)
        &&& ending_of(state, next, action) matches Err(error)
        &&& probe_result_of(outcome, Some(error))
    } else {
        match format_of(state.config.format@) {
            None => {
                &&& ends(state, next, action)
                &&& ending_of(state, next, action) matches Err(
                    RenderError::UnsupportedFormat { format },
                )
                &&& format@ == state.config.format@
            },
            Some(OutputFormat::Gif) => {
                &&& goes_on(state, next, RenderStage::AwaitPalettePass)
                &&& action matches RenderAction::RunEncoder { args }
                &&& texts(args@) == palette_args(
                    state.input_pattern(),
                    state.config.verbose_ffmpeg,
                )
                &&& texts(next.final_args@) == palette_use_args(
                    state.input_pattern(),
                    state.config.output@,
                    state.config.fps as nat,
                    Some(state.fade_text()),
                    state.config.verbose_ffmpeg,
                )
            },
            Some(format) => {
                &&& goes_on(state, next, RenderStage::AwaitEncode)
                &&& action matches RenderAction::RunEncoder { args }
                &&& texts(args@) == video_args(
                    state.input_pattern(),
                    state.config.output@,
                    state.config.fps as nat,
                    format,
                    optional_string_text(state.config.bitrate),
                    state.config.crf,
                    Some(state.fade_text()),
                    state.config.verbose_ffmpeg,
                )
            },
        }
    }
}

/// After the palette pass: its failure fails the render; else the final
/// pass is run.
pub open spec fn after_palette_pass(
    state: RenderState,
    outcome: EncoderOutcome,
    next: RenderState,
    action: RenderAction,
) -> bool {
    &&& next.config == state.config
    &&& next.frame_count == state.frame_count
    &&& if outcome matches EncoderOutcome::Exited { success: true, .. } {
        &&& goes_on(state, next, RenderStage::AwaitEncode)
        &&& action matches RenderAction::RunEncoder { args }
        &&& args == state.final_args
    } else {
        &&& ends(state, next, action)
        &&& ending_of(state, next, action) matches Err(error)
        &&& encoder_result_of(outcome, EncoderTask::PalettePass, Err(error))
    }
}

/// After the pass that writes the output. A video render ends as the pass
/// did. An animated image first has its palette removed, however the pass
/// ended.
pub open spec fn after_encode(
    state: RenderState,
    outcome: EncoderOutcome,
    next: RenderState,
    action: RenderAction,
) -> bool {
    &&& next.config == state.config
    &&& next.frame_count == state.frame_count
    &&& if format_of(state.config.format@) == Some(OutputFormat::Gif) {
        &&& goes_on(state, next, RenderStage::AwaitCleanup)
        &&& next.result matches Some(result)
        &&& encoder_result_of(outcome, EncoderTask::ImagePass, result)
        &&& action matches RenderAction::RemoveFile { path }
        &&& path@ == PALETTE_PATH@
    } else {
        &&& ends(state, next, action)
        &&& match outcome {
            EncoderOutcome::Exited { success: true, stderr, .. } => {
                &&& ending_of(state, next, action) matches Ok(report)
                &&& is_report_of(state, stderr@, None, report)
            },
            _ => {
                &&& ending_of(state, next, action) matches Err(error)
                &&& encoder_result_of(outcome, EncoderTask::VideoPass, Err(error))
            },
        }
    }
}

/// After the palette is removed: the render ends as its final pass did.
pub open spec fn after_cleanup(state: RenderState, next: RenderState, action: RenderAction) -> bool {
    &&& next.config == state.config
    &&& state.result matches Some(result)
    &&& ends_with_result(state, result, Some(GIF_NOTE@), next, action)
}

/// After the ephemeral directory is released: the render ends as was
/// settled.
pub open spec fn after_release(state: RenderState, next: RenderState, action: RenderAction) -> bool {
    &&& next.config == state.config
    &&& next.stage == RenderStage::Finished
    &&& next.extraction == state.extraction
    &&& state.ending matches Some(ending)
    &&& action == final_action(ending)
}

/// One step of a render: what follows in `state` an event that answers the
/// last action.
pub open spec fn accepted_step(
    state: RenderState,
    event: RenderEvent,
    next: RenderState,
    action: RenderAction,
) -> bool {
    match event {
        RenderEvent::Start => after_start(state, next, action),
        RenderEvent::InputProbed { exists } => after_input_probe(state, exists, next, action),
        RenderEvent::ArchiveLoaded { archive } => after_archive(state, archive, next, action),
        RenderEvent::IoFailed { detail } => after_io_failure(state, detail@, next, action),
        RenderEvent::FramesStored { dir } => after_frame_store(state, dir@, next, action),
        RenderEvent::DirectoryListed { entries } => after_listing(state, entries@, next, action),
        RenderEvent::EncoderProbed { outcome } => after_encoder_probe(
            state,
            outcome,
            next,
            action,
        ),
        RenderEvent::EncoderFinished { outcome } => if state.stage
            == RenderStage::AwaitPalettePass {
            after_palette_pass(state, outcome, next, action)
        } else {
            after_encode(state, outcome, next, action)
        },
        RenderEvent::CleanedUp => if state.stage == RenderStage::AwaitCleanup {
            after_cleanup(state, next, action)
        } else {
            after_release(state, next, action)
        },
    }
}

/// One step of a render. An event that does not answer the last action is
/// turned away, and the state stays as it is.
pub open spec fn render_step(
    state: RenderState,
    event: RenderEvent,
    next: RenderState,
    action: RenderAction,
) -> bool {
    if state.accepts(event) {
        accepted_step(state, event, next, action)
    } else {
        next == state && action is OutOfTurn
    }
}

/// Settles how the render ends, and asks for the release of the ephemeral
/// directory where one is held.
fn end(state: RenderState, ending: Result<RenderReport, RenderError>) -> (r: (
    RenderState,
    RenderAction,
))
    ensures
        ends(state, r.0, r.1),
        ending_of(state, r.0, r.1) == ending,
        r.0.config == state.config,
        r.0.frames_dir == state.frames_dir,
        r.0.frame_count == state.frame_count,
{
    let mut next = state;
    match next.extraction.take() {
        Some(dir) => {
            next.stage = RenderStage::AwaitRelease;
            next.ending = Some(ending);
            (next, RenderAction::ReleaseFrames { dir })
        },
        None => {
            next.stage = RenderStage::Finished;
            match ending {
                Ok(report) => (next, RenderAction::Finish { report }),
                Err(error) => (next, RenderAction::Fail { error }),
            }
        },
    }
}

/// Settles that the render fails.
fn fail(state: RenderState, error: RenderError) -> (r: (RenderState, RenderAction))
    ensures
        fails_with(state, r.0, r.1, error),
        r.0.config == state.config,
        r.0.frames_dir == state.frames_dir,
        r.0.frame_count == state.frame_count,
{
    end(state, Err(error))
}

/// Settles that the render ends as its last pass did.
fn finish(state: RenderState, result: Result<String, RenderError>, note: Option<String>) -> (r: (
    RenderState,
    RenderAction,
))
    ensures
        ends_with_result(state, result, optional_string_text(note), r.0, r.1),
        r.0.config == state.config,
        r.0.frame_count == state.frame_count,
{
    match result {
        Ok(stderr) => {
            let warnings = scan_ffmpeg_stderr(stderr.as_str());
            let report = RenderReport::new(
                state.config.output.clone(),
                Some(state.frame_count),
                warnings,
                false,
                note,
            );
            end(state, Ok(report))
        },
        Err(e) => fail(state, e),
    }
}

/// Validates the request and asks for the input probe.
fn on_start(state: RenderState) -> (r: (RenderState, RenderAction))
    ensures
        after_start(state, r.0, r.1),
{
    if state.config.output.as_str().is_empty() {
        return fail(state, RenderError::OutputPathInvalid);
    }
    match OutputFormat::parse(state.config.format.as_str()) {
        Ok(_) => {},
        Err(e) => {
            return fail(state, e);
        },
    }
    let path = state.config.input.clone();
    let mut next = state;
    next.stage = RenderStage::AwaitInputProbe;
    (next, RenderAction::ProbeInput { path })
}

/// Resolves the input: missing, archive or directory.
fn on_input_probed(state: RenderState, exists: bool) -> (r: (RenderState, RenderAction))
    ensures
        after_input_probe(state, exists, r.0, r.1),
{
    let path = state.config.input.clone();
    if !exists {
        return fail(state, RenderError::InputNotFound { path });
    }
    let mut next = state;
    if names_archive(path.as_str()) {
        next.stage = RenderStage::AwaitArchive;
        (next, RenderAction::LoadArchive { path })
    } else {
        next.stage = RenderStage::AwaitListing;
        next.frames_dir = path.clone();
        (next, RenderAction::ListDirectory { dir: path })
    }
}

/// Takes the image frames out of the archive.
fn on_archive(state: RenderState, archive: Result<FrameArchive, RenderError>) -> (r: (
    RenderState,
    RenderAction,
))
    ensures
        after_archive(state, archive, r.0, r.1),
{
    let mut opened = match archive {
        Ok(a) => a,
        Err(e) => {
            return fail(state, e);
        },
    };
    match unzip_frames(&mut opened) {
        Ok(frames) => {
            let mut next = state;
            next.stage = RenderStage::AwaitFrameStore;
            (next, RenderAction::StoreFrames { frames })
        },
        Err(e) => fail(state, e),
    }
}

/// Holds the directory of the stored frames and asks for its listing.
fn on_frames_stored(state: RenderState, dir: String) -> (r: (RenderState, RenderAction))
    ensures
        after_frame_store(state, dir@, r.0, r.1),
{
    let mut next = state;
    next.stage = RenderStage::AwaitListing;
    next.frames_dir = dir.clone();
    next.extraction = Some(dir.clone());
    (next, RenderAction::ListDirectory { dir })
}

/// Collects and counts the frames of the listing.
fn on_listing(state: RenderState, entries: Vec<String>) -> (r: (RenderState, RenderAction))
    ensures
        after_listing(state, entries@, r.0, r.1),
{
    let collected = collect_input_frames(
        state.frames_dir.as_str(),
        &entries,
        state.config.file_pattern.clone(),
    );
    let frames = match collected {
        Ok(frames) => frames,
        Err(e) => {
            return fail(state, e);
        },
    };
    if frames.len() == 0 {
        let pattern = match &state.config.file_pattern {
            Some(p) => p.clone(),
            None => String::from_str(DEFAULT_PATTERN),
        };
        let dir = state.frames_dir.clone();
        return fail(state, RenderError::NoFramesMatched { dir, pattern, preview: false });
    }
    let mut next = state;
    next.frame_count = frames.len();
    next.stage = RenderStage::AwaitEncoderProbe;
    (next, RenderAction::ProbeEncoder)
}

/// Plans the encoder invocations and starts the first.
fn on_encoder_probed(state: RenderState, outcome: EncoderOutcome) -> (r: (
    RenderState,
    RenderAction,
))
    requires
        state.config.fps > 0,
    ensures
        after_encoder_probe(state, outcome, r.0, r.1),
{
    match probe_result(outcome) {
        Some(e) => {
            return fail(state, e);
        },
        None => {},
    }
    match plan_render(&state.config, state.frames_dir.as_str(), state.frame_count) {
        Ok(RenderJob::TwoPass { plan }) => {
            let mut next = state;
            next.stage = RenderStage::AwaitPalettePass;
            next.final_args = plan.final_args;
            (next, RenderAction::RunEncoder { args: plan.palette_args })
        },
        Ok(RenderJob::SinglePass { args }) => {
            let mut next = state;
            next.stage = RenderStage::AwaitEncode;
            (next, RenderAction::RunEncoder { args })
        },
        Err(e) => fail(state, e),
    }
}

/// Goes on to the final pass, or fails as the palette pass did.
fn on_palette_pass(state: RenderState, outcome: EncoderOutcome) -> (r: (RenderState, RenderAction))
    ensures
        after_palette_pass(state, outcome, r.0, r.1),
{
    match task_result(outcome, EncoderTask::PalettePass) {
        Ok(_) => {
            let mut next = state;
            next.stage = RenderStage::AwaitEncode;
            let args = next.final_args;
            next.final_args = Vec::new();
            (next, RenderAction::RunEncoder { args })
        },
        Err(e) => fail(state, e),
    }
}

/// Ends a video render, or has the palette of an animated image removed.
fn on_encode(state: RenderState, outcome: EncoderOutcome) -> (r: (RenderState, RenderAction))
    ensures
        after_encode(state, outcome, r.0, r.1),
{
    match OutputFormat::parse(state.config.format.as_str()) {
        Ok(OutputFormat::Gif) => {
            let mut next = state;
            next.stage = RenderStage::AwaitCleanup;
            next.result = Some(task_result(outcome, EncoderTask::ImagePass));
            (next, RenderAction::RemoveFile { path: String::from_str(PALETTE_PATH) })
        },
        _ => finish(state, task_result(outcome, EncoderTask::VideoPass), None),
    }
}

/// Ends the render of an animated image once its palette is removed.
fn on_cleanup(state: RenderState) -> (r: (RenderState, RenderAction))
    requires
        state.result is Some,
    ensures
        after_cleanup(state, r.0, r.1),
{
    let mut current = state;
    let result = current.result.take().unwrap();
    finish(current, result, Some(String::from_str(GIF_NOTE)))
}

/// Ends the render once the ephemeral directory is released.
fn on_release(state: RenderState) -> (r: (RenderState, RenderAction))
    requires
        state.ending is Some,
    ensures
        after_release(state, r.0, r.1),
{
    let mut next = state;
    next.stage = RenderStage::Finished;
    match next.ending.take().unwrap() {
        Ok(report) => (next, RenderAction::Finish { report }),
        Err(error) => (next, RenderAction::Fail { error }),
    }
}

/// Takes one step of a render.
///
/// `event` answers the action that led to `state`; the first event is
/// `Start`. The result is the state that follows and the action to perform
/// next. An event out of turn is turned away with `OutOfTurn`. After
/// `Finish` or `Fail` the render has ended and no event is accepted any
/// more.
pub fn render(state: RenderState, event: RenderEvent) -> (r: (RenderState, RenderAction))
    requires
        state.config.fps > 0,
    ensures
        render_step(state, event, r.0, r.1),
        state.wf() ==> r.0.wf(),
{
    if !state.accepts_event(&event) {
        return (state, RenderAction::OutOfTurn);
    }
    let ghost before = state;
    let ghost answered = event;
    let r = match event {
        RenderEvent::Start => on_start(state),
        RenderEvent::InputProbed { exists } => on_input_probed(state, exists),
        RenderEvent::ArchiveLoaded { archive } => on_archive(state, archive),
        RenderEvent::IoFailed { detail } => fail(
            state,
            RenderError::ArchiveUnreadable { fault: ArchiveFault::Io, detail },
        ),
        RenderEvent::FramesStored { dir } => on_frames_stored(state, dir),
        RenderEvent::DirectoryListed { entries } => on_listing(state, entries),
        RenderEvent::EncoderProbed { outcome } => on_encoder_probed(state, outcome),
        RenderEvent::EncoderFinished { outcome } => {
            if state.stage == RenderStage::AwaitPalettePass {
                on_palette_pass(state, outcome)
            } else {
                on_encode(state, outcome)
            }
        },
        RenderEvent::CleanedUp => {
            if state.stage == RenderStage::AwaitCleanup {
                on_cleanup(state)
            } else {
                on_release(state)
            }
        },
    };
    proof {
        if before.wf() {
            lemma_step_keeps_well_formed(before, answered, r.0, r.1);
        }
    }
    r
}

/// A request for a format that is not supported fails at the first step,
/// before the input is looked at, and the message says that the format is
/// unsupported.
pub proof fn lemma_unsupported_format_fails(
    state: RenderState,
    next: RenderState,
    action: RenderAction,
)
    requires
        state.config.output@.len() > 0,
        format_of(state.config.format@) is None,
        accepted_step(state, RenderEvent::Start, next, action),
    ensures
        ends(state, next, action),
        ending_of(state, next, action) matches Err(error) && has_substring(
            error.message_text(),
            "Unsupported format"@,
        ),
{
    match ending_of(state, next, action) {
        Err(RenderError::UnsupportedFormat { format }) => {
            lemma_unsupported_format_message(format);
        },
        _ => {},
    }
}

/// A request whose input does not exist fails when the probe says so, and
/// the message says that the path does not exist.
pub proof fn lemma_missing_input_fails(state: RenderState, next: RenderState, action: RenderAction)
    requires
        accepted_step(state, RenderEvent::InputProbed { exists: false }, next, action),
    ensures
        ends(state, next, action),
        ending_of(state, next, action) matches Err(error) && has_substring(
            error.message_text(),
            "does not exist"@,
        ),
{
    match ending_of(state, next, action) {
        Err(RenderError::InputNotFound { path }) => {
            lemma_missing_input_message(path);
        },
        _ => {},
    }
}

/// An archive whose members can all be opened and of which none is an image
/// frame fails the render, and the message says that no files were found.
pub proof fn lemma_archive_without_frames_fails(
    state: RenderState,
    archive: FrameArchive,
    next: RenderState,
    action: RenderAction,
)
    requires
        all_named(archive.names()),
        archive.frames().len() == 0,
        accepted_step(state, RenderEvent::ArchiveLoaded { archive: Ok(archive) }, next, action),
    ensures
        ends(state, next, action),
        ending_of(state, next, action) matches Err(error) && has_substring(
            error.message_text(),
            "No PNG files found"@,
        ),
{
    lemma_no_frames_message();
}

/// The encoder is started only once the request, the input and the frame
/// set have been validated: a step that runs it answers the probe of the
/// encoder or the end of the palette pass.
pub proof fn lemma_encoder_runs_after_validation(
    state: RenderState,
    event: RenderEvent,
    next: RenderState,
    action: RenderAction,
)
    requires
        state.accepts(event),
        accepted_step(state, event, next, action),
        action is RunEncoder,
    ensures
        state.stage == RenderStage::AwaitEncoderProbe || state.stage
            == RenderStage::AwaitPalettePass,
{
}

/// The palette of an animated image is removed after the final pass,
/// however that pass ended, and the render then ends as the pass did.
pub proof fn lemma_palette_removed_after_final_pass(
    state: RenderState,
    outcome: EncoderOutcome,
    next: RenderState,
    action: RenderAction,
)
    requires
        state.stage == RenderStage::AwaitEncode,
        format_of(state.config.format@) == Some(OutputFormat::Gif),
        accepted_step(state, RenderEvent::EncoderFinished { outcome }, next, action),
    ensures
        action matches RenderAction::RemoveFile { path } && path@ == PALETTE_PATH@,
        next.accepts(RenderEvent::CleanedUp),
        next.result matches Some(result) && encoder_result_of(
            outcome,
            EncoderTask::ImagePass,
            result,
        ),
{
}

/// A step leads from one state that a render can be in to another.
pub proof fn lemma_step_keeps_well_formed(
    state: RenderState,
    event: RenderEvent,
    next: RenderState,
    action: RenderAction,
)
    requires
        state.wf(),
        state.accepts(event),
        accepted_step(state, event, next, action),
    ensures
        next.wf(),
{
}

/// While the ephemeral directory of extracted frames is held, no step ends
/// the render: the step either keeps holding it, or asks for its release
/// and holds it no longer. So the directory is released on every path to
/// the end, and before the end.
pub proof fn lemma_frames_released_before_end(
    state: RenderState,
    event: RenderEvent,
    next: RenderState,
    action: RenderAction,
)
    requires
        state.wf(),
        state.accepts(event),
        state.extraction is Some,
        accepted_step(state, event, next, action),
    ensures
        !(action is Finish),
        !(action is Fail),
        next.stage != RenderStage::Finished,
        if action is ReleaseFrames {
            next.extraction is None && next.stage == RenderStage::AwaitRelease
        } else {
            next.extraction == state.extraction
        },
{
}

/// The release of the ephemeral directory is asked for once: by a step that
/// holds the directory, which is then held no longer, and the render ends
/// with the answer.
pub proof fn lemma_frames_released_once(
    state: RenderState,
    event: RenderEvent,
    next: RenderState,
    action: RenderAction,
)
    requires
        state.accepts(event),
        accepted_step(state, event, next, action),
        action is ReleaseFrames,
    ensures
        state.extraction is Some,
        action matches RenderAction::ReleaseFrames { dir } && dir@ == state.extraction.unwrap()@,
        next.extraction is None,
        next.stage == RenderStage::AwaitRelease,
        next.accepts(RenderEvent::CleanedUp),
{
}

} // verus!
