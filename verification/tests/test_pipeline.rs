use aether_renderer_core::archive::FrameArchive;
use aether_renderer_core::config::RenderConfig;
use aether_renderer_core::error::{EncoderTask, RenderError};
use aether_renderer_core::pipeline::{
    names_archive, render, EncoderOutcome, RenderAction, RenderEvent, RenderStage, RenderState,
};
use aether_renderer_core::report::RenderReport;
use std::io::Write;

/// A simulated outside world for one render.
struct World {
    exists: bool,
    archive: Vec<u8>,
    entries: Vec<String>,
    encoder_installed: bool,
    failing_pass: Option<usize>,
    stderr: String,
    probed_paths: Vec<String>,
    listed: Vec<String>,
    stored: Vec<String>,
    runs: Vec<Vec<String>>,
    removed: Vec<String>,
    released: Vec<String>,
}

fn world(exists: bool, entries: &[&str]) -> World {
    World {
        exists,
        archive: Vec::new(),
        entries: entries.iter().map(|s| s.to_string()).collect(),
        encoder_installed: true,
        failing_pass: None,
        stderr: String::new(),
        probed_paths: Vec::new(),
        listed: Vec::new(),
        stored: Vec::new(),
        runs: Vec::new(),
        removed: Vec::new(),
        released: Vec::new(),
    }
}

fn config(input: &str, output: &str, format: &str) -> RenderConfig {
    let mut cfg = RenderConfig::new(input.to_string(), output.to_string());
    cfg.format = format.to_string();
    cfg
}

fn drive(cfg: RenderConfig, w: &mut World) -> Result<RenderReport, RenderError> {
    assert!(cfg.fps > 0);
    let mut state = RenderState::new(cfg);
    let mut event = RenderEvent::Start;
    loop {
        assert!(state.accepts_event(&event));
        let (next, action) = render(state, event);
        state = next;
        event = match action {
            RenderAction::ProbeInput { path } => {
                w.probed_paths.push(path);
                RenderEvent::InputProbed { exists: w.exists }
            }
            RenderAction::LoadArchive { .. } => RenderEvent::ArchiveLoaded {
                archive: FrameArchive::open(w.archive.clone()),
            },
            RenderAction::StoreFrames { frames } => {
                w.stored = frames.iter().map(|f| f.name.clone()).collect();
                w.entries = w.stored.clone();
                RenderEvent::FramesStored { dir: "/tmp/extracted".to_string() }
            }
            RenderAction::ListDirectory { dir } => {
                w.listed.push(dir);
                RenderEvent::DirectoryListed { entries: w.entries.clone() }
            }
            RenderAction::ProbeEncoder => RenderEvent::EncoderProbed {
                outcome: if w.encoder_installed {
                    EncoderOutcome::Exited { success: true, code: Some(0), stderr: String::new() }
                } else {
                    EncoderOutcome::NotFound
                },
            },
            RenderAction::RunEncoder { args } => {
                w.runs.push(args);
                let failed = w.failing_pass == Some(w.runs.len());
                RenderEvent::EncoderFinished {
                    outcome: EncoderOutcome::Exited {
                        success: !failed,
                        code: Some(if failed { 1 } else { 0 }),
                        stderr: w.stderr.clone(),
                    },
                }
            }
            RenderAction::RemoveFile { path } => {
                w.removed.push(path);
                RenderEvent::CleanedUp
            }
            RenderAction::ReleaseFrames { dir } => {
                w.released.push(dir);
                RenderEvent::CleanedUp
            }
            RenderAction::Finish { report } => {
                assert_eq!(state.stage, RenderStage::Finished);
                return Ok(report);
            }
            RenderAction::Fail { error } => {
                assert_eq!(state.stage, RenderStage::Finished);
                return Err(error);
            }
            RenderAction::OutOfTurn => panic!("an answer was turned away"),
        };
    }
}

fn args(list: &[&str]) -> Vec<String> {
    list.iter().map(|s| s.to_string()).collect()
}

#[test]
fn test_nonexistent_input_path() {
    let cfg = config("nonexistent_folder/", "out.mp4", "mp4");
    let mut w = world(false, &[]);
    let result = drive(cfg, &mut w);
    assert!(result.is_err());
    let err = result.unwrap_err().message();
    assert!(err.contains("does not exist"));
    assert_eq!(w.probed_paths, args(&["nonexistent_folder/"]));
    assert!(w.runs.is_empty());
}

#[test]
fn test_unsupported_format() {
    let cfg = config("frames/", "out.avi", "avi");
    let mut w = world(false, &[]);
    let result = drive(cfg, &mut w);
    assert!(result.is_err());
    let err = result.unwrap_err().message();
    println!("Error: {}", err);
    assert!(err.contains("Unsupported format"));
}

#[test]
fn test_unsupported_format2() {
    let cfg = config("frames/", "out.avi", "webm");
    let mut w = world(false, &[]);
    let result = drive(cfg, &mut w);
    assert!(result.is_err());
    let err = result.unwrap_err().message();
    println!("Error: {}", err);
    assert!(err.contains("Input path 'frames/' does not exist"));
}

#[test]
fn test_weird_output_filenames() {
    let cases = vec![("output.ðŸ’¥ðŸ’£ðŸ’€", "weird unicode"), ("out", "no extension")];

    for (filename, desc) in cases {
        let cfg = config("tests/data/frames", filename, "webm");
        let mut w = world(false, &[]);
        let result = drive(cfg, &mut w);
        assert!(result.is_err(), "Expected error for case: {}", desc);
    }
}

#[test]
fn unsupported_value_fails_before_anything_is_probed() {
    let cfg = config("frames", "out.webm", "unsupported-value");
    let mut w = world(true, &["a.png"]);
    let err = drive(cfg, &mut w).unwrap_err();
    assert!(matches!(err, RenderError::UnsupportedFormat { .. }));
    assert_eq!(
        err.message(),
        "❌ Unsupported format: unsupported-value. Use 'webm' or 'mp4'."
    );
    assert!(w.probed_paths.is_empty());
    assert!(w.runs.is_empty());
}

#[test]
fn empty_output_path_is_rejected_first() {
    let cfg = config("frames", "", "avi");
    let mut w = world(true, &["a.png"]);
    let err = drive(cfg, &mut w).unwrap_err();
    assert!(matches!(err, RenderError::OutputPathInvalid));
    assert!(w.probed_paths.is_empty());
}

#[test]
fn two_frames_render_to_webm() {
    let cfg = config("frames", "out.webm", "webm");
    let mut w = world(true, &["b.png", "a.png"]);
    let report = drive(cfg, &mut w).unwrap();
    assert_eq!(report.output_path, "out.webm");
    assert_eq!(report.frames_rendered, Some(2));
    assert!(report.ffmpeg_warnings.is_empty());
    assert!(!report.preview);
    assert_eq!(report.notes, None);
    assert_eq!(w.listed, args(&["frames"]));
    assert_eq!(
        w.runs,
        vec![args(&[
            "-framerate", "30", "-pattern_type", "glob", "-i", "frames/*.png", "-c:v", "libvpx",
            "-pix_fmt", "yuva420p", "-auto-alt-ref", "0", "-y", "out.webm", "-loglevel",
            "warning",
        ])]
    );
    assert!(w.removed.is_empty());
}

#[test]
fn trailing_separator_of_the_input_is_not_doubled() {
    let cfg = config("frames/", "out.webm", "webm");
    let mut w = world(true, &["a.png"]);
    drive(cfg, &mut w).unwrap();
    assert_eq!(w.runs[0][5], "frames/*.png");
}

#[test]
fn fades_longer_than_the_clip_are_clamped() {
    let mut cfg = config("frames", "out.mp4", "mp4");
    cfg.fade_in = 1_000_000;
    cfg.fade_out = 1_000_000;
    cfg.crf = Some(18);
    cfg.bitrate = Some("1M".to_string());
    cfg.verbose_ffmpeg = true;
    let mut w = world(true, &["a.png", "b.png"]);
    let report = drive(cfg, &mut w).unwrap();
    assert_eq!(report.frames_rendered, Some(2));
    assert_eq!(
        w.runs,
        vec![args(&[
            "-framerate", "30", "-pattern_type", "glob", "-i", "frames/*.png", "-c:v",
            "libx264", "-pix_fmt", "yuv420p", "-auto-alt-ref", "0", "-b:v", "1M", "-crf", "18",
            "-vf", "fade=t=in:st=0:d=1,fade=t=out:st=0:d=1", "-y", "out.mp4",
        ])]
    );
}

#[test]
fn warnings_of_the_encoder_reach_the_report() {
    let cfg = config("frames", "out.webm", "webm");
    let mut w = world(true, &["a.png"]);
    w.stderr = "Frame DROP detected; option 'x' is deprecated".to_string();
    let report = drive(cfg, &mut w).unwrap();
    assert_eq!(
        report.ffmpeg_warnings,
        args(&[
            "⚠️ FFmpeg reported frame drops.",
            "⚠️ Deprecated options used in FFmpeg command.",
        ])
    );
}

#[test]
fn empty_directory_fails_without_running_the_encoder() {
    let mut cfg = config("frames", "out.webm", "webm");
    cfg.file_pattern = Some("shot_*.png".to_string());
    let mut w = world(true, &["a.png", "notes.txt"]);
    let err = drive(cfg, &mut w).unwrap_err();
    assert_eq!(
        err.message(),
        "❌ No input files found in 'frames' matching pattern 'shot_*.png'."
    );
    assert!(w.runs.is_empty());
}

#[test]
fn malformed_pattern_fails_the_render() {
    let mut cfg = config("frames", "out.webm", "webm");
    cfg.file_pattern = Some("[".to_string());
    let mut w = world(true, &["a.png"]);
    let err = drive(cfg, &mut w).unwrap_err();
    assert!(matches!(err, RenderError::FramePatternInvalid { .. }));
}

#[test]
fn missing_encoder_fails_after_validation() {
    let cfg = config("frames", "out.webm", "webm");
    let mut w = world(true, &["a.png"]);
    w.encoder_installed = false;
    let err = drive(cfg, &mut w).unwrap_err();
    assert!(matches!(err, RenderError::EncoderNotFound { task: EncoderTask::Probe }));
    assert_eq!(
        err.message(),
        "❌ ffmpeg not found. Please install ffmpeg and ensure it is in your PATH."
    );
    assert!(w.runs.is_empty());
}

#[test]
fn failing_encoder_fails_the_render() {
    let cfg = config("frames", "out.webm", "webm");
    let mut w = world(true, &["a.png"]);
    w.failing_pass = Some(1);
    let err = drive(cfg, &mut w).unwrap_err();
    assert_eq!(
        err.message(),
        "❌ Failed to execute ffmpeg: ❌ ffmpeg exited with code 1"
    );
}

#[test]
fn gif_runs_two_passes_and_removes_the_palette() {
    let mut cfg = config("frames", "out.gif", "gif");
    cfg.fps = 10;
    let mut w = world(true, &["a.png", "b.png", "c.png"]);
    let report = drive(cfg, &mut w).unwrap();
    assert_eq!(report.output_path, "out.gif");
    assert_eq!(report.frames_rendered, Some(3));
    assert_eq!(report.notes, Some("GIF export via palettegen".to_string()));
    assert_eq!(w.runs.len(), 2);
    assert_eq!(
        w.runs[0],
        args(&[
            "-pattern_type", "glob", "-i", "frames/*.png", "-vf",
            "fps=30,scale=640:-1:lanczos,palettegen", "-y", "palette.png", "-loglevel",
            "warning",
        ])
    );
    assert_eq!(
        w.runs[1],
        args(&[
            "-framerate", "10", "-pattern_type", "glob", "-i", "frames/*.png", "-i",
            "palette.png", "-lavfi", "fps=30,scale=640:-1:lanczos [x]; [x][1:v] paletteuse",
            "-y", "out.gif", "-loglevel", "warning",
        ])
    );
    assert_eq!(w.removed, args(&["palette.png"]));
}

#[test]
fn gif_removes_the_palette_when_the_final_pass_fails() {
    let cfg = config("frames", "out.gif", "gif");
    let mut w = world(true, &["a.png"]);
    w.failing_pass = Some(2);
    let err = drive(cfg, &mut w).unwrap_err();
    assert_eq!(
        err.message(),
        "❌ Failed to render final GIF: ❌ ffmpeg exited with code 1"
    );
    assert_eq!(w.runs.len(), 2);
    assert_eq!(w.removed, args(&["palette.png"]));
}

#[test]
fn gif_stops_when_the_palette_pass_fails() {
    let cfg = config("frames", "out.gif", "gif");
    let mut w = world(true, &["a.png"]);
    w.failing_pass = Some(1);
    let err = drive(cfg, &mut w).unwrap_err();
    assert_eq!(
        err.message(),
        "❌ Failed to run ffmpeg for palettegen: ❌ ffmpeg exited with code 1"
    );
    assert_eq!(w.runs.len(), 1);
}

fn two_frame_archive(names: &[&str]) -> Vec<u8> {
    let mut zip = zip::write::ZipWriter::new(std::io::Cursor::new(Vec::new()));
    let options = zip::write::FileOptions::default();
    for name in names {
        zip.start_file(*name, options).unwrap();
        zip.write_all(b"data").unwrap();
    }
    zip.finish().unwrap().into_inner()
}

#[test]
fn archive_input_is_extracted_then_rendered() {
    let cfg = config("shots/two-frames.zip", "out.mp4", "mp4");
    let mut w = world(true, &[]);
    w.archive = two_frame_archive(&["two/frame_0001.png", "two/frame_0000.png", "two/info.txt"]);
    let report = drive(cfg, &mut w).unwrap();
    assert_eq!(report.frames_rendered, Some(2));
    assert_eq!(w.stored, args(&["frame_0001.png", "frame_0000.png"]));
    assert_eq!(w.listed, args(&["/tmp/extracted"]));
    assert_eq!(w.runs[0][4], "-i");
    assert_eq!(w.runs[0][5], "/tmp/extracted/*.png");
    assert_eq!(w.released, args(&["/tmp/extracted"]));
}

#[test]
fn extracted_frames_are_released_when_the_encoder_fails() {
    let cfg = config("shots/two-frames.zip", "out.gif", "gif");
    for failing_pass in [1usize, 2] {
        let mut w = world(true, &[]);
        w.archive = two_frame_archive(&["frame_0000.png", "frame_0001.png"]);
        w.failing_pass = Some(failing_pass);
        let err = drive(config("shots/two-frames.zip", "out.gif", "gif"), &mut w).unwrap_err();
        assert!(matches!(err, RenderError::EncoderNonZeroExit { code: 1, .. }));
        assert_eq!(w.runs.len(), failing_pass);
        assert_eq!(w.released, args(&["/tmp/extracted"]));
    }
    let mut w = world(true, &[]);
    w.archive = two_frame_archive(&["frame_0000.png"]);
    w.encoder_installed = false;
    assert!(drive(cfg, &mut w).is_err());
    assert_eq!(w.released, args(&["/tmp/extracted"]));
}

#[test]
fn extracted_frames_are_released_when_none_matches_the_pattern() {
    let mut cfg = config("shots/two-frames.zip", "out.mp4", "mp4");
    cfg.file_pattern = Some("shot_*.png".to_string());
    let mut w = world(true, &[]);
    w.archive = two_frame_archive(&["frame_0000.png", "frame_0001.png"]);
    let err = drive(cfg, &mut w).unwrap_err();
    assert_eq!(
        err.message(),
        "❌ No input files found in '/tmp/extracted' matching pattern 'shot_*.png'."
    );
    assert_eq!(w.released, args(&["/tmp/extracted"]));
    assert!(w.runs.is_empty());
}

#[test]
fn directory_input_has_nothing_to_release() {
    let cfg = config("frames", "out.webm", "webm");
    let mut w = world(true, &["a.png"]);
    drive(cfg, &mut w).unwrap();
    assert!(w.released.is_empty());
}

#[test]
fn archive_without_image_members_fails() {
    let cfg = config("shots/empty.zip", "out.mp4", "mp4");
    let mut w = world(true, &[]);
    w.archive = two_frame_archive(&["info.txt", "._frame.png"]);
    let err = drive(cfg, &mut w).unwrap_err();
    assert!(matches!(err, RenderError::NoFramesInArchive));
    assert!(err.message().contains("No PNG files found"));
    assert!(w.runs.is_empty());
    assert!(w.released.is_empty());
}

#[test]
fn unreadable_archive_fails() {
    let cfg = config("shots/broken.zip", "out.mp4", "mp4");
    let mut w = world(true, &[]);
    w.archive = b"not an archive".to_vec();
    let err = drive(cfg, &mut w).unwrap_err();
    assert!(matches!(err, RenderError::ArchiveUnreadable { .. }));
}

#[test]
fn failure_to_read_the_archive_fails_the_render() {
    let state = RenderState::new(config("a.zip", "out.mp4", "mp4"));
    let (state, _) = render(state, RenderEvent::Start);
    let (state, action) = render(state, RenderEvent::InputProbed { exists: true });
    assert!(matches!(action, RenderAction::LoadArchive { .. }));
    assert_eq!(state.stage, RenderStage::AwaitArchive);
    let event = RenderEvent::IoFailed {
        detail: "Failed to open zip file 'a.zip': permission denied".to_string(),
    };
    assert!(state.accepts_event(&event));
    let (state, action) = render(state, event);
    assert_eq!(state.stage, RenderStage::Finished);
    match action {
        RenderAction::Fail { error } => assert_eq!(
            error.message(),
            "❌ Failed to open zip file 'a.zip': permission denied"
        ),
        _ => panic!("the render went on"),
    }
    assert!(!state.accepts_event(&RenderEvent::Start));
}

#[test]
fn an_event_out_of_turn_changes_nothing() {
    let state = RenderState::new(config("frames", "out.mp4", "mp4"));
    let (state, action) = render(state, RenderEvent::CleanedUp);
    assert!(matches!(action, RenderAction::OutOfTurn));
    assert_eq!(state.stage, RenderStage::Ready);
    let (state, action) = render(state, RenderEvent::Start);
    assert!(matches!(action, RenderAction::ProbeInput { .. }));
    let (state, action) = render(state, RenderEvent::Start);
    assert!(matches!(action, RenderAction::OutOfTurn));
    assert_eq!(state.stage, RenderStage::AwaitInputProbe);
    let (state, action) = render(state, RenderEvent::InputProbed { exists: false });
    assert!(matches!(action, RenderAction::Fail { .. }));
    let (state, action) = render(state, RenderEvent::Start);
    assert!(matches!(action, RenderAction::OutOfTurn));
    assert_eq!(state.stage, RenderStage::Finished);
}

#[test]
fn only_the_answer_to_the_last_action_is_accepted() {
    let state = RenderState::new(config("frames", "out.mp4", "mp4"));
    assert!(state.accepts_event(&RenderEvent::Start));
    assert!(!state.accepts_event(&RenderEvent::CleanedUp));
    assert!(!state.accepts_event(&RenderEvent::InputProbed { exists: true }));
    let (state, _) = render(state, RenderEvent::Start);
    assert!(!state.accepts_event(&RenderEvent::Start));
    assert!(state.accepts_event(&RenderEvent::InputProbed { exists: true }));
}

#[test]
fn archive_paths() {
    assert!(names_archive("frames.zip"));
    assert!(names_archive("a/b/frames.zip"));
    assert!(!names_archive("frames.ZIP"));
    assert!(!names_archive("frames"));
    assert!(!names_archive(".zip"));
    assert!(!names_archive("a/.zip"));
    assert!(!names_archive("frames.zip.bak"));
    assert!(!names_archive("archive.zip/frames"));
}
