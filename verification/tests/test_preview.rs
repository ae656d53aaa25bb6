use aether_renderer_core::error::RenderError;
use aether_renderer_core::archive::FrameMember;
use aether_renderer_core::preview::{
    choose_frame, choose_member, plan_preview, preview_frame, preview_output, preview_report,
    PreviewSource,
};

fn names(list: &[&str]) -> Vec<String> {
    list.iter().map(|s| s.to_string()).collect()
}

#[test]
fn preview_defaults_to_the_middle_frame() {
    let frames = names(&["d/a.png", "d/b.png", "d/c.png", "d/d.png", "d/e.png"]);
    assert_eq!(preview_frame("d", &frames, None, None).unwrap(), "d/c.png");
    let even = names(&["d/a.png", "d/b.png", "d/c.png", "d/d.png"]);
    assert_eq!(preview_frame("d", &even, None, None).unwrap(), "d/c.png");
    let one = names(&["d/a.png"]);
    assert_eq!(preview_frame("d", &one, None, None).unwrap(), "d/a.png");
}

#[test]
fn preview_takes_the_frame_asked_for() {
    let frames = names(&["d/a.png", "d/b.png", "d/c.png"]);
    assert_eq!(preview_frame("d", &frames, None, Some(0)).unwrap(), "d/a.png");
    assert_eq!(preview_frame("d", &frames, None, Some(2)).unwrap(), "d/c.png");
}

#[test]
fn preview_beyond_the_last_frame_reports_the_range() {
    let frames = names(&["d/a.png", "d/b.png", "d/c.png"]);
    for index in [3usize, 4, 100] {
        match preview_frame("d", &frames, None, Some(index)) {
            Err(RenderError::FrameIndexOutOfRange { index: i, count }) => {
                assert_eq!(i, index);
                assert_eq!(count, 3);
                assert_eq!(
                    RenderError::FrameIndexOutOfRange { index: i, count }.message(),
                    format!("❌ Frame index {} out of range (0..2)", index)
                );
            }
            other => panic!("unexpected result: {:?}", other),
        }
    }
}

#[test]
fn preview_of_no_frames_fails() {
    match preview_frame("d", &Vec::new(), Some("x*.png".to_string()), Some(0)) {
        Err(e @ RenderError::NoFramesMatched { .. }) => assert_eq!(
            e.message(),
            "❌ No input files found in 'd' matching pattern 'x*.png'"
        ),
        other => panic!("unexpected result: {:?}", other),
    }
    match preview_frame("d", &Vec::new(), None, None) {
        Err(e) => assert_eq!(
            e.message(),
            "❌ No input files found in 'd' matching pattern '*.png'"
        ),
        Ok(path) => panic!("unexpected frame: {}", path),
    }
}

#[test]
fn chosen_frames() {
    assert_eq!(choose_frame(1, None).unwrap(), 0);
    assert_eq!(choose_frame(2, None).unwrap(), 1);
    assert_eq!(choose_frame(3, None).unwrap(), 1);
    assert_eq!(choose_frame(10, None).unwrap(), 5);
    assert_eq!(choose_frame(10, Some(9)).unwrap(), 9);
    assert!(choose_frame(10, Some(10)).is_err());
    assert!(matches!(
        choose_frame(0, None),
        Err(RenderError::FrameIndexOutOfRange { index: 0, count: 0 })
    ));
}

#[test]
fn preview_is_written_as_png() {
    assert_eq!(preview_output("out.webm"), "out.png");
    assert_eq!(preview_output("out"), "out.png");
    assert_eq!(preview_output("dir/clip.final.mp4"), "dir/clip.final.png");
}

#[test]
fn preview_request_is_validated_in_order() {
    assert!(matches!(
        plan_preview("", "missing", false),
        Err(RenderError::OutputPathInvalid)
    ));
    assert!(matches!(
        plan_preview("", "frames.zip", true),
        Err(RenderError::OutputPathInvalid)
    ));
    match plan_preview("out.png", "missing", false) {
        Err(e) => assert_eq!(e.message(), "❌ Input path 'missing' does not exist."),
        Ok(source) => panic!("unexpected source: {:?}", source),
    }
    assert_eq!(
        plan_preview("out.png", "shots/frames.zip", true).unwrap(),
        PreviewSource::Archive
    );
    assert_eq!(
        plan_preview("out.png", "shots/frames", true).unwrap(),
        PreviewSource::Directory
    );
}

#[test]
fn report_of_a_preview() {
    let report = preview_report("out.png".to_string());
    assert_eq!(report.output_path, "out.png");
    assert_eq!(report.frames_rendered, None);
    assert!(report.ffmpeg_warnings.is_empty());
    assert!(report.preview);
    assert_eq!(report.notes, Some("Preview complete.".to_string()));
}

#[test]
fn member_of_a_preview() {
    let ordered = vec![
        FrameMember { index: 4, name: "a.png".to_string() },
        FrameMember { index: 0, name: "b.png".to_string() },
        FrameMember { index: 2, name: "c.png".to_string() },
    ];
    assert_eq!(choose_member(&ordered, Some(0)).unwrap(), 4);
    assert_eq!(choose_member(&ordered, None).unwrap(), 0);
    assert_eq!(choose_member(&ordered, Some(2)).unwrap(), 2);
    assert!(matches!(
        choose_member(&ordered, Some(3)),
        Err(RenderError::FrameIndexOutOfRange { index: 3, count: 3 })
    ));
    assert!(matches!(
        choose_member(&Vec::new(), None),
        Err(RenderError::NoFramesInArchive)
    ));
}
