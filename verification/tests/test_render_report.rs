use aether_renderer_core::report::RenderReport;

#[test]
fn test_render_report_summary() {
    let report = RenderReport::new(
        "output.mp4".to_string(),
        Some(42),
        vec![
            "Frame drop detected".to_string(),
            "Color mismatch warning".to_string(),
        ],
        true,
        Some("Test render completed".to_string()),
    );

    let summary = report.summary();
    assert!(summary.contains("output.mp4"));
    assert!(summary.contains("Frames rendered: 42"));
    assert!(summary.contains("⚠️ FFmpeg Warnings"));
    assert!(summary.contains("Frame drop detected"));
    assert!(summary.contains("Color mismatch warning"));
    assert!(summary.contains("🔍 Preview mode enabled."));
    assert!(summary.contains("📝 Notes: Test render completed"));
}

#[test]
fn summary_is_exact_with_every_part() {
    let report = RenderReport::new(
        "out.webm".to_string(),
        Some(7),
        vec!["first".to_string(), "second".to_string()],
        true,
        Some("done".to_string()),
    );
    assert_eq!(
        report.summary(),
        "✅ Rendered to: out.webm\nFrames rendered: 7\n⚠️ FFmpeg Warnings:\n- first\n- second\n🔍 Preview mode enabled.\n📝 Notes: done\n"
    );
}

#[test]
fn summary_of_a_bare_report() {
    let report = RenderReport::new("out.gif".to_string(), None, Vec::new(), false, None);
    assert_eq!(
        report.summary(),
        "✅ Rendered to: out.gif\nFrames rendered: Unknown\n"
    );
}

#[test]
fn summary_writes_large_and_zero_counts() {
    let zero = RenderReport::new("o".to_string(), Some(0), Vec::new(), false, None);
    assert_eq!(zero.summary(), "✅ Rendered to: o\nFrames rendered: 0\n");
    let large = RenderReport::new("o".to_string(), Some(1234567890), Vec::new(), false, None);
    assert_eq!(
        large.summary(),
        "✅ Rendered to: o\nFrames rendered: 1234567890\n"
    );
}

#[test]
fn new_keeps_its_parts() {
    let report = RenderReport::new(
        "a/b.mp4".to_string(),
        Some(3),
        vec!["w".to_string()],
        false,
        None,
    );
    assert_eq!(report.output_path, "a/b.mp4");
    assert_eq!(report.frames_rendered, Some(3));
    assert_eq!(report.ffmpeg_warnings, vec!["w".to_string()]);
    assert!(!report.preview);
    assert_eq!(report.notes, None);
}
