use aether_renderer_core::config::RenderConfig;
use aether_renderer_core::dispatch::{plan_render, render_gif, render_video, RenderJob};
use aether_renderer_core::error::RenderError;

fn args(list: &[&str]) -> Vec<String> {
    list.iter().map(|s| s.to_string()).collect()
}

#[test]
fn webm_invocation() {
    let planned = render_video("in/*.png", "out.webm", 30, "webm", None, None, Some(""), false)
        .unwrap();
    assert_eq!(
        planned,
        args(&[
            "-framerate", "30", "-pattern_type", "glob", "-i", "in/*.png", "-c:v", "libvpx",
            "-pix_fmt", "yuva420p", "-auto-alt-ref", "0", "-y", "out.webm", "-loglevel",
            "warning",
        ])
    );
}

#[test]
fn mp4_invocation_with_every_option() {
    let planned = render_video(
        "in/frame_%04d.png",
        "out.mp4",
        24,
        "mp4",
        Some("2M"),
        Some(20),
        Some("fade=t=in:st=0:d=1"),
        true,
    )
    .unwrap();
    assert_eq!(
        planned,
        args(&[
            "-framerate", "24", "-i", "in/frame_%04d.png", "-c:v", "libx264", "-pix_fmt",
            "yuv420p", "-auto-alt-ref", "0", "-b:v", "2M", "-crf", "20", "-vf",
            "fade=t=in:st=0:d=1", "-y", "out.mp4",
        ])
    );
}

#[test]
fn video_without_a_filter() {
    let planned =
        render_video("in/a.png", "o.mp4", 1, "mp4", None, Some(0), None, true).unwrap();
    assert_eq!(
        planned,
        args(&[
            "-framerate", "1", "-i", "in/a.png", "-c:v", "libx264", "-pix_fmt", "yuv420p",
            "-auto-alt-ref", "0", "-crf", "0", "-y", "o.mp4",
        ])
    );
}

#[test]
fn video_of_an_unsupported_format_is_rejected() {
    for tag in ["avi", "gif", "unsupported-value", ""] {
        match render_video("in/*.png", "out", 30, tag, None, None, None, false) {
            Err(e @ RenderError::UnsupportedFormat { .. }) => {
                assert!(e.message().contains("Unsupported format"));
                assert!(e.message().contains(tag));
            }
            other => panic!("unexpected result for {}: {:?}", tag, other),
        }
    }
}

#[test]
fn gif_passes() {
    let plan = render_gif("in/*.png", "out.gif", 12, Some(""), false);
    assert_eq!(
        plan.palette_args,
        args(&[
            "-pattern_type", "glob", "-i", "in/*.png", "-vf",
            "fps=30,scale=640:-1:lanczos,palettegen", "-y", "palette.png", "-loglevel",
            "warning",
        ])
    );
    assert_eq!(
        plan.final_args,
        args(&[
            "-framerate", "12", "-pattern_type", "glob", "-i", "in/*.png", "-i", "palette.png",
            "-lavfi", "fps=30,scale=640:-1:lanczos [x]; [x][1:v] paletteuse", "-y", "out.gif",
            "-loglevel", "warning",
        ])
    );
    assert_eq!(plan.palette_path, "palette.png");
}

#[test]
fn gif_passes_with_fades_and_full_logs() {
    let plan = render_gif("in/f.png", "o.gif", 30, Some("fade=t=out:st=0:d=1"), true);
    assert_eq!(
        plan.palette_args,
        args(&[
            "-i", "in/f.png", "-vf", "fps=30,scale=640:-1:lanczos,palettegen", "-y",
            "palette.png",
        ])
    );
    assert_eq!(
        plan.final_args,
        args(&[
            "-framerate", "30", "-i", "in/f.png", "-i", "palette.png", "-lavfi",
            "fps=30,scale=640:-1:lanczos,fade=t=out:st=0:d=1 [x]; [x][1:v] paletteuse", "-y",
            "o.gif",
        ])
    );
    let bare = render_gif("in/f.png", "o.gif", 30, None, true);
    assert_eq!(bare.final_args[7], "fps=30,scale=640:-1:lanczos [x]; [x][1:v] paletteuse");
}

#[test]
fn job_of_a_video_request() {
    let mut cfg = RenderConfig::new("in".to_string(), "out.webm".to_string());
    cfg.fade_out = 500_000;
    cfg.file_pattern = Some("shot_*.png".to_string());
    match plan_render(&cfg, "in", 90).unwrap() {
        RenderJob::SinglePass { args: planned } => assert_eq!(
            planned,
            args(&[
                "-framerate", "30", "-pattern_type", "glob", "-i", "in/shot_*.png", "-c:v",
                "libvpx", "-pix_fmt", "yuva420p", "-auto-alt-ref", "0", "-vf",
                "fade=t=out:st=2.5:d=0.5", "-y", "out.webm", "-loglevel", "warning",
            ])
        ),
        RenderJob::TwoPass { .. } => panic!("a video was planned in two passes"),
    }
}

#[test]
fn job_of_an_animated_image() {
    let mut cfg = RenderConfig::new("in".to_string(), "out.gif".to_string());
    cfg.format = "gif".to_string();
    cfg.fade_in = 1_000_000;
    match plan_render(&cfg, "/tmp/x", 3).unwrap() {
        RenderJob::TwoPass { plan } => {
            assert_eq!(plan.palette_args[3], "/tmp/x/*.png");
            assert_eq!(
                plan.final_args[9],
                "fps=30,scale=640:-1:lanczos,fade=t=in:st=0:d=1 [x]; [x][1:v] paletteuse"
            );
            assert_eq!(plan.palette_path, "palette.png");
        }
        RenderJob::SinglePass { .. } => panic!("an animated image was planned in one pass"),
    }
}

#[test]
fn job_of_an_unsupported_format() {
    let mut cfg = RenderConfig::new("in".to_string(), "out.avi".to_string());
    cfg.format = "avi".to_string();
    match plan_render(&cfg, "in", 3) {
        Err(RenderError::UnsupportedFormat { format }) => assert_eq!(format, "avi"),
        other => panic!("unexpected result: {:?}", other),
    }
}
