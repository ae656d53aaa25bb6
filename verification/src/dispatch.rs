//! The render dispatcher's planning: the argument lists of the encoder
//! invocations, for the single-pass video pipeline and for the two-pass
//! palette pipeline.

use vstd::prelude::*;
use vstd::string::*;
use crate::config::{format_of, OutputFormat, RenderConfig};
use crate::error::RenderError;
use crate::fade::{fade_filter, fade_filter_text};
use crate::frames::{effective_pattern, frame_path, join_path, DEFAULT_PATTERN};
use crate::text::{contains, decimal, decimal_string, has_substring, texts};

verus! {

/// Where the palette of the two-pass pipeline is kept between the passes.
pub const PALETTE_PATH: &'static str = "palette.png";

/// The scaling and resampling that both passes of the palette pipeline apply.
pub const PALETTE_SCALE_FILTER: &'static str = "fps=30,scale=640:-1:lanczos";

/// The view of an optional text.
pub open spec fn optional_text(o: Option<&str>) -> Option<Seq<char>> {
    match o {
        Some(s) => Some(s@),
        None => None,
    }
}

/// The frame rate of the input sequence.
pub open spec fn framerate_args(fps: nat) -> Seq<Seq<char>> {
    seq!["-framerate"@, decimal(fps)]
}

/// Glob mode, asked for only where the frame pattern holds a wildcard.
pub open spec fn glob_mode_args(input_pattern: Seq<char>) -> Seq<Seq<char>> {
    if has_substring(input_pattern, "*"@) {
        seq!["-pattern_type"@, "glob"@]
    } else {
        Seq::empty()
    }
}

/// The reduced log level of an encoder that is not asked to log in full.
pub open spec fn log_level_args(verbose_ffmpeg: bool) -> Seq<Seq<char>> {
    if verbose_ffmpeg {
        Seq::empty()
    } else {
        seq!["-loglevel"@, "warning"@]
    }
}

/// The bitrate, where one is set.
pub open spec fn bitrate_args(bitrate: Option<Seq<char>>) -> Seq<Seq<char>> {
    match bitrate {
        Some(b) => seq!["-b:v"@, b],
        None => Seq::empty(),
    }
}

/// The quality factor, where one is set.
pub open spec fn crf_args(crf: Option<u32>) -> Seq<Seq<char>> {
    match crf {
        Some(c) => seq!["-crf"@, decimal(c as nat)],
        None => Seq::empty(),
    }
}

/// The video filter, where the fade fragment is not empty.
pub open spec fn video_filter_args(fade_filter: Option<Seq<char>>) -> Seq<Seq<char>> {
    match fade_filter {
        Some(f) => if f.len() > 0 {
            seq!["-vf"@, f]
        } else {
            Seq::empty()
        },
        None => Seq::empty(),
    }
}

/// The arguments of the one invocation that encodes a video.
pub open spec fn video_args(
    input_pattern: Seq<char>,
    output: Seq<char>,
    fps: nat,
    format: OutputFormat,
    bitrate: Option<Seq<char>>,
    crf: Option<u32>,
    fade_filter: Option<Seq<char>>,
    verbose_ffmpeg: bool,
) -> Seq<Seq<char>> {
    framerate_args(fps) + glob_mode_args(input_pattern) + seq![
        "-i"@,
        input_pattern,
        "-c:v"@,
        format.codec_text(),
        "-pix_fmt"@,
        format.pixel_format_text(),
        "-auto-alt-ref"@,
        "0"@,
    ] + bitrate_args(bitrate) + crf_args(crf) + video_filter_args(fade_filter) + seq![
        "-y"@,
        output,
    ] + log_level_args(verbose_ffmpeg)
}

/// The arguments of the pass that generates the palette.
pub open spec fn palette_args(input_pattern: Seq<char>, verbose_ffmpeg: bool) -> Seq<Seq<char>> {
    glob_mode_args(input_pattern) + seq![
        "-i"@,
        input_pattern,
        "-vf"@,
        PALETTE_SCALE_FILTER@ + ",palettegen"@,
        "-y"@,
        PALETTE_PATH@,
    ] + log_level_args(verbose_ffmpeg)
}

/// The filter graph of the final pass: scaling, then the fade fragment where
/// it is not empty, then the application of the palette.
pub open spec fn palette_use_graph(fade_filter: Option<Seq<char>>) -> Seq<char> {
    match fade_filter {
        Some(f) => if f.len() > 0 {
            PALETTE_SCALE_FILTER@ + ","@ + f + " [x]; [x][1:v] paletteuse"@
        } else {
            PALETTE_SCALE_FILTER@ + " [x]; [x][1:v] paletteuse"@
        },
        None => PALETTE_SCALE_FILTER@ + " [x]; [x][1:v] paletteuse"@,
    }
}

/// The arguments of the pass that encodes the animated image over the
/// palette.
pub open spec fn palette_use_args(
    input_pattern: Seq<char>,
    output: Seq<char>,
    fps: nat,
    fade_filter: Option<Seq<char>>,
    verbose_ffmpeg: bool,
) -> Seq<Seq<char>> {
    framerate_args(fps) + glob_mode_args(input_pattern) + seq![
        "-i"@,
        input_pattern,
        "-i"@,
        PALETTE_PATH@,
        "-lavfi"@,
        palette_use_graph(fade_filter),
        "-y"@,
        output,
    ] + log_level_args(verbose_ffmpeg)
}

/// Adds one argument.
fn push_arg(args: &mut Vec<String>, arg: &str)
    ensures
        texts(final(args)@) == texts(old(args)@).push(arg@),
{
    args.push(String::from_str(arg));
}

/// Adds the glob-mode flag where the pattern calls for it.
fn push_glob_mode(args: &mut Vec<String>, input_pattern: &str)
    ensures
        texts(final(args)@) == texts(old(args)@) + glob_mode_args(input_pattern@),
{
    if contains(input_pattern, "*") {
        push_arg(args, "-pattern_type");
        push_arg(args, "glob");
    }
}

/// Adds the reduced log level where the encoder is not to log in full.
fn push_log_level(args: &mut Vec<String>, verbose_ffmpeg: bool)
    ensures
        texts(final(args)@) == texts(old(args)@) + log_level_args(verbose_ffmpeg),
{
    if !verbose_ffmpeg {
        push_arg(args, "-loglevel");
        push_arg(args, "warning");
    }
}

/// Starts an argument list with the frame rate.
fn framerate_start(fps: u32) -> (args: Vec<String>)
    ensures
        texts(args@) == framerate_args(fps as nat),
{
    let mut args: Vec<String> = Vec::new();
    args.push(String::from_str("-framerate"));
    args.push(decimal_string(fps as u128));
    args
}

/// Plans the invocation that renders a video in one pass.
///
/// The codec and pixel format follow the format tag. Any tag but `webm` and
/// `mp4` is rejected as an unsupported format, and nothing is planned.
pub fn render_video(
    input_pattern: &str,
    output: &str,
    fps: u32,
    format: &str,
    bitrate: Option<&str>,
    crf: Option<u32>,
    fade_filter: Option<&str>,
    verbose_ffmpeg: bool,
) -> (r: Result<Vec<String>, RenderError>)
    ensures
        match r {
            Ok(args) => match format_of(format@) {
                Some(f) => f.is_video() && texts(args@) == video_args(
                    input_pattern@,
                    output@,
                    fps as nat,
                    f,
                    optional_text(bitrate),
                    crf,
                    optional_text(fade_filter),
                    verbose_ffmpeg,
                ),
                None => false,
            },
            Err(RenderError::UnsupportedFormat { format: tag }) => tag@ == format@ && !(format_of(
                format@,
            ) matches Some(f) && f.is_video()),
            Err(_) => false,
        },
{
    let parsed = match OutputFormat::parse(format) {
        Ok(OutputFormat::Gif) => {
            return Err(RenderError::UnsupportedFormat { format: String::from_str(format) });
        },
        Ok(f) => f,
        Err(e) => {
            return Err(e);
        },
    };
    let args = video_invocation(
        input_pattern,
        output,
        fps,
        parsed,
        bitrate,
        crf,
        fade_filter,
        verbose_ffmpeg,
    );
    Ok(args)
}

/// Builds the argument list of a video render for a format already parsed.
pub fn video_invocation(
    input_pattern: &str,
    output: &str,
    fps: u32,
    format: OutputFormat,
    bitrate: Option<&str>,
    crf: Option<u32>,
    fade_filter: Option<&str>,
    verbose_ffmpeg: bool,
) -> (args: Vec<String>)
    requires
        format.is_video(),
    ensures
        texts(args@) == video_args(
            input_pattern@,
            output@,
            fps as nat,
            format,
            optional_text(bitrate),
            crf,
            optional_text(fade_filter),
            verbose_ffmpeg,
        ),
{
    let mut args = framerate_start(fps);
    push_glob_mode(&mut args, input_pattern);
    push_input_and_codec(&mut args, input_pattern, format);
    push_bitrate(&mut args, bitrate);
    push_crf(&mut args, crf);
    push_video_filter(&mut args, fade_filter);
    push_output(&mut args, output);
    push_log_level(&mut args, verbose_ffmpeg);
    args
}

/// Adds the input and how it is encoded.
fn push_input_and_codec(args: &mut Vec<String>, input_pattern: &str, format: OutputFormat)
    requires
        format.is_video(),
    ensures
        texts(final(args)@) == texts(old(args)@) + seq![
            "-i"@,
            input_pattern@,
            "-c:v"@,
            format.codec_text(),
            "-pix_fmt"@,
            format.pixel_format_text(),
            "-auto-alt-ref"@,
            "0"@,
        ],
{
    push_arg(args, "-i");
    push_arg(args, input_pattern);
    push_arg(args, "-c:v");
    match format {
        OutputFormat::Webm => {
            push_arg(args, "libvpx");
            push_arg(args, "-pix_fmt");
            push_arg(args, "yuva420p");
        },
        _ => {
            push_arg(args, "libx264");
            push_arg(args, "-pix_fmt");
            push_arg(args, "yuv420p");
        },
    }
    push_arg(args, "-auto-alt-ref");
    push_arg(args, "0");
}

/// Adds the bitrate, where one is set.
fn push_bitrate(args: &mut Vec<String>, bitrate: Option<&str>)
    ensures
        texts(final(args)@) == texts(old(args)@) + bitrate_args(optional_text(bitrate)),
{
    if let Some(b) = bitrate {
        push_arg(args, "-b:v");
        push_arg(args, b);
    }
}

/// Adds the quality factor, where one is set.
fn push_crf(args: &mut Vec<String>, crf: Option<u32>)
    ensures
        texts(final(args)@) == texts(old(args)@) + crf_args(crf),
{
    if let Some(c) = crf {
        push_arg(args, "-crf");
        push_arg(args, decimal_string(c as u128).as_str());
    }
}

/// Adds the video filter, where the fade fragment is not empty.
fn push_video_filter(args: &mut Vec<String>, fade_filter: Option<&str>)
    ensures
        texts(final(args)@) == texts(old(args)@) + video_filter_args(optional_text(fade_filter)),
{
    if let Some(filter) = fade_filter {
        if !filter.is_empty() {
            push_arg(args, "-vf");
            push_arg(args, filter);
        }
    }
}

/// Adds the overwrite flag and the output path.
fn push_output(args: &mut Vec<String>, output: &str)
    ensures
        texts(final(args)@) == texts(old(args)@) + seq!["-y"@, output@],
{
    push_arg(args, "-y");
    push_arg(args, output);
}

/// The two invocations of the palette pipeline, and the artifact between
/// them.
#[derive(Debug)]
pub struct GifPlan {
    /// Arguments of the pass that writes the palette.
    pub palette_args: Vec<String>,
    /// Arguments of the pass that writes the animated image.
    pub final_args: Vec<String>,
    /// The palette artifact, to be removed once the final pass has ended.
    pub palette_path: String,
}

/// Plans the two passes that render an animated image: the palette is
/// generated from the frames, then applied to them.
pub fn render_gif(
    input_pattern: &str,
    output: &str,
    fps: u32,
    fade_filter: Option<&str>,
    verbose_ffmpeg: bool,
) -> (plan: GifPlan)
    ensures
        texts(plan.palette_args@) == palette_args(input_pattern@, verbose_ffmpeg),
        texts(plan.final_args@) == palette_use_args(
            input_pattern@,
            output@,
            fps as nat,
            optional_text(fade_filter),
            verbose_ffmpeg,
        ),
        plan.palette_path@ == PALETTE_PATH@,
{
    let mut first: Vec<String> = Vec::new();
    push_glob_mode(&mut first, input_pattern);
    push_arg(&mut first, "-i");
    push_arg(&mut first, input_pattern);
    push_arg(&mut first, "-vf");
    push_arg(&mut first, String::from_str(PALETTE_SCALE_FILTER).concat(",palettegen").as_str());
    push_arg(&mut first, "-y");
    push_arg(&mut first, PALETTE_PATH);
    push_log_level(&mut first, verbose_ffmpeg);

    let mut graph = String::from_str(PALETTE_SCALE_FILTER);
    if let Some(filter) = fade_filter {
        if !filter.is_empty() {
            graph.append(",");
            graph.append(filter);
        }
    }
    graph.append(" [x]; [x][1:v] paletteuse");

    let mut second = framerate_start(fps);
    push_glob_mode(&mut second, input_pattern);
    push_arg(&mut second, "-i");
    push_arg(&mut second, input_pattern);
    push_arg(&mut second, "-i");
    push_arg(&mut second, PALETTE_PATH);
    push_arg(&mut second, "-lavfi");
    push_arg(&mut second, graph.as_str());
    push_arg(&mut second, "-y");
    push_arg(&mut second, output);
    push_log_level(&mut second, verbose_ffmpeg);
    GifPlan {
        palette_args: first,
        final_args: second,
        palette_path: String::from_str(PALETTE_PATH),
    }
}

/// The fully resolved encoder work of one render: one invocation for a
/// video, two for an animated image.
#[derive(Debug)]
pub enum RenderJob {
    /// One pass that encodes the video.
    SinglePass { args: Vec<String> },
    /// The palette pass and the pass that applies the palette.
    TwoPass { plan: GifPlan },
}

/// The view of an optional string.
pub open spec fn optional_string_text(o: Option<String>) -> Option<Seq<char>> {
    match o {
        Some(s) => Some(s@),
        None => None,
    }
}

/// Borrows an optional string as an optional slice.
fn as_optional_str(o: &Option<String>) -> (r: Option<&str>)
    ensures
        optional_text(r) == optional_string_text(*o),
{
    match o {
        Some(s) => Some(s.as_str()),
        None => None,
    }
}

/// The pattern by which the encoder reads the frames of `frames_dir`.
pub open spec fn input_pattern_of(config: RenderConfig, frames_dir: Seq<char>) -> Seq<char> {
    frame_path(frames_dir, effective_pattern(config.file_pattern))
}

/// The fade fragment of a request over `frame_count` frames.
pub open spec fn fade_of(config: RenderConfig, frame_count: nat) -> Seq<char> {
    fade_filter_text(
        frame_count,
        config.fps as nat,
        config.fade_in as nat,
        config.fade_out as nat,
    )
}

/// `job` is the work that the request asks for over the frames of
/// `frames_dir`, of which there are `frame_count`.
pub open spec fn is_job_of(
    job: RenderJob,
    config: RenderConfig,
    frames_dir: Seq<char>,
    frame_count: nat,
) -> bool {
    let input = input_pattern_of(config, frames_dir);
    let fade = Some(fade_of(config, frame_count));
    match format_of(config.format@) {
        None => false,
        Some(OutputFormat::Gif) => {
            &&& job matches RenderJob::TwoPass { plan }
            &&& texts(plan.palette_args@) == palette_args(input, config.verbose_ffmpeg)
            &&& texts(plan.final_args@) == palette_use_args(
                input,
                config.output@,
                config.fps as nat,
                fade,
                config.verbose_ffmpeg,
            )
            &&& plan.palette_path@ == PALETTE_PATH@
        },
        Some(format) => {
            &&& job matches RenderJob::SinglePass { args }
            &&& texts(args@) == video_args(
                input,
                config.output@,
                config.fps as nat,
                format,
                optional_string_text(config.bitrate),
                config.crf,
                fade,
                config.verbose_ffmpeg,
            )
        },
    }
}

/// Plans the encoder work of a request.
///
/// The frames are read by the request's pattern within `frames_dir`, and
/// the fades are laid over a clip of `frame_count` frames. A format that is
/// not supported is rejected, and nothing is planned.
pub fn plan_render(config: &RenderConfig, frames_dir: &str, frame_count: usize) -> (r: Result<
    RenderJob,
    RenderError,
>)
    requires
        config.fps > 0,
    ensures
        match r {
            Ok(job) => is_job_of(job, *config, frames_dir@, frame_count as nat),
            Err(RenderError::UnsupportedFormat { format }) => format_of(config.format@) is None
                && format@ == config.format@,
            Err(_) => false,
        },
{
    let format = match OutputFormat::parse(config.format.as_str()) {
        Ok(f) => f,
        Err(e) => {
            return Err(e);
        },
    };
    let pattern = match &config.file_pattern {
        Some(p) => p.as_str(),
        None => DEFAULT_PATTERN,
    };
    let input = join_path(frames_dir, pattern);
    let fade = fade_filter(frame_count, config.fps, config.fade_in, config.fade_out);
    match format {
        OutputFormat::Gif => {
            let plan = render_gif(
                input.as_str(),
                config.output.as_str(),
                config.fps,
                Some(fade.as_str()),
                config.verbose_ffmpeg,
            );
            Ok(RenderJob::TwoPass { plan })
        },
        _ => {
            let args = video_invocation(
                input.as_str(),
                config.output.as_str(),
                config.fps,
                format,
                as_optional_str(&config.bitrate),
                config.crf,
                Some(fade.as_str()),
                config.verbose_ffmpeg,
            );
            Ok(RenderJob::SinglePass { args })
        },
    }
}

} // verus!
