//! Classification of the encoder's diagnostic text into warnings.
//!
//! Matching is substring detection against a fixed table of trigger phrases,
//! without regard to case: every rule looks at the lowercase form of the
//! text.

use vstd::prelude::*;
use vstd::string::*;
use crate::text::{contains, has_substring, lowercase_of, texts, to_lowercase};

verus! {

/// Fired by "drop".
pub const WARN_FRAME_DROPS: &'static str = "⚠️ FFmpeg reported frame drops.";

/// Fired by "missing".
pub const WARN_MISSING_FRAMES: &'static str = "⚠️ Possible missing or unreadable frame(s).";

/// Fired by "buffer" or "underrun".
pub const WARN_BUFFER_UNDERRUN: &'static str = "⚠️ Buffer underrun or encoding delay detected.";

/// Fired by "deprecated".
pub const WARN_DEPRECATED: &'static str = "⚠️ Deprecated options used in FFmpeg command.";

/// Fired by "high frame rate".
pub const WARN_HIGH_FRAME_RATE: &'static str =
    "⚠️ High frame rate detected, may cause performance issues.";

/// Fired by "invalid frame".
pub const WARN_INVALID_FRAME: &'static str = "⚠️ Invalid frame detected in input.";

/// Fired by "no such file or directory".
pub const WARN_FILE_NOT_FOUND: &'static str = "⚠️ Input file not found or inaccessible.";

/// Fired by "unrecognized option".
pub const WARN_UNRECOGNIZED_OPTION: &'static str = "⚠️ Unrecognized FFmpeg option used.";

/// Fired by "error".
pub const WARN_ERROR: &'static str = "❌ FFmpeg encountered an error.";

/// Fired by "warning".
pub const WARN_WARNING: &'static str = "⚠️ FFmpeg issued a warning.";

/// Fired by "frame rate very high".
pub const WARN_MUXER_FRAME_RATE: &'static str =
    "⚠️ Frame rate very high for a muxer not efficiently supporting it.";

/// Fired by "duration" together with "past".
pub const WARN_PAST_DURATION: &'static str = "⚠️ Past frame duration too large.";

/// The one message of a rule that fires, nothing of one that does not.
pub open spec fn fired(condition: bool, message: Seq<char>) -> Seq<Seq<char>> {
    if condition {
        seq![message]
    } else {
        Seq::empty()
    }
}

/// The warnings for a diagnostic text whose lowercase form is `lower`: each
/// rule of the table fires on its own, in the table's order, and nothing is
/// deduplicated.
pub open spec fn warnings_for(lower: Seq<char>) -> Seq<Seq<char>> {
    fired(has_substring(lower, "drop"@), WARN_FRAME_DROPS@)
        + fired(has_substring(lower, "missing"@), WARN_MISSING_FRAMES@)
        + fired(
        has_substring(lower, "buffer"@) || has_substring(lower, "underrun"@),
        WARN_BUFFER_UNDERRUN@,
    ) + fired(has_substring(lower, "deprecated"@), WARN_DEPRECATED@)
        + fired(has_substring(lower, "high frame rate"@), WARN_HIGH_FRAME_RATE@)
        + fired(has_substring(lower, "invalid frame"@), WARN_INVALID_FRAME@)
        + fired(has_substring(lower, "no such file or directory"@), WARN_FILE_NOT_FOUND@)
        + fired(has_substring(lower, "unrecognized option"@), WARN_UNRECOGNIZED_OPTION@)
        + fired(has_substring(lower, "error"@), WARN_ERROR@)
        + fired(has_substring(lower, "warning"@), WARN_WARNING@)
        + fired(has_substring(lower, "frame rate very high"@), WARN_MUXER_FRAME_RATE@)
        + fired(
        has_substring(lower, "duration"@) && has_substring(lower, "past"@),
        WARN_PAST_DURATION@,
    )
}

/// Adds `message` to `warnings` where `condition` holds.
fn push_fired(warnings: &mut Vec<String>, condition: bool, message: &str)
    ensures
        texts(final(warnings)@) == texts(old(warnings)@) + fired(condition, message@),
{
    if condition {
        warnings.push(String::from_str(message));
    }
}

/// Classifies a diagnostic text whose lowercase form is already at hand.
pub fn scan_lowered(lower: &str) -> (warnings: Vec<String>)
    ensures
        texts(warnings@) == warnings_for(lower@),
{
    let mut warnings: Vec<String> = Vec::new();
    push_fired(&mut warnings, contains(lower, "drop"), WARN_FRAME_DROPS);
    push_fired(&mut warnings, contains(lower, "missing"), WARN_MISSING_FRAMES);
    push_fired(
        &mut warnings,
        contains(lower, "buffer") || contains(lower, "underrun"),
        WARN_BUFFER_UNDERRUN,
    );
    push_fired(&mut warnings, contains(lower, "deprecated"), WARN_DEPRECATED);
    push_fired(&mut warnings, contains(lower, "high frame rate"), WARN_HIGH_FRAME_RATE);
    push_fired(&mut warnings, contains(lower, "invalid frame"), WARN_INVALID_FRAME);
    push_fired(&mut warnings, contains(lower, "no such file or directory"), WARN_FILE_NOT_FOUND);
    push_fired(&mut warnings, contains(lower, "unrecognized option"), WARN_UNRECOGNIZED_OPTION);
    push_fired(&mut warnings, contains(lower, "error"), WARN_ERROR);
    push_fired(&mut warnings, contains(lower, "warning"), WARN_WARNING);
    push_fired(&mut warnings, contains(lower, "frame rate very high"), WARN_MUXER_FRAME_RATE);
    push_fired(
        &mut warnings,
        contains(lower, "duration") && contains(lower, "past"),
        WARN_PAST_DURATION,
    );
    warnings
}

/// Classifies the encoder's diagnostic text. Findings are informational: the
/// result is a list of warnings, never a failure.
pub fn scan_ffmpeg_stderr(stderr: &str) -> (warnings: Vec<String>)
    ensures
        texts(warnings@) == warnings_for(lowercase_of(stderr@)),
{
    let lower = to_lowercase(stderr);
    scan_lowered(lower.as_str())
}

/// What either part of a list holds, the whole list holds.
proof fn lemma_parts_contained(a: Seq<Seq<char>>, b: Seq<Seq<char>>, x: Seq<char>)
    ensures
        a.contains(x) ==> (a + b).contains(x),
        b.contains(x) ==> (a + b).contains(x),
{
    if a.contains(x) {
        let i = choose|i: int| 0 <= i < a.len() && a[i] == x;
        assert((a + b)[i] == x);
    }
    if b.contains(x) {
        let i = choose|i: int| 0 <= i < b.len() && b[i] == x;
        assert((a + b)[a.len() + i] == x);
    }
}

/// A rule that fires leaves its message in the list.
proof fn lemma_fired_contained(message: Seq<char>)
    ensures
        fired(true, message).contains(message),
{
    assert(fired(true, message)[0] == message);
}

/// A diagnostic text whose lowercase form holds "deprecated" yields the
/// warning of deprecated options, and one whose lowercase form holds "drop"
/// yields the warning of frame drops. Each fires on its own, so a text that
/// holds both yields both.
pub proof fn lemma_deprecated_and_drop_fire(lower: Seq<char>)
    ensures
        has_substring(lower, "drop"@) ==> warnings_for(lower).contains(WARN_FRAME_DROPS@),
        has_substring(lower, "deprecated"@) ==> warnings_for(lower).contains(
            WARN_DEPRECATED@,
        ),
{
    let f1 = fired(has_substring(lower, "drop"@), WARN_FRAME_DROPS@);
    let f2 = fired(has_substring(lower, "missing"@), WARN_MISSING_FRAMES@);
    let f3 = fired(
        has_substring(lower, "buffer"@) || has_substring(lower, "underrun"@),
        WARN_BUFFER_UNDERRUN@,
    );
    let f4 = fired(has_substring(lower, "deprecated"@), WARN_DEPRECATED@);
    let f5 = fired(has_substring(lower, "high frame rate"@), WARN_HIGH_FRAME_RATE@);
    let f6 = fired(has_substring(lower, "invalid frame"@), WARN_INVALID_FRAME@);
    let f7 = fired(has_substring(lower, "no such file or directory"@), WARN_FILE_NOT_FOUND@);
    let f8 = fired(has_substring(lower, "unrecognized option"@), WARN_UNRECOGNIZED_OPTION@);
    let f9 = fired(has_substring(lower, "error"@), WARN_ERROR@);
    let f10 = fired(has_substring(lower, "warning"@), WARN_WARNING@);
    let f11 = fired(has_substring(lower, "frame rate very high"@), WARN_MUXER_FRAME_RATE@);
    let f12 = fired(
        has_substring(lower, "duration"@) && has_substring(lower, "past"@),
        WARN_PAST_DURATION@,
    );
    let s3 = f1 + f2 + f3;
    let s4 = s3 + f4;
    lemma_fired_contained(WARN_FRAME_DROPS@);
    lemma_fired_contained(WARN_DEPRECATED@);
    lemma_parts_contained(f1, f2, WARN_FRAME_DROPS@);
    lemma_parts_contained(f1 + f2, f3, WARN_FRAME_DROPS@);
    lemma_parts_contained(s3, f4, WARN_FRAME_DROPS@);
    lemma_parts_contained(s3, f4, WARN_DEPRECATED@);
    lemma_parts_contained(s4, f5, WARN_FRAME_DROPS@);
    lemma_parts_contained(s4, f5, WARN_DEPRECATED@);
    lemma_parts_contained(s4 + f5, f6, WARN_FRAME_DROPS@);
    lemma_parts_contained(s4 + f5, f6, WARN_DEPRECATED@);
    lemma_parts_contained(s4 + f5 + f6, f7, WARN_FRAME_DROPS@);
    lemma_parts_contained(s4 + f5 + f6, f7, WARN_DEPRECATED@);
    lemma_parts_contained(s4 + f5 + f6 + f7, f8, WARN_FRAME_DROPS@);
    lemma_parts_contained(s4 + f5 + f6 + f7, f8, WARN_DEPRECATED@);
    lemma_parts_contained(s4 + f5 + f6 + f7 + f8, f9, WARN_FRAME_DROPS@);
    lemma_parts_contained(s4 + f5 + f6 + f7 + f8, f9, WARN_DEPRECATED@);
    lemma_parts_contained(s4 + f5 + f6 + f7 + f8 + f9, f10, WARN_FRAME_DROPS@);
    lemma_parts_contained(s4 + f5 + f6 + f7 + f8 + f9, f10, WARN_DEPRECATED@);
    lemma_parts_contained(s4 + f5 + f6 + f7 + f8 + f9 + f10, f11, WARN_FRAME_DROPS@);
    lemma_parts_contained(s4 + f5 + f6 + f7 + f8 + f9 + f10, f11, WARN_DEPRECATED@);
    lemma_parts_contained(s4 + f5 + f6 + f7 + f8 + f9 + f10 + f11, f12, WARN_FRAME_DROPS@);
    lemma_parts_contained(s4 + f5 + f6 + f7 + f8 + f9 + f10 + f11, f12, WARN_DEPRECATED@);
}

} // verus!
