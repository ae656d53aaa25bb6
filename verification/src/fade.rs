//! The filter planner: clip duration, fade windows and the filter-chain
//! fragment that implements them.
//!
//! Times are whole microseconds. A clip of `frame_count` frames at `fps`
//! frames per second lasts `frame_count * 1_000_000 / fps` of them, rounded
//! down.

use vstd::prelude::*;
use vstd::string::*;
use crate::text::{decimal, decimal_string, digit_char, digit_str};

verus! {

/// Microseconds in one second.
pub const MICROS_PER_SECOND: u128 = 1_000_000;

/// The duration of a clip, in microseconds.
pub open spec fn clip_duration(frame_count: nat, fps: nat) -> nat
    recommends
        fps > 0,
{
    frame_count * 1_000_000 / fps
}

/// When the fade-out begins: `fade_out` before the end of the clip, and at
/// the very start where the fade is longer than the clip.
pub open spec fn fade_out_start(duration: nat, fade_out: nat) -> nat {
    if duration > fade_out {
        (duration - fade_out) as nat
    } else {
        0
    }
}

/// The digits behind the decimal point for `frac` units of which ten times
/// `unit` make a whole, without trailing zeros.
pub open spec fn fraction_digits(frac: nat, unit: nat) -> Seq<char>
    decreases unit,
{
    if frac == 0 || unit == 0 {
        Seq::empty()
    } else {
        seq![digit_char(frac / unit)] + fraction_digits(frac % unit, unit / 10)
    }
}

/// A time in seconds as the encoder reads it: the whole seconds, then, where
/// the time is not a whole number of them, a point and up to six digits.
pub open spec fn seconds_text(micros: nat) -> Seq<char> {
    if micros % 1_000_000 == 0 {
        decimal(micros / 1_000_000)
    } else {
        decimal(micros / 1_000_000) + seq!['.'] + fraction_digits(micros % 1_000_000, 100_000)
    }
}

/// The fade-in clause: from time 0, for `fade_in`.
pub open spec fn fade_in_clause(fade_in: nat) -> Seq<char> {
    "fade=t=in:st=0:d="@ + seconds_text(fade_in)
}

/// The fade-out clause: from `start`, for `fade_out`.
pub open spec fn fade_out_clause(start: nat, fade_out: nat) -> Seq<char> {
    "fade=t=out:st="@ + seconds_text(start) + ":d="@ + seconds_text(fade_out)
}

/// The filter-chain fragment for the requested fades. A fade of zero length
/// leaves no clause, and with both at zero the fragment is empty; two clauses
/// are separated by a comma.
pub open spec fn fade_filter_text(frame_count: nat, fps: nat, fade_in: nat, fade_out: nat) -> Seq<
    char,
>
    recommends
        fps > 0,
{
    let start = fade_out_start(clip_duration(frame_count, fps), fade_out);
    if fade_in > 0 && fade_out > 0 {
        fade_in_clause(fade_in) + ","@ + fade_out_clause(start, fade_out)
    } else if fade_in > 0 {
        fade_in_clause(fade_in)
    } else if fade_out > 0 {
        fade_out_clause(start, fade_out)
    } else {
        Seq::empty()
    }
}

/// The timing of one render: how long the clip lasts and where its fades lie.
#[derive(Debug, Clone, Copy, PartialEq, Eq)]
pub struct FadeWindow {
    /// Length of the clip, in microseconds.
    pub duration: u128,
    /// Length of the fade-in, in microseconds.
    pub fade_in: u64,
    /// Length of the fade-out, in microseconds.
    pub fade_out: u64,
    /// Start of the fade-out, in microseconds from the start of the clip.
    pub fade_out_start: u128,
}

impl FadeWindow {
    /// The window is the one of a clip of `frame_count` frames at `fps` with
    /// these fades.
    pub open spec fn is_window_of(
        self,
        frame_count: nat,
        fps: nat,
        fade_in: nat,
        fade_out: nat,
    ) -> bool {
        &&& self.duration == clip_duration(frame_count, fps)
        &&& self.fade_in == fade_in
        &&& self.fade_out == fade_out
        &&& self.fade_out_start == fade_out_start(clip_duration(frame_count, fps), fade_out)
    }

    /// Computes the fade window of a clip.
    pub fn new(frame_count: usize, fps: u32, fade_in: u64, fade_out: u64) -> (w: FadeWindow)
        requires
            fps > 0,
        ensures
            w.is_window_of(frame_count as nat, fps as nat, fade_in as nat, fade_out as nat),
    {
        let scaled: u128 = (frame_count as u128) * MICROS_PER_SECOND;
        let duration: u128 = scaled / (fps as u128);
        let start: u128 = if duration > fade_out as u128 {
            duration - fade_out as u128
        } else {
            0
        };
        FadeWindow { duration, fade_in, fade_out, fade_out_start: start }
    }

    /// The filter-chain fragment of this window.
    pub fn filter(&self) -> (r: String)
        ensures
            r@ == if self.fade_in > 0 && self.fade_out > 0 {
                fade_in_clause(self.fade_in as nat) + ","@ + fade_out_clause(
                    self.fade_out_start as nat,
                    self.fade_out as nat,
                )
            } else if self.fade_in > 0 {
                fade_in_clause(self.fade_in as nat)
            } else if self.fade_out > 0 {
                fade_out_clause(self.fade_out_start as nat, self.fade_out as nat)
            } else {
                Seq::empty()
            },
    {
        let mut filter = String::new();
        if self.fade_in > 0 {
            filter.append("fade=t=in:st=0:d=");
            filter.append(seconds_string(self.fade_in as u128).as_str());
        }
        if self.fade_out > 0 {
            if self.fade_in > 0 {
                filter.append(",");
            }
            filter.append("fade=t=out:st=");
            filter.append(seconds_string(self.fade_out_start).as_str());
            filter.append(":d=");
            filter.append(seconds_string(self.fade_out as u128).as_str());
        }
        filter
    }
}

/// Writes a time in seconds as the encoder reads it.
pub fn seconds_string(micros: u128) -> (r: String)
    ensures
        r@ == seconds_text(micros as nat),
{
    let whole: u128 = micros / MICROS_PER_SECOND;
    let mut frac: u128 = micros % MICROS_PER_SECOND;
    let mut text = decimal_string(whole);
    if frac > 0 {
        proof {
            reveal_strlit(".");
        }
        text.append(".");
        let mut unit: u128 = 100_000;
        while frac > 0 && unit > 0
            invariant
                frac == 0 || frac < unit * 10,
                unit == 100_000 || unit == 10_000 || unit == 1_000 || unit == 100 || unit == 10
                    || unit == 1 || unit == 0,
                text@ + fraction_digits(frac as nat, unit as nat) == seconds_text(micros as nat),
            decreases unit,
        {
            let digit: u128 = frac / unit;
            assert(digit < 10) by (nonlinear_arith)
                requires
                    digit == frac / unit,
                    frac < unit * 10,
                    unit > 0,
            ;
            text.append(digit_str(digit));
            frac = frac % unit;
            unit = unit / 10;
        }
    }
    text
}

/// Plans the fade fragment for a clip of `frame_count` frames.
pub fn fade_filter(frame_count: usize, fps: u32, fade_in: u64, fade_out: u64) -> (r: String)
    requires
        fps > 0,
    ensures
        r@ == fade_filter_text(frame_count as nat, fps as nat, fade_in as nat, fade_out as nat),
{
    FadeWindow::new(frame_count, fps, fade_in, fade_out).filter()
}

/// The fade-out never starts before the clip does, and where the fade is at
/// least as long as the clip it starts with it.
pub proof fn lemma_fade_out_start_clamped(frame_count: nat, fps: nat, fade_out: nat)
    requires
        fps > 0,
    ensures
        fade_out_start(clip_duration(frame_count, fps), fade_out) >= 0,
        fade_out >= clip_duration(frame_count, fps) ==> fade_out_start(
            clip_duration(frame_count, fps),
            fade_out,
        ) == 0,
        fade_out < clip_duration(frame_count, fps) ==> fade_out_start(
            clip_duration(frame_count, fps),
            fade_out,
        ) + fade_out == clip_duration(frame_count, fps),
{
}

} // verus!
