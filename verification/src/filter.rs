//! FFmpeg filter graph string builder.
//!
//! Constructs `-vf` / `-af` filter strings from high-level parameters. Times, rates and
//! loudness targets are counts of millionths (so `2.5` seconds is `2_500_000`).

use vstd::prelude::*;
use crate::text::{
    chars_of, decimal, decimal_i64, decimal_int, decimal_u64, join, join_strings, micros_text,
    micros_to_text, push_all, push_arg, push_arg_chars, push_str, strings_view,
};

verus! {

/// `name=` followed by the rendering of a count of millionths.
pub open spec fn micros_filter(name: Seq<char>, v: i64) -> Seq<char> {
    name + micros_text(v as int)
}

/// The text of a `scale` filter.
pub open spec fn scale_text(width: i32, height: i32) -> Seq<char> {
    "scale="@ + decimal_int(width as int) + ":"@ + decimal_int(height as int)
}

/// The text of a `crop` filter.
pub open spec fn crop_text(w: u32, h: u32, x: u32, y: u32) -> Seq<char> {
    "crop="@ + decimal(w as nat) + ":"@ + decimal(h as nat) + ":"@ + decimal(x as nat) + ":"@
        + decimal(y as nat)
}

/// The text of a centered `pad` filter.
pub open spec fn pad_text(w: u32, h: u32) -> Seq<char> {
    "pad="@ + decimal(w as nat) + ":"@ + decimal(h as nat) + ":(ow-iw)/2:(oh-ih)/2"@
}

/// The text of a frame `select` filter at `t` millionths of a second.
pub open spec fn select_text(t: i64) -> Seq<char> {
    "select='gte(t\\,"@ + micros_text(t as int) + ")'"@
}

/// The filter chain built so far, or `None` when it is empty.
pub open spec fn chain_text(filters: Seq<Seq<char>>) -> Option<Seq<char>> {
    if filters.len() == 0 {
        None
    } else {
        Some(join(filters, ","@))
    }
}

fn chain_of(filters: &Vec<String>) -> (r: Option<String>)
    ensures
        match r {
            Some(s) => chain_text(strings_view(filters@)) == Some(s@),
            None => chain_text(strings_view(filters@)) is None,
        },
{
    if filters.len() == 0 {
        None
    } else {
        Some(join_strings(filters, ","))
    }
}

fn micros_piece(name: &str, v: i64) -> (r: Vec<char>)
    ensures
        r@ == micros_filter(name@, v),
{
    let mut t = chars_of(name);
    push_all(&mut t, &micros_to_text(v));
    t
}

/// Build a video filter chain string for FFmpeg `-vf`.
pub struct VideoFilterChain {
    filters: Vec<String>,
}

impl View for VideoFilterChain {
    type V = Seq<Seq<char>>;

    closed spec fn view(&self) -> Seq<Seq<char>> {
        strings_view(self.filters@)
    }
}

impl Default for VideoFilterChain {
    fn default() -> (r: Self)
        ensures
            r@.len() == 0,
    {
        Self::new()
    }
}

impl VideoFilterChain {
    pub fn new() -> (r: Self)
        ensures
            r@.len() == 0,
    {
        let r = VideoFilterChain { filters: Vec::new() };
        assert(r@ =~= Seq::<Seq<char>>::empty());
        r
    }

    /// Scale to target width/height. Use -1 for auto-scale maintaining aspect ratio.
    pub fn scale(self, width: i32, height: i32) -> (r: Self)
        ensures
            r@ == self@.push(scale_text(width, height)),
    {
        let mut me = self;
        let mut t = chars_of("scale=");
        push_all(&mut t, &decimal_i64(width as i64));
        push_str(&mut t, ":");
        push_all(&mut t, &decimal_i64(height as i64));
        push_arg_chars(&mut me.filters, &t);
        me
    }

    /// Scale with only width specified (height auto-calculated, divisible by 2).
    pub fn scale_width(self, width: u32) -> (r: Self)
        ensures
            r@ == self@.push(scale_text(width as i32, -2i32)),
    {
        self.scale(width as i32, -2)
    }

    /// Scale with only height specified (width auto-calculated, divisible by 2).
    pub fn scale_height(self, height: u32) -> (r: Self)
        ensures
            r@ == self@.push(scale_text(-2i32, height as i32)),
    {
        self.scale(-2, height as i32)
    }

    /// Set frame rate, in millionths of a frame per second.
    pub fn fps(self, fps: i64) -> (r: Self)
        ensures
            r@ == self@.push(micros_filter("fps="@, fps)),
    {
        let mut me = self;
        push_arg_chars(&mut me.filters, &micros_piece("fps=", fps));
        me
    }

    /// Crop to width x height at position (x, y).
    pub fn crop(self, w: u32, h: u32, x: u32, y: u32) -> (r: Self)
        ensures
            r@ == self@.push(crop_text(w, h, x, y)),
    {
        let mut me = self;
        let mut t = chars_of("crop=");
        push_all(&mut t, &decimal_u64(w as u64));
        push_str(&mut t, ":");
        push_all(&mut t, &decimal_u64(h as u64));
        push_str(&mut t, ":");
        push_all(&mut t, &decimal_u64(x as u64));
        push_str(&mut t, ":");
        push_all(&mut t, &decimal_u64(y as u64));
        push_arg_chars(&mut me.filters, &t);
        me
    }

    /// Pad to width x height (centered).
    pub fn pad(self, w: u32, h: u32) -> (r: Self)
        ensures
            r@ == self@.push(pad_text(w, h)),
    {
        let mut me = self;
        let mut t = chars_of("pad=");
        push_all(&mut t, &decimal_u64(w as u64));
        push_str(&mut t, ":");
        push_all(&mut t, &decimal_u64(h as u64));
        push_str(&mut t, ":(ow-iw)/2:(oh-ih)/2");
        push_arg_chars(&mut me.filters, &t);
        me
    }

    /// Set pixel format (e.g. "yuv420p").
    pub fn pixel_format(self, fmt: &str) -> (r: Self)
        ensures
            r@ == self@.push("format="@ + fmt@),
    {
        let mut me = self;
        let mut t = chars_of("format=");
        push_str(&mut t, fmt);
        push_arg_chars(&mut me.filters, &t);
        me
    }

    /// Select a single frame at the given timestamp (millionths of a second).
    pub fn select_frame(self, time: i64) -> (r: Self)
        ensures
            r@ == self@.push(select_text(time)).push("trim=frames=1"@),
    {
        let mut me = self;
        let mut t = chars_of("select='gte(t\\,");
        push_all(&mut t, &micros_to_text(time));
        push_str(&mut t, ")'");
        push_arg_chars(&mut me.filters, &t);
        push_arg(&mut me.filters, "trim=frames=1");
        me
    }

    /// GIF palette generation pass (split -> palettegen).
    pub fn gif_palettegen(self) -> (r: Self)
        ensures
            r@ == self@.push("split[s0][s1];[s0]palettegen[p];[s1][p]paletteuse"@),
    {
        let mut me = self;
        push_arg(&mut me.filters, "split[s0][s1];[s0]palettegen[p];[s1][p]paletteuse");
        me
    }

    /// Add a raw filter string.
    pub fn raw(self, filter: &str) -> (r: Self)
        ensures
            r@ == self@.push(filter@),
    {
        let mut me = self;
        push_arg(&mut me.filters, filter);
        me
    }

    /// Build the filter string (comma-separated), or `None` when no filter was added.
    pub fn build(&self) -> (r: Option<String>)
        ensures
            match r {
                Some(s) => chain_text(self@) == Some(s@),
                None => chain_text(self@) is None,
            },
    {
        chain_of(&self.filters)
    }
}

/// Build an audio filter chain string for FFmpeg `-af`.
pub struct AudioFilterChain {
    filters: Vec<String>,
}

impl View for AudioFilterChain {
    type V = Seq<Seq<char>>;

    closed spec fn view(&self) -> Seq<Seq<char>> {
        strings_view(self.filters@)
    }
}

impl Default for AudioFilterChain {
    fn default() -> (r: Self)
        ensures
            r@.len() == 0,
    {
        Self::new()
    }
}

/// The text of a `loudnorm` filter with custom targets.
pub open spec fn loudnorm_text(i: i64, tp: i64, lra: i64) -> Seq<char> {
    "loudnorm=I="@ + micros_text(i as int) + ":TP="@ + micros_text(tp as int) + ":LRA="@
        + micros_text(lra as int)
}

/// The text of a fade-out filter.
pub open spec fn fade_out_text(start: i64, duration: i64) -> Seq<char> {
    "afade=t=out:st="@ + micros_text(start as int) + ":d="@ + micros_text(duration as int)
}

/// The text of an audio trim filter.
pub open spec fn atrim_text(start: i64, end: i64) -> Seq<char> {
    "atrim=start="@ + micros_text(start as int) + ":end="@ + micros_text(end as int)
}

impl AudioFilterChain {
    pub fn new() -> (r: Self)
        ensures
            r@.len() == 0,
    {
        let r = AudioFilterChain { filters: Vec::new() };
        assert(r@ =~= Seq::<Seq<char>>::empty());
        r
    }

    /// Resample to target sample rate.
    pub fn resample(self, sample_rate: u32) -> (r: Self)
        ensures
            r@ == self@.push("aresample="@ + decimal(sample_rate as nat)),
    {
        let mut me = self;
        let mut t = chars_of("aresample=");
        push_all(&mut t, &decimal_u64(sample_rate as u64));
        push_arg_chars(&mut me.filters, &t);
        me
    }

    /// Set channel layout (e.g. "mono", "stereo").
    pub fn channel_layout(self, layout: &str) -> (r: Self)
        ensures
            r@ == self@.push("aformat=channel_layouts="@ + layout@),
    {
        let mut me = self;
        let mut t = chars_of("aformat=channel_layouts=");
        push_str(&mut t, layout);
        push_arg_chars(&mut me.filters, &t);
        me
    }

    /// Loudness normalization (EBU R128).
    pub fn loudnorm(self) -> (r: Self)
        ensures
            r@ == self@.push("loudnorm"@),
    {
        let mut me = self;
        push_arg(&mut me.filters, "loudnorm");
        me
    }

    /// Loudness normalization with custom targets (millionths of LUFS, dBTP, LU).
    pub fn loudnorm_target(self, target_lufs: i64, target_tp: i64, target_lra: i64) -> (r: Self)
        ensures
            r@ == self@.push(loudnorm_text(target_lufs, target_tp, target_lra)),
    {
        let mut me = self;
        let mut t = chars_of("loudnorm=I=");
        push_all(&mut t, &micros_to_text(target_lufs));
        push_str(&mut t, ":TP=");
        push_all(&mut t, &micros_to_text(target_tp));
        push_str(&mut t, ":LRA=");
        push_all(&mut t, &micros_to_text(target_lra));
        push_arg_chars(&mut me.filters, &t);
        me
    }

    /// Volume adjustment (e.g. "1.5" for 150%, "0.5" for 50%, "3dB").
    pub fn volume(self, vol: &str) -> (r: Self)
        ensures
            r@ == self@.push("volume="@ + vol@),
    {
        let mut me = self;
        let mut t = chars_of("volume=");
        push_str(&mut t, vol);
        push_arg_chars(&mut me.filters, &t);
        me
    }

    /// Fade in over the given duration (millionths of a second).
    pub fn fade_in(self, duration: i64) -> (r: Self)
        ensures
            r@ == self@.push(micros_filter("afade=t=in:d="@, duration)),
    {
        let mut me = self;
        push_arg_chars(&mut me.filters, &micros_piece("afade=t=in:d=", duration));
        me
    }

    /// Fade out starting at `start`, lasting `duration` (millionths of a second).
    pub fn fade_out(self, start: i64, duration: i64) -> (r: Self)
        ensures
            r@ == self@.push(fade_out_text(start, duration)),
    {
        let mut me = self;
        let mut t = chars_of("afade=t=out:st=");
        push_all(&mut t, &micros_to_text(start));
        push_str(&mut t, ":d=");
        push_all(&mut t, &micros_to_text(duration));
        push_arg_chars(&mut me.filters, &t);
        me
    }

    /// Trim audio to a time range (millionths of a second), restarting timestamps.
    pub fn trim(self, start: i64, end: i64) -> (r: Self)
        ensures
            r@ == self@.push(atrim_text(start, end)).push("asetpts=PTS-STARTPTS"@),
    {
        let mut me = self;
        let mut t = chars_of("atrim=start=");
        push_all(&mut t, &micros_to_text(start));
        push_str(&mut t, ":end=");
        push_all(&mut t, &micros_to_text(end));
        push_arg_chars(&mut me.filters, &t);
        push_arg(&mut me.filters, "asetpts=PTS-STARTPTS");
        me
    }

    /// Add a raw filter string.
    pub fn raw(self, filter: &str) -> (r: Self)
        ensures
            r@ == self@.push(filter@),
    {
        let mut me = self;
        push_arg(&mut me.filters, filter);
        me
    }

    /// Build the filter string (comma-separated), or `None` when no filter was added.
    pub fn build(&self) -> (r: Option<String>)
        ensures
            match r {
                Some(s) => chain_text(self@) == Some(s@),
                None => chain_text(self@) is None,
            },
    {
        chain_of(&self.filters)
    }
}

} // verus!
