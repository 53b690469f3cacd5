//! Fixed-point arithmetic on positions and times.
//!
//! A normalized position is an `i64` counted in millionths, so that
//! `POSITION_ONE` stands for the end of a clip and `0` for its start. Times are
//! `i64` microseconds, the time base that the container layer uses for seeks.
use vstd::prelude::*;

verus! {

/// The normalized position of the end of a clip (1.0).
pub const POSITION_ONE: i64 = 1_000_000;

/// Microseconds in one second.
pub const MICROS_PER_SECOND: i64 = 1_000_000;

/// Width of one cell of the scrub grid that deduplicates hover requests (1%).
pub const SCRUB_GRID_STEP: i64 = 10_000;

/// Width, in pixels, of the frames that hover scrubbing produces.
pub const PREVIEW_WIDTH: u32 = 320;

/// Widest frame, in pixels, that playback produces.
pub const MAX_DISPLAY_WIDTH: u32 = 1280;

/// The interval that playback paces itself to: one thirtieth of a second.
pub const FRAME_INTERVAL_MICROS: u64 = 33_333;

/// How long a paused playback loop waits before it looks at its commands again.
pub const IDLE_WAIT_MICROS: u64 = 16_000;

/// A position clamped to `[0, POSITION_ONE]`.
pub open spec fn clamped(position: int) -> int {
    if position < 0 {
        0
    } else if position > POSITION_ONE {
        POSITION_ONE as int
    } else {
        position
    }
}

/// The absolute time that a normalized position stands for in a clip of the
/// given duration, rounded down to a whole microsecond.
pub open spec fn target_time(duration: int, position: int) -> int {
    duration * clamped(position) / (POSITION_ONE as int)
}

/// The scrub-grid cell of a position: the position in hundredths, rounded to
/// the nearest whole, halves away from zero.
pub open spec fn grid_cell(position: int) -> int {
    if position >= 0 {
        (position + SCRUB_GRID_STEP / 2) / (SCRUB_GRID_STEP as int)
    } else {
        -((-position + SCRUB_GRID_STEP / 2) / (SCRUB_GRID_STEP as int))
    }
}

/// Clamps a normalized position to `[0, POSITION_ONE]`.
pub fn clamp_position(position: i64) -> (r: i64)
    ensures
        r == clamped(position as int),
        0 <= r <= POSITION_ONE,
{
    if position < 0 {
        0
    } else if position > POSITION_ONE {
        POSITION_ONE
    } else {
        position
    }
}

/// The absolute time, in microseconds, of a normalized position in a clip
/// whose duration is `duration` microseconds. Positions outside `[0, 1]` are
/// clamped first.
pub fn seek_target_micros(duration: i64, position: i64) -> (r: i64)
    requires
        duration >= 0,
    ensures
        r == target_time(duration as int, position as int),
        0 <= r <= duration,
{
    let p = clamp_position(position);
    assert(0 <= (duration as int) * (p as int) <= (duration as int) * 1_000_000) by (nonlinear_arith)
        requires
            0 <= duration,
            0 <= p <= 1_000_000,
    ;
    let product: i128 = (duration as i128) * (p as i128);
    let q: i128 = product / (POSITION_ONE as i128);
    proof {
        assert(0 <= product <= (duration as int) * (POSITION_ONE as int)) by (nonlinear_arith)
            requires
                0 <= duration,
                0 <= p <= POSITION_ONE,
                product == (duration as int) * (p as int),
        ;
        assert(q <= duration) by (nonlinear_arith)
            requires
                0 <= product <= (duration as int) * 1_000_000,
                q == product / 1_000_000,
        ;
        assert(0 <= q) by (nonlinear_arith)
            requires
                0 <= product,
                q == product / 1_000_000,
        ;
    }
    q as i64
}

/// The scrub-grid cell (hundredths, rounded to nearest) of a position.
pub fn scrub_grid_cell(position: i64) -> (r: i64)
    ensures
        r == grid_cell(position as int),
{
    let p: i128 = position as i128;
    let half: i128 = (SCRUB_GRID_STEP / 2) as i128;
    let step: i128 = SCRUB_GRID_STEP as i128;
    if p >= 0 {
        let q: i128 = (p + half) / step;
        assert(0 <= q <= p) by (nonlinear_arith)
            requires
                0 <= p,
                q == (p + 5000) / 10000,
        ;
        q as i64
    } else {
        let q: i128 = (-p + half) / step;
        assert(0 <= q <= -p / 2) by (nonlinear_arith)
            requires
                p < 0,
                q == (-p + 5000) / 10000,
        ;
        (-q) as i64
    }
}

/// Height, aspect preserved, of a frame scaled from `width` x `height` to
/// `target_width` columns, rounded down.
pub open spec fn scaled_height(width: int, height: int, target_width: int) -> int {
    height * target_width / width
}

/// Preview size of a `width` x `height` video: `PREVIEW_WIDTH` columns and
/// the height that keeps the aspect ratio. `None` for a video without
/// columns, or one so tall that the preview height overflows a `u32`.
pub fn preview_dimensions(width: u32, height: u32) -> (r: Option<(u32, u32)>)
    ensures
        r is Some <==> width > 0 && scaled_height(width as int, height as int, PREVIEW_WIDTH as int)
            <= u32::MAX,
        r matches Some((w, h)) ==> w == PREVIEW_WIDTH && h == scaled_height(
            width as int,
            height as int,
            PREVIEW_WIDTH as int,
        ),
{
    if width == 0 {
        return None;
    }
    let h: u64 = (height as u64) * (PREVIEW_WIDTH as u64) / (width as u64);
    if h > u32::MAX as u64 {
        None
    } else {
        Some((PREVIEW_WIDTH, h as u32))
    }
}

/// Display size of a `width` x `height` video during playback: at most
/// `MAX_DISPLAY_WIDTH` columns, aspect preserved. `None` for a video without
/// columns.
pub fn display_dimensions(width: u32, height: u32) -> (r: Option<(u32, u32)>)
    ensures
        r is Some <==> width > 0,
        r matches Some((w, h)) ==> w == (if width <= MAX_DISPLAY_WIDTH {
            width
        } else {
            MAX_DISPLAY_WIDTH
        }) && h == scaled_height(width as int, height as int, w as int),
{
    if width == 0 {
        return None;
    }
    let w: u32 = if width <= MAX_DISPLAY_WIDTH {
        width
    } else {
        MAX_DISPLAY_WIDTH
    };
    assert((height as int) * (w as int) <= 0xffff_ffff * 0xffff_ffff) by (nonlinear_arith)
        requires
            height <= 0xffff_ffff,
            w <= 0xffff_ffff,
    ;
    let h: u64 = (height as u64) * (w as u64) / (width as u64);
    assert(h <= height) by (nonlinear_arith)
        requires
            0 < width,
            w <= width,
            h == (height as int) * (w as int) / (width as int),
    ;
    Some((w, h as u32))
}

/// An integer limited to the range of `i64`.
pub open spec fn saturate_i64(v: int) -> int {
    if v > i64::MAX {
        i64::MAX as int
    } else if v < i64::MIN {
        i64::MIN as int
    } else {
        v
    }
}

/// `ticks` of a time base `num / den` seconds, in microseconds, rounded
/// toward zero; zero for a time base that is not positive.
pub open spec fn ticks_to_micros(ticks: int, num: int, den: int) -> int {
    if num <= 0 || den <= 0 {
        0
    } else if ticks >= 0 {
        saturate_i64(ticks * num * MICROS_PER_SECOND / den)
    } else {
        saturate_i64(-((-ticks) * num * MICROS_PER_SECOND / den))
    }
}

/// The duration of a clip in microseconds: the container's own duration
/// when it reports one, else the stream's duration in its time base, else
/// zero.
pub open spec fn media_duration(container: int, stream: int, num: int, den: int) -> int {
    if container > 0 {
        container
    } else if stream > 0 {
        ticks_to_micros(stream, num, den)
    } else {
        0
    }
}

/// Converts `ticks` of the time base `num / den` seconds to microseconds.
pub fn ticks_as_micros(ticks: i64, num: i32, den: i32) -> (r: i64)
    ensures
        r == ticks_to_micros(ticks as int, num as int, den as int),
{
    if num <= 0 || den <= 0 {
        return 0;
    }
    let magnitude: i128 = if ticks >= 0 {
        ticks as i128
    } else {
        -(ticks as i128)
    };
    assert(0 <= magnitude * (num as int) <= 0x8000_0000_0000_0000 * 0x8000_0000) by (nonlinear_arith)
        requires
            0 <= magnitude <= 0x8000_0000_0000_0000,
            0 < num <= 0x7fff_ffff,
    ;
    let scaled_num: i128 = magnitude * (num as i128);
    assert(0 <= scaled_num * 1_000_000 <= 0x8000_0000_0000_0000 * 0x8000_0000 * 1_000_000)
        by (nonlinear_arith)
        requires
            0 <= scaled_num <= 0x8000_0000_0000_0000 * 0x8000_0000,
    ;
    let scaled: i128 = scaled_num * (MICROS_PER_SECOND as i128);
    let q: i128 = scaled / (den as i128);
    assert(0 <= q <= scaled) by (nonlinear_arith)
        requires
            0 <= scaled,
            0 < den,
            q == (scaled as int) / (den as int),
    ;
    let signed: i128 = if ticks >= 0 {
        q
    } else {
        -q
    };
    if signed > i64::MAX as i128 {
        i64::MAX
    } else if signed < i64::MIN as i128 {
        i64::MIN
    } else {
        signed as i64
    }
}

/// The duration of a clip in microseconds: the container's duration
/// (already in microseconds) when positive, else the stream's duration in
/// its time base `num / den`, else zero. Never negative.
pub fn media_duration_micros(container: i64, stream: i64, num: i32, den: i32) -> (r: i64)
    ensures
        r == media_duration(container as int, stream as int, num as int, den as int),
        r >= 0,
{
    if container > 0 {
        container
    } else if stream > 0 {
        ticks_as_micros(stream, num, den)
    } else {
        0
    }
}

/// How long playback waits before decoding its next frame, when `elapsed`
/// microseconds have passed since the previous one.
pub fn pacing_delay_micros(elapsed: u64) -> (r: u64)
    ensures
        r == if elapsed < FRAME_INTERVAL_MICROS {
            FRAME_INTERVAL_MICROS - elapsed
        } else {
            0
        },
        elapsed + r >= FRAME_INTERVAL_MICROS,
{
    if elapsed < FRAME_INTERVAL_MICROS {
        FRAME_INTERVAL_MICROS - elapsed
    } else {
        0
    }
}

/// The normalized position of `time` in a clip of `duration` microseconds:
/// the time is first limited to `[0, duration]`, so the result lies in
/// `[0, POSITION_ONE]`; zero for a clip without duration.
pub open spec fn position_of(time: int, duration: int) -> int {
    if duration <= 0 {
        0
    } else {
        let t = if time < 0 {
            0
        } else if time > duration {
            duration
        } else {
            time
        };
        t * POSITION_ONE / duration
    }
}

/// Computes `position_of(time, duration)`.
pub fn position_at(time: i64, duration: i64) -> (r: i64)
    ensures
        r == position_of(time as int, duration as int),
        0 <= r <= POSITION_ONE,
{
    if duration <= 0 {
        return 0;
    }
    let t: i64 = if time < 0 {
        0
    } else if time > duration {
        duration
    } else {
        time
    };
    assert(0 <= (t as int) * 1_000_000 <= (duration as int) * 1_000_000) by (nonlinear_arith)
        requires
            0 <= t <= duration,
    ;
    let scaled: i128 = (t as i128) * (POSITION_ONE as i128);
    let q: i128 = scaled / (duration as i128);
    assert(0 <= q <= 1_000_000) by (nonlinear_arith)
        requires
            0 <= t <= duration,
            0 < duration,
            scaled == (t as int) * 1_000_000,
            q == (scaled as int) / (duration as int),
    ;
    q as i64
}

/// Seeking is insensitive to positions outside `[0, 1]`: a position below
/// zero seeks where zero does, and one above one seeks where one does.
pub proof fn lemma_seek_clamps(duration: int, position: int)
    requires
        duration >= 0,
    ensures
        position < 0 ==> target_time(duration, position) == target_time(duration, 0),
        position > POSITION_ONE ==> target_time(duration, position) == target_time(
            duration,
            POSITION_ONE as int,
        ),
        target_time(duration, clamped(position)) == target_time(duration, position),
{
}

} // verus!
