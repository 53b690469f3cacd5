//! Rules of the library scan: which directory entries are visited, which
//! files count as videos, and how previews are laid out.
use vstd::prelude::*;
use crate::text::{decimal, decimal_text};

verus! {

/// The lower-case form of a text, as Unicode defines it.
pub uninterp spec fn lower_of(s: Seq<char>) -> Seq<char>;

/// Relies on `str::to_lowercase`: the lower-case form depends on the
/// characters alone.
#[verifier::external_body]
pub(crate) fn lowercase(s: &str) -> (r: String)
    ensures
        r@ == lower_of(s@),
{
    s.to_lowercase()
}

/// Whether `s` ends with `suffix`.
pub open spec fn ends_with(s: Seq<char>, suffix: Seq<char>) -> bool {
    suffix.len() <= s.len() && s.subrange(s.len() - suffix.len(), s.len() as int) == suffix
}

/// Whether a lower-cased file name carries one of the video extensions.
pub open spec fn has_video_extension(lowered: Seq<char>) -> bool {
    ||| ends_with(lowered, ".mov"@)
    ||| ends_with(lowered, ".mp4"@)
    ||| ends_with(lowered, ".m4v"@)
    ||| ends_with(lowered, ".avi"@)
    ||| ends_with(lowered, ".mkv"@)
    ||| ends_with(lowered, ".webm"@)
}

/// Whether a directory name is one of those that never hold the user's
/// videos.
pub open spec fn is_skipped_dir(name: Seq<char>) -> bool {
    ||| name == "node_modules"@
    ||| name == "__MACOSX"@
    ||| name == ".Trash"@
    ||| name == ".Spotlight-V100"@
    ||| name == ".fseventsd"@
    ||| name == ".vcb-data"@
}

/// Whether the scan visits an entry: hidden entries are skipped, and so are
/// the known non-video directories.
pub open spec fn visits(name: Seq<char>, is_dir: bool) -> bool {
    &&& !(name.len() > 0 && name[0] == '.')
    &&& !(is_dir && is_skipped_dir(name))
}

/// Whether `s` ends with `suffix`.
pub fn ends_with_text(s: &str, suffix: &str) -> (r: bool)
    ensures
        r == ends_with(s@, suffix@),
{
    let n = s.unicode_len();
    let m = suffix.unicode_len();
    if m > n {
        return false;
    }
    let offset = n - m;
    let mut i: usize = 0;
    while i < m
        invariant
            0 <= i <= m,
            m <= n,
            n == s@.len(),
            m == suffix@.len(),
            offset == n - m,
            forall|k: int| 0 <= k < i ==> s@[offset + k] == suffix@[k],
        decreases m - i,
    {
        if s.get_char(offset + i) != suffix.get_char(i) {
            assert(s@.subrange(offset as int, n as int)[i as int] != suffix@[i as int]);
            return false;
        }
        i = i + 1;
    }
    assert(s@.subrange(offset as int, n as int) =~= suffix@);
    true
}

/// Whether two texts are equal.
pub fn same_text(a: &str, b: &str) -> (r: bool)
    ensures
        r == (a@ == b@),
{
    let n = a.unicode_len();
    if n != b.unicode_len() {
        return false;
    }
    let mut i: usize = 0;
    while i < n
        invariant
            0 <= i <= n,
            n == a@.len(),
            n == b@.len(),
            forall|k: int| 0 <= k < i ==> a@[k] == b@[k],
        decreases n - i,
    {
        if a.get_char(i) != b.get_char(i) {
            return false;
        }
        i = i + 1;
    }
    assert(a@ =~= b@);
    true
}

/// Whether a file name, already lower-cased, carries a video extension.
pub fn is_video_extension(lowered: &str) -> (r: bool)
    ensures
        r == has_video_extension(lowered@),
{
    ends_with_text(lowered, ".mov") || ends_with_text(lowered, ".mp4") || ends_with_text(
        lowered,
        ".m4v",
    ) || ends_with_text(lowered, ".avi") || ends_with_text(lowered, ".mkv") || ends_with_text(
        lowered,
        ".webm",
    )
}

/// Whether a file name carries a video extension, in any letter case.
pub fn is_video_file_name(name: &str) -> (r: bool)
    ensures
        r == has_video_extension(lower_of(name@)),
{
    let lowered = lowercase(name);
    is_video_extension(lowered.as_str())
}

/// Whether the scan visits a directory entry named `name`.
pub fn visits_entry(name: &str, is_dir: bool) -> (r: bool)
    ensures
        r == visits(name@, is_dir),
{
    if name.unicode_len() > 0 && name.get_char(0) == '.' {
        return false;
    }
    if !is_dir {
        return true;
    }
    let skipped = same_text(name, "node_modules") || same_text(name, "__MACOSX") || same_text(
        name,
        ".Trash",
    ) || same_text(name, ".Spotlight-V100") || same_text(name, ".fseventsd") || same_text(
        name,
        ".vcb-data",
    );
    !skipped
}

/// How a sprite sheet samples a clip: one tile every `seconds_per_tile`
/// seconds, laid out in `columns` x `rows`.
#[derive(Debug, Clone, Copy, PartialEq, Eq, Structural)]
pub struct SpriteLayout {
    pub seconds_per_tile: u32,
    pub columns: u32,
    pub rows: u32,
}

/// Whole seconds of a duration in microseconds, rounded up; zero for a
/// negative duration.
pub open spec fn ceil_seconds(micros: int) -> int {
    if micros <= 0 {
        0
    } else {
        (micros + 999_999) / 1_000_000
    }
}

/// The sprite layout of a clip of `micros` microseconds: clips up to a
/// minute get a tile a second, ten columns and one row per ten seconds
/// (one to six); up to five minutes, a tile every 3 s in 10 x 10; up to half
/// an hour, every 12 s in 15 x 10; longer ones, every 30 s in 20 x 10.
pub open spec fn sprite_layout_of(micros: int) -> SpriteLayout {
    if micros <= 60_000_000 {
        let r = ceil_seconds(micros) / 10;
        SpriteLayout {
            seconds_per_tile: 1,
            columns: 10,
            rows: (if r < 1 {
                1
            } else if r > 6 {
                6
            } else {
                r
            }) as u32,
        }
    } else if micros <= 300_000_000 {
        SpriteLayout { seconds_per_tile: 3, columns: 10, rows: 10 }
    } else if micros <= 1_800_000_000 {
        SpriteLayout { seconds_per_tile: 12, columns: 15, rows: 10 }
    } else {
        SpriteLayout { seconds_per_tile: 30, columns: 20, rows: 10 }
    }
}

/// Chooses the sprite layout of a clip of `micros` microseconds.
pub fn sprite_layout(micros: i64) -> (r: SpriteLayout)
    ensures
        r == sprite_layout_of(micros as int),
{
    if micros <= 60_000_000 {
        let secs: i64 = if micros <= 0 {
            0
        } else {
            (micros + 999_999) / 1_000_000
        };
        let r = secs / 10;
        let rows: u32 = if r < 1 {
            1
        } else if r > 6 {
            6
        } else {
            r as u32
        };
        SpriteLayout { seconds_per_tile: 1, columns: 10, rows }
    } else if micros <= 300_000_000 {
        SpriteLayout { seconds_per_tile: 3, columns: 10, rows: 10 }
    } else if micros <= 1_800_000_000 {
        SpriteLayout { seconds_per_tile: 12, columns: 15, rows: 10 }
    } else {
        SpriteLayout { seconds_per_tile: 30, columns: 20, rows: 10 }
    }
}

/// The filter graph that renders a sprite sheet: sample, scale each tile
/// into 160 x 90 with letterboxing, then tile.
pub open spec fn sprite_filter_text(layout: SpriteLayout) -> Seq<char> {
    (if layout.seconds_per_tile == 1 {
        "fps=1"@
    } else {
        "fps=1/"@ + decimal(layout.seconds_per_tile as nat)
    }) + ",scale=160:90:force_original_aspect_ratio=decrease,pad=160:90:(ow-iw)/2:(oh-ih)/2,tile="@
        + decimal(layout.columns as nat) + "x"@ + decimal(layout.rows as nat)
}

/// Writes the filter graph of a sprite layout.
pub fn sprite_filter(layout: SpriteLayout) -> (r: String)
    ensures
        r@ == sprite_filter_text(layout),
{
    let mut s = if layout.seconds_per_tile == 1 {
        String::from_str("fps=1")
    } else {
        let mut f = String::from_str("fps=1/");
        let n = decimal_text(layout.seconds_per_tile as u64);
        f.append(n.as_str());
        f
    };
    s.append(",scale=160:90:force_original_aspect_ratio=decrease,pad=160:90:(ow-iw)/2:(oh-ih)/2,tile=");
    let c = decimal_text(layout.columns as u64);
    s.append(c.as_str());
    s.append("x");
    let r = decimal_text(layout.rows as u64);
    s.append(r.as_str());
    s
}

/// Where a thumbnail is taken: a tenth of the way in, at most five seconds;
/// the start for a clip without duration.
pub open spec fn thumbnail_time_of(micros: int) -> int {
    if micros <= 0 {
        0
    } else if micros / 10 > 5_000_000 {
        5_000_000
    } else {
        micros / 10
    }
}

/// Chooses the time, in microseconds, of a clip's thumbnail.
pub fn thumbnail_time(micros: i64) -> (r: i64)
    ensures
        r == thumbnail_time_of(micros as int),
        0 <= r <= 5_000_000,
{
    if micros <= 0 {
        0
    } else if micros / 10 > 5_000_000 {
        5_000_000
    } else {
        micros / 10
    }
}

} // verus!
