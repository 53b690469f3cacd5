//! The catalog's view state and the texts it shows: durations, file sizes,
//! and the identifiers of videos.
use vstd::prelude::*;
use crate::scanner::same_text;
use crate::text::{append_two_digits, decimal, decimal_text, digit_char, digit_text, hex, hex_text, two_digits};

verus! {

/// What the main window shows.
#[derive(Debug, Clone, PartialEq)]
pub enum AppState {
    /// No directory selected.
    SelectDirectory,
    /// A scan is running.
    Scanning,
    /// The video grid.
    Browsing,
    /// A failure, with its message.
    Error(String),
}

/// Order of the video grid.
#[derive(Debug, Clone, Copy, PartialEq, Eq, Structural)]
pub enum SortOption {
    DateNewest,
    DateOldest,
    DurationLongest,
    DurationShortest,
    NameAZ,
    NameZA,
}

impl Default for SortOption {
    fn default() -> (r: SortOption)
        ensures
            r == SortOption::DateNewest,
    {
        SortOption::DateNewest
    }
}

/// Which videos the grid shows.
#[derive(Debug, Clone, Copy, PartialEq, Eq, Structural)]
pub enum ViewMode {
    AllVideos,
    Favorites,
}

impl Default for ViewMode {
    fn default() -> (r: ViewMode)
        ensures
            r == ViewMode::AllVideos,
    {
        ViewMode::AllVideos
    }
}

/// The name under which a sort option is stored in the settings.
pub open spec fn sort_name(s: SortOption) -> Seq<char> {
    match s {
        SortOption::DateNewest => "DateNewest"@,
        SortOption::DateOldest => "DateOldest"@,
        SortOption::DurationLongest => "DurationLongest"@,
        SortOption::DurationShortest => "DurationShortest"@,
        SortOption::NameAZ => "NameAZ"@,
        SortOption::NameZA => "NameZA"@,
    }
}

/// The name under which a view mode is stored in the settings.
pub open spec fn view_name(v: ViewMode) -> Seq<char> {
    match v {
        ViewMode::AllVideos => "AllVideos"@,
        ViewMode::Favorites => "Favorites"@,
    }
}

impl SortOption {
    /// The name under which this option is stored.
    pub fn name(&self) -> (r: &'static str)
        ensures
            r@ == sort_name(*self),
    {
        match self {
            SortOption::DateNewest => "DateNewest",
            SortOption::DateOldest => "DateOldest",
            SortOption::DurationLongest => "DurationLongest",
            SortOption::DurationShortest => "DurationShortest",
            SortOption::NameAZ => "NameAZ",
            SortOption::NameZA => "NameZA",
        }
    }

    /// The option stored under `name`, if any.
    pub fn from_name(name: &str) -> (r: Option<SortOption>)
        ensures
            r matches Some(s) ==> name@ == sort_name(s),
            r is None ==> forall|s: SortOption| name@ != #[trigger] sort_name(s),
    {
        if same_text(name, "DateNewest") {
            Some(SortOption::DateNewest)
        } else if same_text(name, "DateOldest") {
            Some(SortOption::DateOldest)
        } else if same_text(name, "DurationLongest") {
            Some(SortOption::DurationLongest)
        } else if same_text(name, "DurationShortest") {
            Some(SortOption::DurationShortest)
        } else if same_text(name, "NameAZ") {
            Some(SortOption::NameAZ)
        } else if same_text(name, "NameZA") {
            Some(SortOption::NameZA)
        } else {
            None
        }
    }
}

impl ViewMode {
    /// The name under which this mode is stored.
    pub fn name(&self) -> (r: &'static str)
        ensures
            r@ == view_name(*self),
    {
        match self {
            ViewMode::AllVideos => "AllVideos",
            ViewMode::Favorites => "Favorites",
        }
    }

    /// The mode stored under `name`, if any.
    pub fn from_name(name: &str) -> (r: Option<ViewMode>)
        ensures
            r matches Some(v) ==> name@ == view_name(v),
            r is None ==> forall|v: ViewMode| name@ != #[trigger] view_name(v),
    {
        if same_text(name, "AllVideos") {
            Some(ViewMode::AllVideos)
        } else if same_text(name, "Favorites") {
            Some(ViewMode::Favorites)
        } else {
            None
        }
    }
}

/// Stored names tell the options apart, so a stored option reads back as
/// itself.
pub proof fn lemma_sort_names_distinct(a: SortOption, b: SortOption)
    ensures
        sort_name(a) == sort_name(b) ==> a == b,
{
    reveal_strlit("DateNewest");
    reveal_strlit("DateOldest");
    reveal_strlit("DurationLongest");
    reveal_strlit("DurationShortest");
    reveal_strlit("NameAZ");
    reveal_strlit("NameZA");
    if sort_name(a) == sort_name(b) && a != b {
        let (x, y) = (sort_name(a), sort_name(b));
        assert(x.len() == y.len());
        assert(x[0] == y[0]);
        assert(x[x.len() - 1] == y[y.len() - 1]);
        assert(x[4] == y[4]);
    }
}

/// Stored names tell the view modes apart, so a stored mode reads back as
/// itself.
pub proof fn lemma_view_names_distinct(a: ViewMode, b: ViewMode)
    ensures
        view_name(a) == view_name(b) ==> a == b,
{
    reveal_strlit("AllVideos");
    reveal_strlit("Favorites");
    if view_name(a) == view_name(b) && a != b {
        assert(view_name(a)[0] == view_name(b)[0]);
    }
}

/// A library folder that was opened before.
#[derive(Debug, Clone)]
pub struct LibraryEntry {
    pub id: i64,
    pub path: String,
    pub name: String,
    pub video_count: i64,
    pub last_opened: String,
    pub thumbnail_path: Option<String>,
}

/// Bytes in a kilobyte, a megabyte and a gigabyte (binary multiples).
pub const KB: u64 = 1024;

pub const MB: u64 = 1024 * 1024;

pub const GB: u64 = 1024 * 1024 * 1024;

/// `bytes / unit` in tenths, rounded to nearest, halves to even.
pub open spec fn tenths(bytes: nat, unit: nat) -> nat {
    let q = bytes * 10 / unit;
    let r = bytes * 10 % unit;
    if 2 * r > unit || (2 * r == unit && q % 2 == 1) {
        q + 1
    } else {
        q
    }
}

/// A number of tenths written with one decimal: `12` is `1.2`.
pub open spec fn one_decimal(t: nat) -> Seq<char> {
    decimal(t / 10) + seq!['.', digit_char(t % 10)]
}

/// A file size as shown to the user: in gigabytes, megabytes or kilobytes
/// with one decimal, from the largest unit that it reaches; in bytes below
/// a kilobyte.
pub open spec fn file_size_text(bytes: nat) -> Seq<char> {
    if bytes >= GB {
        one_decimal(tenths(bytes, GB as nat)) + seq![' ', 'G', 'B']
    } else if bytes >= MB {
        one_decimal(tenths(bytes, MB as nat)) + seq![' ', 'M', 'B']
    } else if bytes >= KB {
        one_decimal(tenths(bytes, KB as nat)) + seq![' ', 'K', 'B']
    } else {
        decimal(bytes) + seq![' ', 'B']
    }
}

fn tenths_of(bytes: u64, unit: u64) -> (r: u64)
    requires
        unit >= KB,
    ensures
        r == tenths(bytes as nat, unit as nat),
{
    let scaled: u128 = (bytes as u128) * 10;
    let q: u128 = scaled / (unit as u128);
    let rem: u128 = scaled % (unit as u128);
    assert(q <= (bytes as int) * 10 / 1024) by (nonlinear_arith)
        requires
            unit >= 1024,
            q == (scaled as int) / (unit as int),
            scaled == (bytes as int) * 10,
    ;
    assert((bytes as int) * 10 / 1024 < 0xffff_ffff_ffff_ffff) by (nonlinear_arith)
        requires
            bytes <= 0xffff_ffff_ffff_ffff,
    ;
    if 2 * rem > unit as u128 || (2 * rem == unit as u128 && q % 2 == 1) {
        (q + 1) as u64
    } else {
        q as u64
    }
}

fn one_decimal_text(t: u64) -> (r: String)
    ensures
        r@ == one_decimal(t as nat),
{
    let mut s = decimal_text(t / 10);
    proof {
        reveal_strlit(".");
    }
    s.append(".");
    s.append(digit_text(t % 10));
    assert(s@ =~= one_decimal(t as nat));
    s
}

/// Renders a file size as `file_size_text` says: `512 B`, `1.5 KB`,
/// `2.0 MB`, `1.1 GB`.
pub fn format_file_size(bytes: u64) -> (r: String)
    ensures
        r@ == file_size_text(bytes as nat),
{
    if bytes >= GB {
        let mut s = one_decimal_text(tenths_of(bytes, GB));
        proof {
            reveal_strlit(" GB");
        }
        s.append(" GB");
        assert(s@ =~= file_size_text(bytes as nat));
        s
    } else if bytes >= MB {
        let mut s = one_decimal_text(tenths_of(bytes, MB));
        proof {
            reveal_strlit(" MB");
        }
        s.append(" MB");
        assert(s@ =~= file_size_text(bytes as nat));
        s
    } else if bytes >= KB {
        let mut s = one_decimal_text(tenths_of(bytes, KB));
        proof {
            reveal_strlit(" KB");
        }
        s.append(" KB");
        assert(s@ =~= file_size_text(bytes as nat));
        s
    } else {
        let mut s = decimal_text(bytes);
        proof {
            reveal_strlit(" B");
        }
        s.append(" B");
        assert(s@ =~= file_size_text(bytes as nat));
        s
    }
}

/// A time as shown to the user: whole seconds (negative times count as
/// zero) written `h:mm:ss` from an hour up, `m:ss` below.
pub open spec fn duration_text(micros: int) -> Seq<char> {
    let total: nat = if micros < 0 {
        0
    } else {
        (micros / 1_000_000) as nat
    };
    let hours = total / 3600;
    let minutes = total % 3600 / 60;
    let seconds = total % 60;
    if hours > 0 {
        decimal(hours) + seq![':'] + two_digits(minutes) + seq![':'] + two_digits(seconds)
    } else {
        decimal(minutes) + seq![':'] + two_digits(seconds)
    }
}

/// Renders a time given in microseconds as `duration_text` says: `0:00`,
/// `2:05`, `1:01:01`.
pub fn format_duration(micros: i64) -> (r: String)
    ensures
        r@ == duration_text(micros as int),
{
    let total: u64 = if micros < 0 {
        0
    } else {
        (micros / 1_000_000) as u64
    };
    let hours = total / 3600;
    let minutes = total % 3600 / 60;
    let seconds = total % 60;
    proof {
        reveal_strlit(":");
    }
    if hours > 0 {
        let mut s = decimal_text(hours);
        s.append(":");
        append_two_digits(&mut s, minutes);
        s.append(":");
        append_two_digits(&mut s, seconds);
        assert(s@ =~= duration_text(micros as int));
        s
    } else {
        let mut s = decimal_text(minutes);
        s.append(":");
        append_two_digits(&mut s, seconds);
        assert(s@ =~= duration_text(micros as int));
        s
    }
}

/// The rolling hash of a path: for each character `c`, `h = 31 * h + c`,
/// wrapping in an `i64`, from `h = 0`.
pub open spec fn path_hash(cs: Seq<char>) -> i64
    decreases cs.len(),
{
    if cs.len() == 0 {
        0
    } else {
        path_hash(cs.drop_last()).wrapping_mul(31).wrapping_add((cs.last() as u32) as i64)
    }
}

/// The magnitude of an `i64`, as a natural number.
pub open spec fn magnitude(h: i64) -> nat {
    if h < 0 {
        (-(h as int)) as nat
    } else {
        h as nat
    }
}

/// A deterministic identifier for a video: the magnitude of the rolling hash
/// of its path, in lower-case hexadecimal.
pub fn generate_id(file_path: &str) -> (r: String)
    ensures
        r@ == hex(magnitude(path_hash(file_path@))),
{
    let n: usize = file_path.unicode_len();
    let mut hash: i64 = 0;
    let mut i: usize = 0;
    while i < n
        invariant
            0 <= i <= n,
            n == file_path@.len(),
            hash == path_hash(file_path@.subrange(0, i as int)),
        decreases n - i,
    {
        let c = file_path.get_char(i);
        assert(file_path@.subrange(0, i + 1).drop_last() =~= file_path@.subrange(0, i as int));
        hash = hash.wrapping_mul(31).wrapping_add((c as u32) as i64);
        i = i + 1;
    }
    assert(file_path@.subrange(0, n as int) =~= file_path@);
    let m: u64 = if hash < 0 {
        (-(hash as i128)) as u64
    } else {
        hash as u64
    };
    hex_text(m)
}

} // verus!
