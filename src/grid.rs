//! The catalog's records and the order in which the grid shows them.
use vstd::prelude::*;
use crate::catalog::{SortOption, ViewMode};
use crate::scanner::{lower_of, lowercase};

verus! {

/// A catalog record. Times are microseconds: `duration` of the clip, and
/// `created_at` since the Unix epoch.
pub struct Video {
    pub id: String,
    pub file_path: String,
    pub file_name: String,
    pub file_size: u64,
    pub duration: i64,
    pub width: Option<u32>,
    pub height: Option<u32>,
    pub created_at: i64,
    pub has_thumbnail: bool,
    pub has_sprite: bool,
    pub thumbnail_path: Option<String>,
    pub sprite_path: Option<String>,
    pub is_favorite: bool,
}

/// Lexicographic order of texts, character by character; a proper prefix
/// comes first.
pub open spec fn lex_less(a: Seq<char>, b: Seq<char>) -> bool
    decreases a.len(),
{
    if a.len() == 0 {
        b.len() > 0
    } else if b.len() == 0 {
        false
    } else if a[0] != b[0] {
        (a[0] as u32) < (b[0] as u32)
    } else {
        lex_less(a.drop_first(), b.drop_first())
    }
}

proof fn lemma_lex_asymmetric(a: Seq<char>, b: Seq<char>)
    ensures
        lex_less(a, b) ==> !lex_less(b, a),
    decreases a.len(),
{
    if a.len() > 0 && b.len() > 0 && a[0] == b[0] {
        lemma_lex_asymmetric(a.drop_first(), b.drop_first());
    }
}

proof fn lemma_lex_total(a: Seq<char>, b: Seq<char>)
    ensures
        a != b ==> lex_less(a, b) || lex_less(b, a),
    decreases a.len(),
{
    if a.len() > 0 && b.len() > 0 && a[0] == b[0] {
        lemma_lex_total(a.drop_first(), b.drop_first());
        if a.drop_first() == b.drop_first() {
            assert(a =~= seq![a[0]] + a.drop_first());
            assert(b =~= seq![b[0]] + b.drop_first());
        }
    } else if a.len() == 0 && b.len() == 0 {
        assert(a =~= b);
    } else if a.len() > 0 && b.len() > 0 {
        vstd::utf8::char_u32_cast(a[0], a[0] as u32);
        vstd::utf8::char_u32_cast(b[0], b[0] as u32);
        assert((a[0] as u32) != (b[0] as u32));
    }
}

proof fn lemma_lex_transitive(a: Seq<char>, b: Seq<char>, c: Seq<char>)
    ensures
        lex_less(a, b) && lex_less(b, c) ==> lex_less(a, c),
    decreases a.len(),
{
    if a.len() > 0 && b.len() > 0 && c.len() > 0 && a[0] == b[0] && b[0] == c[0] {
        lemma_lex_transitive(a.drop_first(), b.drop_first(), c.drop_first());
    }
}

/// Whether the grid shows a video in a view mode.
pub open spec fn shown(view: ViewMode, v: Video) -> bool {
    view == ViewMode::AllVideos || v.is_favorite
}

/// The sort key of a name: its lower-case form.
pub open spec fn name_key(v: Video) -> Seq<char> {
    lower_of(v.file_name@)
}

/// Whether the sort option puts `a` strictly before `b`.
pub open spec fn precedes(sort: SortOption, a: Video, b: Video) -> bool {
    match sort {
        SortOption::DateNewest => a.created_at > b.created_at,
        SortOption::DateOldest => a.created_at < b.created_at,
        SortOption::DurationLongest => a.duration > b.duration,
        SortOption::DurationShortest => a.duration < b.duration,
        SortOption::NameAZ => lex_less(name_key(a), name_key(b)),
        SortOption::NameZA => lex_less(name_key(b), name_key(a)),
    }
}

/// Whether record `i` comes before record `j` in the grid: by the sort
/// option, and between records that it does not tell apart, by their place
/// in the catalog.
pub open spec fn comes_before(sort: SortOption, videos: Seq<Video>, i: int, j: int) -> bool {
    ||| precedes(sort, videos[i], videos[j])
    ||| (!precedes(sort, videos[j], videos[i]) && i < j)
}

proof fn lemma_order(sort: SortOption, a: Video, b: Video, c: Video)
    ensures
        precedes(sort, a, b) ==> !precedes(sort, b, a),
        precedes(sort, a, b) && precedes(sort, b, c) ==> precedes(sort, a, c),
        !precedes(sort, a, b) && !precedes(sort, b, a) && precedes(sort, b, c) ==> precedes(
            sort,
            a,
            c,
        ),
        !precedes(sort, a, b) && !precedes(sort, b, a) && precedes(sort, c, b) ==> precedes(
            sort,
            c,
            a,
        ),
        !precedes(sort, a, b) && !precedes(sort, b, a) && !precedes(sort, b, c) && !precedes(
            sort,
            c,
            b,
        ) ==> !precedes(sort, a, c) && !precedes(sort, c, a),
{
    let (x, y, z) = (name_key(a), name_key(b), name_key(c));
    lemma_lex_asymmetric(x, y);
    lemma_lex_asymmetric(y, x);
    lemma_lex_total(x, y);
    lemma_lex_total(y, z);
    lemma_lex_total(x, z);
    lemma_lex_transitive(x, y, z);
    lemma_lex_transitive(z, y, x);
    lemma_lex_asymmetric(x, z);
    lemma_lex_asymmetric(z, x);
    lemma_lex_asymmetric(y, z);
    lemma_lex_asymmetric(z, y);
}

/// `comes_before` is a strict total order on the records' places.
proof fn lemma_comes_before_total_order(sort: SortOption, videos: Seq<Video>, i: int, j: int, k: int)
    ensures
        i != j ==> comes_before(sort, videos, i, j) != comes_before(sort, videos, j, i),
        comes_before(sort, videos, i, j) && comes_before(sort, videos, j, k) ==> comes_before(
            sort,
            videos,
            i,
            k,
        ),
{
    lemma_order(sort, videos[i], videos[j], videos[k]);
    lemma_order(sort, videos[j], videos[i], videos[k]);
    lemma_order(sort, videos[i], videos[k], videos[j]);
    lemma_order(sort, videos[k], videos[j], videos[i]);
    lemma_order(sort, videos[j], videos[k], videos[i]);
    lemma_order(sort, videos[k], videos[i], videos[j]);
}

/// Whether `a` comes before `b` in lexicographic order.
pub fn lex_less_text(a: &str, b: &str) -> (r: bool)
    ensures
        r == lex_less(a@, b@),
{
    let n = a.unicode_len();
    let m = b.unicode_len();
    let mut i: usize = 0;
    assert(a@.subrange(0, n as int) =~= a@);
    assert(b@.subrange(0, m as int) =~= b@);
    while i < n && i < m
        invariant
            0 <= i <= n,
            i <= m,
            n == a@.len(),
            m == b@.len(),
            lex_less(a@, b@) == lex_less(
                a@.subrange(i as int, n as int),
                b@.subrange(i as int, m as int),
            ),
        decreases n - i,
    {
        let x = a.get_char(i);
        let y = b.get_char(i);
        let ghost sa = a@.subrange(i as int, n as int);
        let ghost sb = b@.subrange(i as int, m as int);
        assert(sa[0] == x && sb[0] == y);
        if x != y {
            return (x as u32) < (y as u32);
        }
        assert(sa.drop_first() =~= a@.subrange(i + 1, n as int));
        assert(sb.drop_first() =~= b@.subrange(i + 1, m as int));
        i = i + 1;
    }
    assert(a@.subrange(i as int, n as int).len() == n - i);
    i == n && i < m
}

fn precedes_exec(sort: SortOption, a: &Video, b: &Video, name_a: &String, name_b: &String) -> (r:
    bool)
    requires
        name_a@ == name_key(*a),
        name_b@ == name_key(*b),
    ensures
        r == precedes(sort, *a, *b),
{
    match sort {
        SortOption::DateNewest => a.created_at > b.created_at,
        SortOption::DateOldest => a.created_at < b.created_at,
        SortOption::DurationLongest => a.duration > b.duration,
        SortOption::DurationShortest => a.duration < b.duration,
        SortOption::NameAZ => lex_less_text(name_a.as_str(), name_b.as_str()),
        SortOption::NameZA => lex_less_text(name_b.as_str(), name_a.as_str()),
    }
}

/// The places of the records that the grid shows in `view`, in the order
/// that `sort` gives them: every shown record once, each before the next.
/// Records the sort option does not tell apart keep their catalog order.
pub fn grid_order(videos: &Vec<Video>, view: ViewMode, sort: SortOption) -> (r: Vec<usize>)
    ensures
        forall|x: usize| r@.contains(x) <==> (x < videos@.len() && shown(view, videos@[x as int])),
        forall|a: int, b: int|
            0 <= a < b < r@.len() ==> comes_before(sort, videos@, r@[a] as int, r@[b] as int),
{
    let n = videos.len();
    let mut names: Vec<String> = Vec::new();
    let mut k: usize = 0;
    while k < n
        invariant
            0 <= k <= n,
            n == videos@.len(),
            names@.len() == k,
            forall|i: int| 0 <= i < k ==> #[trigger] names@[i]@ == name_key(videos@[i]),
        decreases n - k,
    {
        names.push(lowercase(videos[k].file_name.as_str()));
        k = k + 1;
    }
    let mut order: Vec<usize> = Vec::new();
    let mut k: usize = 0;
    while k < n
        invariant
            0 <= k <= n,
            n == videos@.len(),
            names@.len() == n,
            forall|i: int| 0 <= i < n ==> #[trigger] names@[i]@ == name_key(videos@[i]),
            forall|x: usize| order@.contains(x) <==> (x < k && shown(view, videos@[x as int])),
            forall|a: int, b: int|
                0 <= a < b < order@.len() ==> comes_before(
                    sort,
                    videos@,
                    order@[a] as int,
                    order@[b] as int,
                ),
        decreases n - k,
    {
        let show = match view {
            ViewMode::AllVideos => true,
            ViewMode::Favorites => videos[k].is_favorite,
        };
        if show {
            let mut j: usize = order.len();
            while j > 0
                invariant
                    0 <= j <= order@.len(),
                    k < n,
                    n == videos@.len(),
                    names@.len() == n,
                    forall|i: int| 0 <= i < n ==> #[trigger] names@[i]@ == name_key(videos@[i]),
                    forall|x: usize| order@.contains(x) ==> x < k,
                    forall|m: int|
                        j <= m < order@.len() ==> comes_before(
                            sort,
                            videos@,
                            k as int,
                            #[trigger] order@[m] as int,
                        ),
                ensures
                    0 <= j <= order@.len(),
                    forall|m: int|
                        j <= m < order@.len() ==> comes_before(
                            sort,
                            videos@,
                            k as int,
                            #[trigger] order@[m] as int,
                        ),
                    j > 0 ==> !comes_before(sort, videos@, k as int, order@[j - 1] as int),
                decreases j,
            {
                let p = order[j - 1];
                assert(order@.contains(p));
                let before = precedes_exec(sort, &videos[k], &videos[p], &names[k], &names[p])
                    || (!precedes_exec(sort, &videos[p], &videos[k], &names[p], &names[k]) && k
                    < p);
                if !before {
                    break;
                }
                j = j - 1;
            }
            proof {
                if j > 0 {
                    let p = order@[j - 1] as int;
                    assert(order@.contains(order@[j - 1]));
                    lemma_comes_before_total_order(sort, videos@, k as int, p, p);
                    assert(comes_before(sort, videos@, p, k as int));
                    assert forall|a: int| 0 <= a < j - 1 implies comes_before(
                        sort,
                        videos@,
                        #[trigger] order@[a] as int,
                        k as int,
                    ) by {
                        lemma_comes_before_total_order(sort, videos@, order@[a] as int, p, k as int);
                    }
                }
            }
            let ghost old_order = order@;
            order.insert(j, k);
            proof {
                assert forall|a: int, b: int| 0 <= a < b < order@.len() implies comes_before(
                    sort,
                    videos@,
                    order@[a] as int,
                    order@[b] as int,
                ) by {
                    if b < j as int {
                        assert(order@[a] == old_order[a] && order@[b] == old_order[b]);
                    } else if b == j as int {
                        assert(order@[b] == k);
                        if a == j - 1 {
                            assert(comes_before(sort, videos@, old_order[j - 1] as int, k as int));
                        }
                    } else if a == j as int {
                        assert(order@[b] == old_order[b - 1]);
                    } else if a < j as int {
                        assert(order@[a] == old_order[a] && order@[b] == old_order[b - 1]);
                    } else {
                        assert(order@[a] == old_order[a - 1] && order@[b] == old_order[b - 1]);
                    }
                }
                assert forall|x: usize| order@.contains(x) <==> (x < k + 1 && shown(
                    view,
                    videos@[x as int],
                )) by {
                    if order@.contains(x) {
                        let i = choose|i: int| 0 <= i < order@.len() && order@[i] == x;
                        if i < j {
                            assert(old_order[i] == x);
                            assert(old_order.contains(x));
                        } else if i > j {
                            assert(old_order[i - 1] == x);
                            assert(old_order.contains(x));
                        } else {
                            assert(x == k);
                        }
                    }
                    if x < k && shown(view, videos@[x as int]) {
                        assert(old_order.contains(x));
                        let i = choose|i: int| 0 <= i < old_order.len() && old_order[i] == x;
                        if i < j {
                            assert(order@[i] == x);
                        } else {
                            assert(order@[i + 1] == x);
                        }
                    }
                    if x == k {
                        assert(order@[j as int] == x);
                    }
                }
            }
        } else {
            assert forall|x: usize| order@.contains(x) <==> (x < k + 1 && shown(
                view,
                videos@[x as int],
            )) by {
                if x == k {
                    assert(!shown(view, videos@[x as int]));
                }
            }
        }
        k = k + 1;
    }
    order
}

} // verus!
