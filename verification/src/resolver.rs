//! The image resolver: a deterministic, side-effect-free function from
//! the provider's raw image path and the resolution preference to the
//! absolute image URL and the cache filename.
//!
//! The raw path may carry a resolution suffix `_<width>x<height>.jpg`;
//! for a fixed-resolution preference the leftmost such suffix is
//! rewritten to the requested token.  The filename comes from the
//! provider's `id=` query parameter, with the constant `OHR.` prefix
//! stripped; without that parameter it falls back to the last path
//! segment or a fixed default name.

use vstd::prelude::*;

verus! {

pub open spec fn is_ascii_digit(c: char) -> bool {
    '0' <= c && c <= '9'
}

/// A resolution suffix `_<digits>x<digits>.jpg` occupies positions
/// `i..k + 4` of `s`, with the `x` at `j` and the `.` at `k`.
pub open spec fn res_match_at(s: Seq<char>, i: int, j: int, k: int) -> bool {
    &&& 0 <= i
    &&& i + 2 <= j
    &&& j + 2 <= k
    &&& k + 4 <= s.len()
    &&& s[i] == '_'
    &&& (forall|p: int| i < p < j ==> is_ascii_digit(#[trigger] s[p]))
    &&& s[j] == 'x'
    &&& (forall|p: int| j < p < k ==> is_ascii_digit(#[trigger] s[p]))
    &&& s[k] == '.'
    &&& s[k + 1] == 'j'
    &&& s[k + 2] == 'p'
    &&& s[k + 3] == 'g'
}

/// A resolution suffix begins at position `i` of `s`.
pub open spec fn match_from(s: Seq<char>, i: int) -> bool {
    exists|j: int, k: int| res_match_at(s, i, j, k)
}

/// Some resolution suffix occurs in `s`.
pub open spec fn has_res_match(s: Seq<char>) -> bool {
    exists|i: int| match_from(s, i)
}

/// The position of the leftmost resolution suffix of `s`.
pub open spec fn first_match_start(s: Seq<char>) -> int {
    choose|i: int|
        match_from(s, i) && (forall|i2: int| 0 <= i2 < i ==> !match_from(s, i2))
}

/// The resolution suffix beginning at `i` has its `.` at `k`.
pub open spec fn match_ends_at(s: Seq<char>, i: int, k: int) -> bool {
    exists|j: int| res_match_at(s, i, j, k)
}

/// The position of the `.` of the resolution suffix beginning at `i`.
pub open spec fn match_end(s: Seq<char>, i: int) -> int {
    choose|k: int| match_ends_at(s, i, k)
}

/// `s` with its leftmost resolution suffix replaced by `token`, or
/// unchanged when no such suffix occurs.
pub open spec fn rewrite_spec(s: Seq<char>, token: Seq<char>) -> Seq<char> {
    if has_res_match(s) {
        let i = first_match_start(s);
        s.subrange(0, i) + token + s.subrange(match_end(s, i) + 4, s.len() as int)
    } else {
        s
    }
}

/// At a given start position the suffix is unique: its `x` and its `.`
/// are forced, because the separators are not digits.
proof fn lemma_match_unique(s: Seq<char>, i: int, j1: int, k1: int, j2: int, k2: int)
    requires
        res_match_at(s, i, j1, k1),
        res_match_at(s, i, j2, k2),
    ensures
        j1 == j2,
        k1 == k2,
{
    if j1 < j2 {
        assert(is_ascii_digit(s[j1]));
    }
    if j2 < j1 {
        assert(is_ascii_digit(s[j2]));
    }
    if k1 < k2 {
        assert(is_ascii_digit(s[k1]));
    }
    if k2 < k1 {
        assert(is_ascii_digit(s[k2]));
    }
}

/// A maximal digit run starting at `lo` ends where any suffix's
/// non-digit separator must stand.
proof fn lemma_run_sep_unique(s: Seq<char>, lo: int, e: int, q: int)
    requires
        0 <= lo <= e <= s.len(),
        forall|p: int| lo <= p < e ==> is_ascii_digit(#[trigger] s[p]),
        e < s.len() ==> !is_ascii_digit(s[e]),
        lo <= q < s.len(),
        !is_ascii_digit(s[q]),
        forall|p: int| lo <= p < q ==> is_ascii_digit(#[trigger] s[p]),
    ensures
        q == e,
{
    if q < e {
        assert(is_ascii_digit(s[q]));
    }
    if e < q {
        assert(is_ascii_digit(s[e]));
    }
}

fn is_digit_exec(c: char) -> (b: bool)
    ensures
        b == is_ascii_digit(c),
{
    c >= '0' && c <= '9'
}

/// The end of the digit run of `s` beginning at `start`: every
/// character before it and from `start` on is a digit, and the
/// character at it, if any, is not.
fn digit_run_end(s: &str, start: usize, n: usize) -> (e: usize)
    requires
        s@.len() == n,
        start <= n,
    ensures
        start <= e <= n,
        forall|p: int| start <= p < e ==> is_ascii_digit(#[trigger] s@[p]),
        e < n ==> !is_ascii_digit(s@[e as int]),
{
    let mut e: usize = start;
    while e < n && is_digit_exec(s.get_char(e))
        invariant
            s@.len() == n,
            start <= e <= n,
            forall|p: int| start <= p < e ==> is_ascii_digit(#[trigger] s@[p]),
        decreases n - e,
    {
        e = e + 1;
    }
    e
}

/// Whether a resolution suffix begins at position `i`, and if so where
/// its `.` stands.
fn check_match_at(s: &str, i: usize, n: usize) -> (r: Option<usize>)
    requires
        s@.len() == n,
        i < n,
    ensures
        match r {
            Option::Some(k) => match_ends_at(s@, i as int, k as int),
            Option::None => !match_from(s@, i as int),
        },
{
    if s.get_char(i) != '_' {
        proof {
            if match_from(s@, i as int) {
                let (j2, k2) = choose|j2: int, k2: int| res_match_at(s@, i as int, j2, k2);
                assert(s@[i as int] == '_');
            }
        }
        return Option::None;
    }
    let j = digit_run_end(s, i + 1, n);
    if j == i + 1 || j == n || s.get_char(j) != 'x' {
        proof {
            if match_from(s@, i as int) {
                let (j2, k2) = choose|j2: int, k2: int| res_match_at(s@, i as int, j2, k2);
                assert(is_ascii_digit(s@[i + 1]));
                lemma_run_sep_unique(s@, i + 1, j as int, j2);
                assert(s@[j as int] == 'x');
            }
        }
        return Option::None;
    }
    let k = digit_run_end(s, j + 1, n);
    if k == j + 1 || n - k < 4 {
        proof {
            if match_from(s@, i as int) {
                let (j2, k2) = choose|j2: int, k2: int| res_match_at(s@, i as int, j2, k2);
                lemma_run_sep_unique(s@, i + 1, j as int, j2);
                assert(is_ascii_digit(s@[j + 1]));
                lemma_run_sep_unique(s@, j + 1, k as int, k2);
            }
        }
        return Option::None;
    }
    if s.get_char(k) != '.' || s.get_char(k + 1) != 'j' || s.get_char(k + 2) != 'p' || s.get_char(
        k + 3,
    ) != 'g' {
        proof {
            if match_from(s@, i as int) {
                let (j2, k2) = choose|j2: int, k2: int| res_match_at(s@, i as int, j2, k2);
                lemma_run_sep_unique(s@, i + 1, j as int, j2);
                lemma_run_sep_unique(s@, j + 1, k as int, k2);
                assert(s@[k as int] == '.');
            }
        }
        return Option::None;
    }
    proof {
        assert(res_match_at(s@, i as int, j as int, k as int));
        assert(match_ends_at(s@, i as int, k as int));
    }
    Option::Some(k)
}

/// The leftmost resolution suffix of `s`: its start and the position
/// of its `.`.
fn find_first_match(s: &str) -> (r: Option<(usize, usize)>)
    ensures
        match r {
            Option::Some(ik) => {
                &&& match_ends_at(s@, ik.0 as int, ik.1 as int)
                &&& forall|i2: int| 0 <= i2 < ik.0 ==> !match_from(s@, i2)
            },
            Option::None => !has_res_match(s@),
        },
{
    let n = s.unicode_len();
    let mut i: usize = 0;
    while i < n
        invariant
            s@.len() == n,
            i <= n,
            forall|i2: int| 0 <= i2 < i ==> !match_from(s@, i2),
        decreases n - i,
    {
        match check_match_at(s, i, n) {
            Option::Some(k) => {
                return Option::Some((i, k));
            },
            Option::None => {},
        }
        i = i + 1;
    }
    proof {
        if has_res_match(s@) {
            let i2 = choose|i2: int| match_from(s@, i2);
            let (j2, k2) = choose|j2: int, k2: int| res_match_at(s@, i2, j2, k2);
            assert(i2 < n);
            assert(!match_from(s@, i2));
        }
    }
    Option::None
}

/// `s` with its leftmost resolution suffix replaced by `token`, or a
/// copy of `s` when no such suffix occurs.
pub fn rewrite_resolution(s: &str, token: &str) -> (r: String)
    ensures
        r@ == rewrite_spec(s@, token@),
{
    let n = s.unicode_len();
    match find_first_match(s) {
        Option::Some((i, k)) => {
            proof {
                let j = choose|j: int| res_match_at(s@, i as int, j, k as int);
                assert(match_from(s@, i as int));
                assert(has_res_match(s@));
                let fi = first_match_start(s@);
                assert(match_from(s@, fi) && (forall|i2: int| 0 <= i2 < fi ==> !match_from(s@, i2)));
                if fi < i {
                    assert(!match_from(s@, fi));
                }
                if i < fi {
                    assert(!match_from(s@, i as int));
                }
                assert(fi == i as int);
                assert(match_ends_at(s@, i as int, k as int));
                let ke = match_end(s@, i as int);
                assert(match_ends_at(s@, i as int, ke));
                let j2 = choose|j2: int| res_match_at(s@, i as int, j2, ke);
                lemma_match_unique(s@, i as int, j, k as int, j2, ke);
                assert(ke == k as int);
                assert(k + 4 <= n);
            }
            let prefix = s.substring_char(0, i);
            let suffix = s.substring_char(k + 4, n);
            let mut out = prefix.to_owned();
            out.append(token);
            out.append(suffix);
            out
        },
        Option::None => s.to_owned(),
    }
}

/// The characters of `t` stand in `s` at position `i`.
pub open spec fn sub_at(s: Seq<char>, t: Seq<char>, i: int) -> bool {
    0 <= i && i + t.len() <= s.len() && s.subrange(i, i + t.len()) == t
}

/// `t` occurs somewhere in `s`.
pub open spec fn contains_sub(s: Seq<char>, t: Seq<char>) -> bool {
    exists|i: int| sub_at(s, t, i)
}

/// The position of the first occurrence of `t` in `s`.
pub open spec fn first_sub(s: Seq<char>, t: Seq<char>) -> int {
    choose|i: int| sub_at(s, t, i) && (forall|i2: int| 0 <= i2 < i ==> !sub_at(s, t, i2))
}

/// The position of the first occurrence of the character `c` in `s`.
pub open spec fn first_char(s: Seq<char>, c: char) -> int {
    choose|i: int| 0 <= i < s.len() && s[i] == c && (forall|i2: int| 0 <= i2 < i ==> s[i2] != c)
}

/// The position of the last occurrence of the character `c` in `s`.
pub open spec fn last_char(s: Seq<char>, c: char) -> int {
    choose|i: int|
        0 <= i < s.len() && s[i] == c && (forall|i2: int| i < i2 < s.len() ==> s[i2] != c)
}

/// The cache filename derived from a (possibly rewritten) image path:
/// the value of the embedded `id=` parameter up to the next `&`, with
/// a leading `OHR.` stripped; without an `id=` parameter, the last
/// `/`-separated segment of the path, or the fixed default name when
/// that is empty.
pub open spec fn filename_spec(m: Seq<char>) -> Seq<char> {
    if contains_sub(m, "id="@) {
        let after = m.subrange(first_sub(m, "id="@) + 3, m.len() as int);
        let name = if after.contains('&') {
            after.subrange(0, first_char(after, '&'))
        } else {
            after
        };
        if name.len() >= 4 && name.subrange(0, 4) == "OHR."@ {
            name.subrange(4, name.len() as int)
        } else {
            name
        }
    } else {
        let seg = if m.contains('/') {
            m.subrange(last_char(m, '/') + 1, m.len() as int)
        } else {
            m
        };
        if seg.len() == 0 {
            "bing_wallpaper.jpg"@
        } else {
            seg
        }
    }
}

/// Whether the characters of `t` stand in `s` at position `i`.
fn sub_matches_at(s: &str, t: &str, i: usize, n: usize, m: usize) -> (b: bool)
    requires
        s@.len() == n,
        t@.len() == m,
        i + m <= n,
    ensures
        b == sub_at(s@, t@, i as int),
{
    let mut q: usize = 0;
    while q < m
        invariant
            s@.len() == n,
            t@.len() == m,
            i + m <= n,
            q <= m,
            forall|p: int| 0 <= p < q ==> s@[i + p] == t@[p],
        decreases m - q,
    {
        if s.get_char(i + q) != t.get_char(q) {
            proof {
                if sub_at(s@, t@, i as int) {
                    assert(s@.subrange(i as int, i + m)[q as int] == t@[q as int]);
                }
            }
            return false;
        }
        q = q + 1;
    }
    proof {
        assert(s@.subrange(i as int, i + m) =~= t@);
    }
    true
}

/// The position of the first occurrence of `t` in `s`, if any.
fn find_sub_first(s: &str, t: &str) -> (r: Option<usize>)
    requires
        t@.len() >= 1,
    ensures
        match r {
            Option::Some(i) => sub_at(s@, t@, i as int) && (forall|i2: int|
                0 <= i2 < i ==> !sub_at(s@, t@, i2)),
            Option::None => !contains_sub(s@, t@),
        },
{
    let n = s.unicode_len();
    let m = t.unicode_len();
    if m > n {
        proof {
            if contains_sub(s@, t@) {
                let i2 = choose|i2: int| sub_at(s@, t@, i2);
            }
        }
        return Option::None;
    }
    let mut i: usize = 0;
    while i <= n - m
        invariant
            s@.len() == n,
            t@.len() == m,
            1 <= m <= n,
            i <= n - m + 1,
            forall|i2: int| 0 <= i2 < i ==> !sub_at(s@, t@, i2),
        decreases n - m - i + 1,
    {
        if sub_matches_at(s, t, i, n, m) {
            return Option::Some(i);
        }
        i = i + 1;
    }
    proof {
        if contains_sub(s@, t@) {
            let i2 = choose|i2: int| sub_at(s@, t@, i2);
            assert(i2 <= n - m);
            assert(!sub_at(s@, t@, i2));
        }
    }
    Option::None
}

/// The position of the first occurrence of the character `c` in `s`,
/// if any.
fn find_char_first(s: &str, c: char) -> (r: Option<usize>)
    ensures
        match r {
            Option::Some(i) => 0 <= i < s@.len() && s@[i as int] == c && (forall|i2: int|
                0 <= i2 < i ==> s@[i2] != c),
            Option::None => !s@.contains(c),
        },
{
    let n = s.unicode_len();
    let mut i: usize = 0;
    while i < n
        invariant
            s@.len() == n,
            i <= n,
            forall|i2: int| 0 <= i2 < i ==> s@[i2] != c,
        decreases n - i,
    {
        if s.get_char(i) == c {
            return Option::Some(i);
        }
        i = i + 1;
    }
    proof {
        if s@.contains(c) {
            let i2 = choose|i2: int| 0 <= i2 < s@.len() && s@[i2] == c;
        }
    }
    Option::None
}

/// The position of the last occurrence of the character `c` in `s`,
/// if any.
fn find_char_last(s: &str, c: char) -> (r: Option<usize>)
    ensures
        match r {
            Option::Some(i) => 0 <= i < s@.len() && s@[i as int] == c && (forall|i2: int|
                i < i2 < s@.len() ==> s@[i2] != c),
            Option::None => !s@.contains(c),
        },
{
    let n = s.unicode_len();
    let mut i: usize = n;
    while i > 0
        invariant
            s@.len() == n,
            i <= n,
            forall|i2: int| i <= i2 < n ==> s@[i2] != c,
        decreases i,
    {
        i = i - 1;
        if s.get_char(i) == c {
            return Option::Some(i);
        }
    }
    proof {
        if s@.contains(c) {
            let i2 = choose|i2: int| 0 <= i2 < s@.len() && s@[i2] == c;
        }
    }
    Option::None
}

/// The cache filename of a (possibly rewritten) image path; see
/// [`filename_spec`].
pub fn extract_filename(m: &str) -> (r: String)
    ensures
        r@ == filename_spec(m@),
{
    proof {
        reveal_strlit("id=");
        reveal_strlit("OHR.");
    }
    let n = m.unicode_len();
    match find_sub_first(m, "id=") {
        Option::Some(i) => {
            proof {
                assert(contains_sub(m@, "id="@));
                let fi = first_sub(m@, "id="@);
                assert(sub_at(m@, "id="@, fi) && (forall|i2: int|
                    0 <= i2 < fi ==> !sub_at(m@, "id="@, i2)));
                assert(fi == i as int);
            }
            let after = m.substring_char(i + 3, n);
            let name = match find_char_first(after, '&') {
                Option::Some(a) => {
                    proof {
                        assert(after@[a as int] == '&');
                        assert(after@.contains('&'));
                        let fc = first_char(after@, '&');
                        assert(0 <= fc < after@.len() && after@[fc] == '&' && (forall|i2: int|
                            0 <= i2 < fc ==> after@[i2] != '&'));
                        assert(fc == a as int);
                    }
                    after.substring_char(0, a)
                },
                Option::None => after,
            };
            let nn = name.unicode_len();
            if nn >= 4 && sub_matches_at(name, "OHR.", 0, nn, 4) {
                proof {
                    assert(name@.subrange(0, 4) == "OHR."@);
                }
                name.substring_char(4, nn).to_owned()
            } else {
                name.to_owned()
            }
        },
        Option::None => {
            match find_char_last(m, '/') {
                Option::Some(p) => {
                    proof {
                        let lc = last_char(m@, '/');
                        assert(0 <= lc < m@.len() && m@[lc] == '/' && (forall|i2: int|
                            lc < i2 < m@.len() ==> m@[i2] != '/'));
                        assert(lc == p as int);
                    }
                    let seg = m.substring_char(p + 1, n);
                    if seg.unicode_len() == 0 {
                        String::from_str("bing_wallpaper.jpg")
                    } else {
                        seg.to_owned()
                    }
                },
                Option::None => {
                    if n == 0 {
                        String::from_str("bing_wallpaper.jpg")
                    } else {
                        m.to_owned()
                    }
                },
            }
        },
    }
}

/// Whether two strings hold the same characters.
pub fn str_eq(a: &str, b: &str) -> (r: bool)
    ensures
        r == (a@ == b@),
{
    let sa = String::from_str(a);
    let sb = String::from_str(b);
    sa == sb
}

/// The raw image path after the resolution preference is applied: a
/// `"UHD"` or `"1920x1080"` preference rewrites the leftmost
/// resolution suffix to its token; any other preference leaves the
/// path as the provider sent it.
pub open spec fn resolved_path_spec(raw: Seq<char>, resolution: Seq<char>) -> Seq<char> {
    if resolution == "UHD"@ {
        rewrite_spec(raw, "_UHD.jpg"@)
    } else if resolution == "1920x1080"@ {
        rewrite_spec(raw, "_1920x1080.jpg"@)
    } else {
        raw
    }
}

/// The absolute image URL: the fixed provider host followed by the
/// resolved path.
pub open spec fn image_url_spec(raw: Seq<char>, resolution: Seq<char>) -> Seq<char> {
    "https://www.bing.com"@ + resolved_path_spec(raw, resolution)
}

/// Derive the absolute image URL and the cache filename from the
/// provider's raw image path and the resolution preference.
pub fn resolve(raw_path: &str, resolution: &str) -> (r: (String, String))
    ensures
        r.0@ == image_url_spec(raw_path@, resolution@),
        r.1@ == filename_spec(resolved_path_spec(raw_path@, resolution@)),
{
    let modified: String = if str_eq(resolution, "UHD") {
        rewrite_resolution(raw_path, "_UHD.jpg")
    } else if str_eq(resolution, "1920x1080") {
        rewrite_resolution(raw_path, "_1920x1080.jpg")
    } else {
        raw_path.to_owned()
    };
    let mut url = String::from_str("https://www.bing.com");
    url.append(modified.as_str());
    let filename = extract_filename(modified.as_str());
    (url, filename)
}

/// The resolver is deterministic and side-effect-free: URL and
/// filename are functions of the raw path and the resolution alone,
/// so two calls on identical inputs yield identical results.
pub proof fn lemma_resolver_deterministic(
    raw1: Seq<char>,
    res1: Seq<char>,
    raw2: Seq<char>,
    res2: Seq<char>,
)
    requires
        raw1 == raw2,
        res1 == res2,
    ensures
        image_url_spec(raw1, res1) == image_url_spec(raw2, res2),
        filename_spec(resolved_path_spec(raw1, res1)) == filename_spec(
            resolved_path_spec(raw2, res2),
        ),
{
}

} // verus!
