//! Query-string parsing for authorization redirects: finding the query part
//! of a URL, splitting it into `key=value` pairs, and looking a parameter up
//! by its decoded key.

use vstd::prelude::*;

use crate::pct::{pct_decode, pct_decoded};

verus! {

/// Index of the first occurrence of `c` in `s`, if any.
pub open spec fn find_char(s: Seq<char>, c: char) -> Option<int>
    decreases s.len(),
{
    if s.len() == 0 {
        None
    } else if s[0] == c {
        Some(0int)
    } else {
        match find_char(s.skip(1), c) {
            Some(i) => Some(i + 1),
            None => None,
        }
    }
}

proof fn lemma_find_char_in_range(s: Seq<char>, c: char)
    ensures
        match find_char(s, c) {
            Some(i) => 0 <= i < s.len(),
            None => true,
        },
    decreases s.len(),
{
    if s.len() > 0 && s[0] != c {
        lemma_find_char_in_range(s.skip(1), c);
    }
}

proof fn lemma_find_char_absent(s: Seq<char>, c: char)
    requires
        forall|j: int| 0 <= j < s.len() ==> s[j] != c,
    ensures
        find_char(s, c) is None,
    decreases s.len(),
{
    if s.len() > 0 {
        assert forall|j: int| 0 <= j < s.skip(1).len() implies s.skip(1)[j] != c by {
            assert(s.skip(1)[j] == s[j + 1]);
        }
        lemma_find_char_absent(s.skip(1), c);
    }
}

proof fn lemma_find_char_first(s: Seq<char>, c: char, k: int)
    requires
        0 <= k < s.len(),
        s[k] == c,
        forall|j: int| 0 <= j < k ==> s[j] != c,
    ensures
        find_char(s, c) == Some(k),
    decreases s.len(),
{
    if k > 0 {
        assert forall|j: int| 0 <= j < k - 1 implies s.skip(1)[j] != c by {
            assert(s.skip(1)[j] == s[j + 1]);
        }
        assert(s.skip(1)[k - 1] == s[k]);
        lemma_find_char_first(s.skip(1), c, k - 1);
    }
}

/// Finds `c` in `s` at or after character position `from`; what it returns
/// is `find_char` on the suffix, shifted back to an absolute position.
fn find_from(s: &str, from: usize, c: char) -> (r: Option<usize>)
    requires
        from as int <= s@.len(),
    ensures
        match r {
            Some(i) => from <= i && (i as int) < s@.len() && find_char(
                s@.skip(from as int),
                c,
            ) == Some(i - from),
            None => find_char(s@.skip(from as int), c) is None,
        },
{
    let n = s.unicode_len();
    let mut i: usize = from;
    while i < n
        invariant
            from <= i <= n,
            n == s@.len(),
            forall|j: int| from <= j < i ==> s@[j] != c,
        decreases n - i,
    {
        if s.get_char(i) == c {
            proof {
                let t = s@.skip(from as int);
                assert(t[i - from] == s@[i as int]);
                assert forall|j: int| 0 <= j < i - from implies t[j] != c by {
                    assert(t[j] == s@[j + from]);
                }
                lemma_find_char_first(t, c, i - from);
            }
            return Some(i);
        }
        i += 1;
    }
    proof {
        let t = s@.skip(from as int);
        assert forall|j: int| 0 <= j < t.len() implies t[j] != c by {
            assert(t[j] == s@[j + from]);
        }
        lemma_find_char_absent(t, c);
    }
    None
}

/// The query part of a URL: what stands between the first `?` and the next
/// `#` (or the end); empty when the URL has no `?`.
pub open spec fn query_of(url: Seq<char>) -> Seq<char> {
    match find_char(url, '?') {
        None => Seq::empty(),
        Some(i) => {
            let rest = url.skip(i + 1);
            match find_char(rest, '#') {
                None => rest,
                Some(j) => rest.take(j),
            }
        },
    }
}

/// Raw key and value of one `key=value` segment; the value is empty when the
/// segment has no `=`.
pub open spec fn split_pair(seg: Seq<char>) -> (Seq<char>, Seq<char>) {
    match find_char(seg, '=') {
        None => (seg, Seq::empty()),
        Some(i) => (seg.take(i), seg.skip(i + 1)),
    }
}

/// The raw pairs of a query string: the `&`-separated segments in order,
/// empty segments skipped.
pub open spec fn raw_pairs(q: Seq<char>) -> Seq<(Seq<char>, Seq<char>)>
    decreases q.len(),
    via raw_pairs_decreases
{
    if q.len() == 0 {
        Seq::empty()
    } else {
        match find_char(q, '&') {
            None => seq![split_pair(q)],
            Some(i) => if i == 0 {
                raw_pairs(q.skip(1))
            } else {
                seq![split_pair(q.take(i))] + raw_pairs(q.skip(i + 1))
            },
        }
    }
}

#[via_fn]
proof fn raw_pairs_decreases(q: Seq<char>) {
    lemma_find_char_in_range(q, '&');
}

/// The decoded value of the first pair whose decoded key is `key`.
pub open spec fn lookup_decoded(ps: Seq<(Seq<char>, Seq<char>)>, key: Seq<char>) -> Option<
    Seq<char>,
>
    decreases ps.len(),
{
    if ps.len() == 0 {
        None
    } else if pct_decoded(ps[0].0) == key {
        Some(pct_decoded(ps[0].1))
    } else {
        lookup_decoded(ps.drop_first(), key)
    }
}

/// The decoded value of the first query parameter of `url` named `key`, if
/// any: the composition of `query_of`, `raw_pairs` and `lookup_decoded`.
pub open spec fn query_param(url: Seq<char>, key: Seq<char>) -> Option<Seq<char>> {
    lookup_decoded(raw_pairs(query_of(url)), key)
}

proof fn lemma_lookup_cons(
    x: (Seq<char>, Seq<char>),
    rest: Seq<(Seq<char>, Seq<char>)>,
    key: Seq<char>,
)
    ensures
        lookup_decoded(seq![x] + rest, key) == (if pct_decoded(x.0) == key {
            Some(pct_decoded(x.1))
        } else {
            lookup_decoded(rest, key)
        }),
{
    let ps = seq![x] + rest;
    assert(ps[0] == x);
    assert(ps.drop_first() =~= rest);
}

proof fn lemma_lookup_single(x: (Seq<char>, Seq<char>), key: Seq<char>)
    ensures
        lookup_decoded(seq![x], key) == (if pct_decoded(x.0) == key {
            Some(pct_decoded(x.1))
        } else {
            None::<Seq<char>>
        }),
{
    assert(seq![x][0] == x);
    assert(seq![x].drop_first() =~= Seq::<(Seq<char>, Seq<char>)>::empty());
    assert(lookup_decoded(Seq::<(Seq<char>, Seq<char>)>::empty(), key) is None);
}

/// First position at or after `i` that does not hold a space.
pub open spec fn past_spaces(s: Seq<char>, i: int) -> int
    decreases s.len() - i,
{
    if i < 0 || i >= s.len() {
        i
    } else if s[i] == ' ' {
        past_spaces(s, i + 1)
    } else {
        i
    }
}

/// First position at or after `i` that holds a space (or the end).
pub open spec fn token_end(s: Seq<char>, i: int) -> int
    decreases s.len() - i,
{
    if i < 0 || i >= s.len() {
        i
    } else if s[i] != ' ' {
        token_end(s, i + 1)
    } else {
        i
    }
}

/// The request target of an HTTP request line: the second space-separated
/// token (`METHOD target VERSION`), or nothing when the line has no second
/// token.
pub open spec fn request_target(line: Seq<char>) -> Option<Seq<char>> {
    let method_start = past_spaces(line, 0);
    let method_end = token_end(line, method_start);
    let target_start = past_spaces(line, method_end);
    let target_end = token_end(line, target_start);
    if method_start < method_end && target_start < target_end {
        Some(line.subrange(target_start, target_end))
    } else {
        None
    }
}

fn past_spaces_exec(s: &str, n: usize, from: usize) -> (r: usize)
    requires
        from <= n,
        n == s@.len(),
    ensures
        from <= r <= n,
        r as int == past_spaces(s@, from as int),
    decreases n - from,
{
    if from < n && s.get_char(from) == ' ' {
        past_spaces_exec(s, n, from + 1)
    } else {
        from
    }
}

fn token_end_exec(s: &str, n: usize, from: usize) -> (r: usize)
    requires
        from <= n,
        n == s@.len(),
    ensures
        from <= r <= n,
        r as int == token_end(s@, from as int),
    decreases n - from,
{
    if from < n && s.get_char(from) != ' ' {
        token_end_exec(s, n, from + 1)
    } else {
        from
    }
}

/// Reads the request target out of the first line of an HTTP request,
/// exactly as `request_target` describes. Only this one line is ever
/// parsed; the redirect receiver reads no body and no further headers.
pub fn request_line_target(line: &str) -> (r: Option<String>)
    ensures
        match r {
            Some(t) => request_target(line@) == Some(t@),
            None => request_target(line@) is None,
        },
{
    let n = line.unicode_len();
    let method_start = past_spaces_exec(line, n, 0);
    let method_end = token_end_exec(line, n, method_start);
    let target_start = past_spaces_exec(line, n, method_end);
    let target_end = token_end_exec(line, n, target_start);
    if method_start < method_end && target_start < target_end {
        let t = line.substring_char(target_start, target_end);
        Some(t.to_owned())
    } else {
        None
    }
}

/// Looks up a query parameter of `url` by name and percent-decodes it,
/// exactly as `query_param` describes.
pub fn extract_query_param(url: &str, key: &str) -> (r: Option<String>)
    ensures
        match r {
            Some(v) => query_param(url@, key@) == Some(v@),
            None => query_param(url@, key@) is None,
        },
{
    proof {
        assert(url@.skip(0) =~= url@);
    }
    let n = url.unicode_len();
    let qstart: usize = match find_from(url, 0, '?') {
        Some(i) => i + 1,
        None => {
            return None;
        },
    };
    let qend: usize = match find_from(url, qstart, '#') {
        Some(h) => h,
        None => n,
    };
    let q = url.substring_char(qstart, qend);
    proof {
        assert(q@ =~= query_of(url@));
    }
    let keys = key.to_owned();
    let m = q.unicode_len();
    let mut p: usize = 0;
    proof {
        assert(q@.skip(0) =~= q@);
    }
    while p < m
        invariant
            p <= m,
            m == q@.len(),
            keys@ == key@,
            query_param(url@, key@) == lookup_decoded(raw_pairs(q@.skip(p as int)), key@),
        decreases m - p,
    {
        let ghost t = q@.skip(p as int);
        let e: usize = match find_from(q, p, '&') {
            Some(i) => i,
            None => m,
        };
        if e == p {
            // An empty segment: only its separator is consumed.
            proof {
                assert(t.skip(1) =~= q@.skip(p + 1));
            }
            p += 1;
        } else {
            let seg = q.substring_char(p, e);
            proof {
                if e < m {
                    assert(seg@ =~= t.take(e - p));
                } else {
                    assert(seg@ =~= t);
                }
            }
            let seg_len = seg.unicode_len();
            let (kraw, vraw) = match find_from(seg, 0, '=') {
                Some(j) => (seg.substring_char(0, j), seg.substring_char(j + 1, seg_len)),
                None => (seg, seg.substring_char(0, 0)),
            };
            proof {
                assert(seg@.skip(0) =~= seg@);
                assert(kraw@ =~= split_pair(seg@).0);
                assert(vraw@ =~= split_pair(seg@).1);
                if e < m {
                    assert(t.skip(e - p + 1) =~= q@.skip(e + 1));
                    lemma_lookup_cons(split_pair(seg@), raw_pairs(q@.skip(e + 1)), key@);
                } else {
                    lemma_lookup_single(split_pair(seg@), key@);
                }
            }
            let dk = pct_decode(kraw);
            if dk == keys {
                let dv = pct_decode(vraw);
                return Some(dv);
            }
            if e == m {
                proof {
                    assert(q@.skip(m as int) =~= Seq::<char>::empty());
                }
                p = m;
            } else {
                proof {
                    assert(t.skip(e - p + 1) =~= q@.skip(e + 1));
                }
                p = e + 1;
            }
        }
    }
    proof {
        assert(q@.skip(m as int) =~= Seq::<char>::empty());
    }
    None
}

} // verus!
