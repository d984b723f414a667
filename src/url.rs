use vstd::prelude::*;

verus! {

/// Index just past the last `'/'` in `s`, or 0 when `s` holds none.
pub open spec fn segment_start(s: Seq<char>) -> int
    decreases s.len(),
{
    if s.len() == 0 {
        0
    } else if s.last() == '/' {
        s.len() as int
    } else {
        segment_start(s.drop_last())
    }
}

/// Index of the first `'?'` in `s` at or after `i`, or `s.len()` when there is none.
pub open spec fn query_start_from(s: Seq<char>, i: int) -> int
    decreases s.len() - i,
{
    if i >= s.len() {
        s.len() as int
    } else if s[i] == '?' {
        i
    } else {
        query_start_from(s, i + 1)
    }
}

/// The last `/`-separated segment of `url`.
pub open spec fn last_segment(url: Seq<char>) -> Seq<char> {
    url.subrange(segment_start(url), url.len() as int)
}

/// The filename named by `url`: its last segment, cut at the first `'?'`.
pub open spec fn filename_of_url(url: Seq<char>) -> Seq<char> {
    let seg = last_segment(url);
    seg.subrange(0, query_start_from(seg, 0))
}

proof fn lemma_segment_start_bounds(s: Seq<char>)
    ensures
        0 <= segment_start(s) <= s.len(),
    decreases s.len(),
{
    if s.len() > 0 && s.last() != '/' {
        lemma_segment_start_bounds(s.drop_last());
    }
}

proof fn lemma_query_start_bounds(s: Seq<char>, i: int)
    requires
        0 <= i <= s.len(),
    ensures
        i <= query_start_from(s, i) <= s.len(),
    decreases s.len() - i,
{
    if i < s.len() && s[i] != '?' {
        lemma_query_start_bounds(s, i + 1);
    }
}

/// Extracts the filename from a source URL: the text after the last `'/'`,
/// up to (not including) the first `'?'` in it. A URL that ends in `'/'`
/// gives the empty name.
pub fn get_filename_from_url(url: String) -> (r: String)
    ensures
        r@ == filename_of_url(url@),
{
    let s: &str = url.as_str();
    let n: usize = s.unicode_len();
    let mut start: usize = 0;
    let mut i: usize = 0;
    while i < n
        invariant
            n == s@.len(),
            s@ == url@,
            i <= n,
            start <= i,
            start as int == segment_start(s@.subrange(0, i as int)),
        decreases n - i,
    {
        let c = s.get_char(i);
        proof {
            let p = s@.subrange(0, i as int + 1);
            assert(p.drop_last() =~= s@.subrange(0, i as int));
        }
        if c == '/' {
            start = i + 1;
        }
        i = i + 1;
    }
    assert(s@.subrange(0, n as int) =~= s@);
    proof {
        lemma_segment_start_bounds(s@);
    }
    let seg: &str = s.substring_char(start, n);
    let m: usize = n - start;
    let mut j: usize = 0;
    while j < m && seg.get_char(j) != '?'
        invariant
            m == seg@.len(),
            j <= m,
            query_start_from(seg@, 0) == query_start_from(seg@, j as int),
        decreases m - j,
    {
        j = j + 1;
    }
    proof {
        lemma_query_start_bounds(seg@, j as int);
        assert(query_start_from(seg@, j as int) == j);
    }
    let name: &str = seg.substring_char(0, j);
    String::from_str(name)
}

} // verus!
