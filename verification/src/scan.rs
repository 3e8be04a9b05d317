use vstd::prelude::*;

verus! {

use vstd::string::*;

/// The characters the scan skips between an array's brackets and the
/// braces of its objects: the usual whitespace class.
pub open spec fn is_ws(c: char) -> bool {
    c == ' ' || c == '\t' || c == '\n' || c == '\r' || c == '\x0B' || c == '\x0C'
}

/// The first position at or after `i` that is past the end of `s` or
/// holds a non-whitespace character.
pub open spec fn ws_end(s: Seq<char>, i: int) -> int
    decreases s.len() - i,
{
    if i < 0 || i >= s.len() || !is_ws(s[i]) {
        i
    } else {
        ws_end(s, i + 1)
    }
}

pub proof fn lemma_ws_end(s: Seq<char>, i: int)
    requires
        0 <= i <= s.len(),
    ensures
        i <= ws_end(s, i) <= s.len(),
        ws_end(s, i) < s.len() ==> !is_ws(s[ws_end(s, i)]),
        forall|k: int| i <= k < ws_end(s, i) ==> is_ws(s[k]),
    decreases s.len() - i,
{
    if i < s.len() && is_ws(s[i]) {
        lemma_ws_end(s, i + 1);
    }
}

/// The least position at or after `p` holding a `}` whose following
/// whitespace run is ended by a `]`; the result is that `]`'s position.
pub open spec fn close_from(s: Seq<char>, p: int) -> Option<int>
    decreases s.len() - p,
{
    if p < 0 || p >= s.len() {
        None
    } else if s[p] == '}' && ws_end(s, p + 1) < s.len() && s[ws_end(s, p + 1)] == ']' {
        Some(ws_end(s, p + 1))
    } else {
        close_from(s, p + 1)
    }
}

pub proof fn lemma_close_from_bounds(s: Seq<char>, p: int)
    requires
        close_from(s, p) is Some,
    ensures
        p < close_from(s, p)->0 < s.len(),
    decreases s.len() - p,
{
    if 0 <= p < s.len() {
        if s[p] == '}' && ws_end(s, p + 1) < s.len() && s[ws_end(s, p + 1)] == ']' {
            lemma_ws_end(s, p + 1);
        } else {
            lemma_close_from_bounds(s, p + 1);
        }
    }
}

/// Whether a JSON-array-shaped span begins at `i`: a `[`, optional
/// whitespace, a `{`, and later the first `}` that optional whitespace
/// and a `]` follow. The result is the position of that `]`.
pub open spec fn match_end_at(s: Seq<char>, i: int) -> Option<int> {
    if 0 <= i < s.len() && s[i] == '[' {
        let j = ws_end(s, i + 1);
        if j < s.len() && s[j] == '{' {
            close_from(s, j + 1)
        } else {
            None
        }
    } else {
        None
    }
}

pub proof fn lemma_match_end_bounds(s: Seq<char>, i: int)
    requires
        match_end_at(s, i) is Some,
    ensures
        i + 2 < match_end_at(s, i)->0 < s.len(),
{
    let j = ws_end(s, i + 1);
    lemma_ws_end(s, i + 1);
    lemma_close_from_bounds(s, j + 1);
}

/// The last array-shaped span found by scanning left to right from
/// `from`, taking at each hit the span's end and continuing past it.
pub open spec fn last_match_from(s: Seq<char>, from: int) -> Option<(int, int)>
    decreases s.len() - from,
{
    if from < 0 || from >= s.len() {
        None
    } else {
        match match_end_at(s, from) {
            None => last_match_from(s, from + 1),
            Some(e) => {
                proof {
                    lemma_match_end_bounds(s, from);
                }
                match last_match_from(s, e + 1) {
                    None => Some((from, e)),
                    Some(m) => Some(m),
                }
            },
        }
    }
}

/// The scan comes back empty exactly when no array-shaped span starts
/// anywhere at or after `from`.
pub proof fn lemma_scan_none_iff_no_match(s: Seq<char>, from: int)
    requires
        0 <= from,
    ensures
        last_match_from(s, from) is None <==> (forall|i: int|
            from <= i < s.len() ==> match_end_at(s, i) is None),
    decreases s.len() - from,
{
    if from < s.len() {
        match match_end_at(s, from) {
            None => {
                lemma_scan_none_iff_no_match(s, from + 1);
            },
            Some(e) => {
                assert(match_end_at(s, from) is Some);
            },
        }
    }
}

fn is_ws_exec(c: char) -> (r: bool)
    ensures
        r == is_ws(c),
{
    c == ' ' || c == '\t' || c == '\n' || c == '\r' || c == '\x0B' || c == '\x0C'
}

fn ws_end_exec(s: &str, i: usize, n: usize) -> (r: usize)
    requires
        n == s@.len(),
        i <= n,
    ensures
        r == ws_end(s@, i as int),
{
    let mut p: usize = i;
    while p < n
        invariant
            i <= p <= n,
            n == s@.len(),
            ws_end(s@, i as int) == ws_end(s@, p as int),
        decreases n - p,
    {
        if is_ws_exec(s.get_char(p)) {
            p = p + 1;
        } else {
            return p;
        }
    }
    p
}

fn close_from_exec(s: &str, p: usize, n: usize) -> (r: Option<usize>)
    requires
        n == s@.len(),
        p <= n,
    ensures
        match r {
            Some(e) => close_from(s@, p as int) == Some(e as int),
            None => close_from(s@, p as int) is None,
        },
{
    let mut q: usize = p;
    while q < n
        invariant
            p <= q <= n,
            n == s@.len(),
            close_from(s@, p as int) == close_from(s@, q as int),
        decreases n - q,
    {
        if s.get_char(q) == '}' {
            let w = ws_end_exec(s, q + 1, n);
            proof {
                lemma_ws_end(s@, q + 1);
            }
            if w < n && s.get_char(w) == ']' {
                return Some(w);
            }
        }
        q = q + 1;
    }
    None
}

fn match_end_exec(s: &str, i: usize, n: usize) -> (r: Option<usize>)
    requires
        n == s@.len(),
        i < n,
    ensures
        match r {
            Some(e) => match_end_at(s@, i as int) == Some(e as int),
            None => match_end_at(s@, i as int) is None,
        },
{
    if s.get_char(i) != '[' {
        return None;
    }
    let j = ws_end_exec(s, i + 1, n);
    proof {
        lemma_ws_end(s@, i + 1);
    }
    if j < n && s.get_char(j) == '{' {
        close_from_exec(s, j + 1, n)
    } else {
        None
    }
}

/// Finds the last JSON-array-shaped span in `s` — a `[` and `{` opening
/// it, and the first `}`-then-`]` closing it — scanning left to right
/// and continuing past each hit; returns that span's text.
pub fn last_json_array<'a>(s: &'a str) -> (r: Option<&'a str>)
    ensures
        match last_match_from(s@, 0) {
            None => r is None,
            Some(m) => r is Some && r->0@ == s@.subrange(m.0, m.1 + 1),
        },
{
    let n = s.unicode_len();
    let mut from: usize = 0;
    let mut found: Option<(usize, usize)> = None;
    while from < n
        invariant
            from <= n,
            n == s@.len(),
            match found {
                None => last_match_from(s@, 0) == last_match_from(s@, from as int),
                Some(f) => f.0 < f.1 && f.1 < n && last_match_from(s@, 0) == (
                if last_match_from(s@, from as int) is Some {
                    last_match_from(s@, from as int)
                } else {
                    Some((f.0 as int, f.1 as int))
                }),
            },
        decreases n - from,
    {
        match match_end_exec(s, from, n) {
            Some(e) => {
                proof {
                    lemma_match_end_bounds(s@, from as int);
                }
                found = Some((from, e));
                from = e + 1;
            },
            None => {
                from = from + 1;
            },
        }
    }
    match found {
        Some(f) => Some(s.substring_char(f.0, f.1 + 1)),
        None => None,
    }
}

} // verus!
