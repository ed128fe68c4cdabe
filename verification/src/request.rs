//! The request-line parser: extracting the request target from the
//! raw byte buffer read off a connection.

use vstd::prelude::*;

verus! {

/// Whether `b` is an ASCII whitespace byte: tab, line feed, vertical
/// tab, form feed, carriage return or space.
pub open spec fn is_ws(b: u8) -> bool {
    b == 9 || b == 10 || b == 11 || b == 12 || b == 13 || b == 32
}

/// The first index at or after `i` whose byte is a line feed, or
/// `s.len()` when none is.
pub open spec fn find_nl(s: Seq<u8>, i: int) -> int
    decreases s.len() - i,
{
    if i < 0 || i >= s.len() {
        s.len() as int
    } else if s[i] == 10 {
        i
    } else {
        find_nl(s, i + 1)
    }
}

/// The first index at or after `i` whose byte is whitespace (when
/// `want_ws`) or non-whitespace (when not), or `s.len()` when none is.
pub open spec fn scan_from(s: Seq<u8>, i: int, want_ws: bool) -> int
    decreases s.len() - i,
{
    if i < 0 || i >= s.len() {
        s.len() as int
    } else if is_ws(s[i]) == want_ws {
        i
    } else {
        scan_from(s, i + 1, want_ws)
    }
}

/// The request target named by a raw request buffer: the second
/// whitespace-delimited token of the first line (the line up to the
/// first line feed).  When the buffer has no second token, the literal
/// root path `/` stands in.
pub open spec fn spec_target(buf: Seq<u8>) -> Seq<u8> {
    let line = buf.take(find_nl(buf, 0));
    let method_start = scan_from(line, 0, false);
    let method_end = scan_from(line, method_start, true);
    let target_start = scan_from(line, method_end, false);
    let target_end = scan_from(line, target_start, true);
    if target_start >= line.len() {
        seq![47u8]
    } else {
        line.subrange(target_start, target_end)
    }
}

proof fn lemma_find_nl(s: Seq<u8>, i: int)
    requires
        0 <= i <= s.len(),
    ensures
        i <= find_nl(s, i) <= s.len(),
        forall|k: int| i <= k < find_nl(s, i) ==> s[k] != 10,
        find_nl(s, i) < s.len() ==> s[find_nl(s, i)] == 10,
    decreases s.len() - i,
{
    if i < s.len() && s[i] != 10 {
        lemma_find_nl(s, i + 1);
    }
}

proof fn lemma_scan_from(s: Seq<u8>, i: int, want_ws: bool)
    requires
        0 <= i <= s.len(),
    ensures
        i <= scan_from(s, i, want_ws) <= s.len(),
        forall|k: int| i <= k < scan_from(s, i, want_ws) ==> is_ws(s[k]) != want_ws,
        scan_from(s, i, want_ws) < s.len() ==> is_ws(s[scan_from(s, i, want_ws)]) == want_ws,
    decreases s.len() - i,
{
    if i < s.len() && is_ws(s[i]) != want_ws {
        lemma_scan_from(s, i + 1, want_ws);
    }
}

/// Whether `b` is an ASCII whitespace byte.
fn ws(b: u8) -> (r: bool)
    ensures
        r == is_ws(b),
{
    b == 9 || b == 10 || b == 11 || b == 12 || b == 13 || b == 32
}

/// The first position in `buf[from..end]` holding a whitespace byte
/// (when `want_ws`) or a non-whitespace byte (when not), or `end`.
fn scan(buf: &[u8], from: usize, end: usize, want_ws: bool) -> (r: usize)
    requires
        from <= end <= buf@.len(),
    ensures
        from <= r <= end,
        r == scan_from(buf@.take(end as int), from as int, want_ws),
{
    let ghost line = buf@.take(end as int);
    let mut i: usize = from;
    while i < end
        invariant
            from <= i <= end <= buf@.len(),
            line == buf@.take(end as int),
            forall|k: int| from <= k < i ==> is_ws(line[k]) != want_ws,
        decreases end - i,
    {
        if ws(buf[i]) == want_ws {
            proof {
                lemma_scan_from(line, from as int, want_ws);
                let f = scan_from(line, from as int, want_ws);
                assert(line[i as int] == buf@[i as int]);
                if f < i {
                    assert(is_ws(line[f]) == want_ws);
                }
                if f > i {
                    assert(is_ws(line[i as int]) != want_ws);
                }
            }
            return i;
        }
        proof {
            assert(line[i as int] == buf@[i as int]);
        }
        i = i + 1;
    }
    proof {
        lemma_scan_from(line, from as int, want_ws);
        let f = scan_from(line, from as int, want_ws);
        if f < end {
            assert(is_ws(line[f]) == want_ws);
        }
    }
    end
}

/// Extract the request target from a raw request buffer: the second
/// whitespace-delimited token of the first line, or `/` when the buffer
/// holds no second token.  The target is returned unvalidated, as its
/// bytes stand in the buffer.
pub fn requested_target(buf: &[u8]) -> (t: Vec<u8>)
    ensures
        t@ == spec_target(buf@),
{
    let n = buf.len();
    let mut nl: usize = 0;
    while nl < n && buf[nl] != 10
        invariant
            nl <= n,
            n == buf@.len(),
            forall|k: int| 0 <= k < nl ==> buf@[k] != 10,
        decreases n - nl,
    {
        nl = nl + 1;
    }
    proof {
        lemma_find_nl(buf@, 0);
        let f = find_nl(buf@, 0);
        if f < nl {
            assert(buf@[f] == 10);
        }
        if f > nl {
            assert(buf@[nl as int] != 10);
        }
        assert(nl == find_nl(buf@, 0));
    }
    let ghost line = buf@.take(nl as int);
    let method_start = scan(buf, 0, nl, false);
    let method_end = scan(buf, method_start, nl, true);
    let target_start = scan(buf, method_end, nl, false);
    let target_end = scan(buf, target_start, nl, true);
    if target_start >= nl {
        let mut t: Vec<u8> = Vec::new();
        t.push(47u8);
        proof {
            assert(t@ =~= seq![47u8]);
        }
        t
    } else {
        let mut t: Vec<u8> = Vec::new();
        let mut i: usize = target_start;
        while i < target_end
            invariant
                target_start <= i <= target_end,
                target_end <= nl <= buf@.len(),
                t@ == buf@.subrange(target_start as int, i as int),
            decreases target_end - i,
        {
            t.push(buf[i]);
            proof {
                assert(t@ =~= buf@.subrange(target_start as int, i + 1));
            }
            i = i + 1;
        }
        proof {
            assert(t@ =~= line.subrange(target_start as int, target_end as int));
        }
        t
    }
}

} // verus!
