use vstd::prelude::*;
use vstd::string::StrSliceExecFns;
use crate::memory::Memory;

verus! {

/// The reserved sentinel byte: a pattern byte with this value matches any
/// buffer byte at its position.
pub const WILDCARD: u8 = 0xCC;

/// The pattern matches the buffer at offset `i`: every non-wildcard
/// pattern byte equals the buffer byte under it.
pub open spec fn pat_matches_at(hay: Seq<u8>, pat: Seq<u8>, i: int) -> bool {
    forall|j: int| 0 <= j < pat.len() ==> (#[trigger] pat[j]) == WILDCARD || hay[i + j] == pat[j]
}

/// A hit the scanner can report at offset `i`: the pattern matches there
/// and the window stays inside the scanner's frame.  The scanner views the
/// range as a flat buffer shortened by one pattern length (so that no
/// window ever reads past the end of the range), hence a window must end
/// one pattern length before the end of the buffer.
pub open spec fn scan_hit(hay: Seq<u8>, pat: Seq<u8>, i: int) -> bool {
    &&& 0 <= i
    &&& i + 2 * pat.len() <= hay.len()
    &&& pat_matches_at(hay, pat, i)
}

/// The first hit at offset `from` or later.
pub open spec fn first_hit(hay: Seq<u8>, pat: Seq<u8>, from: int) -> Option<int>
    decreases hay.len() - from,
{
    if from < 0 || from + 2 * pat.len() > hay.len() {
        None
    } else if pat_matches_at(hay, pat, from) {
        Some(from)
    } else {
        first_hit(hay, pat, from + 1)
    }
}

/// The offset of the `k`-th hit (0-indexed) at `from` or later: each hit
/// that is not yet the target occurrence restarts the search one byte past
/// its own start.
pub open spec fn find_nth_from(hay: Seq<u8>, pat: Seq<u8>, from: int, k: nat) -> Option<int>
    decreases k,
{
    match first_hit(hay, pat, from) {
        None => None,
        Some(i) => if k == 0 {
            Some(i)
        } else {
            find_nth_from(hay, pat, i + 1, (k - 1) as nat)
        },
    }
}

/// The offset of the `k`-th (0-indexed) occurrence of the pattern in the
/// buffer, as the scanner frames it.
pub open spec fn find_nth(hay: Seq<u8>, pat: Seq<u8>, k: nat) -> Option<int> {
    find_nth_from(hay, pat, 0, k)
}

/// Whether the pattern matches the range's bytes at offset `i`.
fn matches_at_exec(mem: &Memory, start: usize, size: usize, pattern: &[u8], i: usize) -> (b: bool)
    requires
        mem.wf(),
        mem.covers(start as int, size as int),
        i + pattern@.len() <= size,
    ensures
        b == pat_matches_at(mem.bytes_at(start as int, size as int), pattern@, i as int),
{
    let ghost hay = mem.bytes_at(start as int, size as int);
    let plen = pattern.len();
    let off = start - mem.base;
    let mut j: usize = 0;
    while j < plen
        invariant
            mem.wf(),
            mem.covers(start as int, size as int),
            plen == pattern@.len(),
            i + plen <= size,
            off == start - mem.base,
            hay == mem.bytes_at(start as int, size as int),
            j <= plen,
            forall|jj: int| 0 <= jj < j ==> (#[trigger] pattern@[jj]) == WILDCARD
                || hay[i + jj] == pattern@[jj],
        decreases plen - j,
    {
        let pb = pattern[j];
        if pb != WILDCARD {
            let hb = mem.bytes[off + i + j];
            proof {
                assert(hay[i + j as int] == hb);
            }
            if hb != pb {
                proof {
                    assert(!(pattern@[j as int] == WILDCARD || hay[i + j as int] == pattern@[j as int]));
                }
                return false;
            }
        }
        j = j + 1;
    }
    true
}

/// Find the `goal`-th occurrence of the pattern inside the range of
/// `size` bytes at `start`, returning its offset from `start`.  The search
/// runs iteratively with an explicit running offset and match counter.
pub(crate) fn scan_nth(
    mem: &Memory,
    start: usize,
    size: usize,
    pattern: &[u8],
    goal: usize,
) -> (r: Option<usize>)
    requires
        mem.wf(),
        mem.covers(start as int, size as int),
        pattern@.len() >= 1,
    ensures
        match find_nth(mem.bytes_at(start as int, size as int), pattern@, goal as nat) {
            Some(i) => r matches Some(u) && u as int == i,
            None => r is None,
        },
{
    let ghost hay = mem.bytes_at(start as int, size as int);
    proof {
        assert(hay.len() == size);
    }
    let plen = pattern.len();
    if size < plen {
        proof {
            assert(first_hit(hay, pattern@, 0) == None::<int>);
            assert(find_nth_from(hay, pattern@, 0, goal as nat) == None::<int>);
        }
        return None;
    }
    let bound = size - plen;
    let mut i: usize = 0;
    let mut remaining: usize = goal;
    while i <= bound && plen <= bound - i
        invariant
            mem.wf(),
            mem.covers(start as int, size as int),
            plen == pattern@.len(),
            1 <= plen <= size,
            bound == size - plen,
            hay == mem.bytes_at(start as int, size as int),
            hay.len() == size,
            i <= size,
            remaining <= goal,
            find_nth_from(hay, pattern@, 0, goal as nat)
                == find_nth_from(hay, pattern@, i as int, remaining as nat),
        decreases bound - i,
    {
        if matches_at_exec(mem, start, size, pattern, i) {
            proof {
                assert(first_hit(hay, pattern@, i as int) == Some(i as int));
            }
            if remaining == 0 {
                proof {
                    assert(find_nth_from(hay, pattern@, i as int, 0) == Some(i as int));
                }
                return Some(i);
            }
            proof {
                assert(find_nth_from(hay, pattern@, i as int, remaining as nat)
                    == find_nth_from(hay, pattern@, i as int + 1, (remaining - 1) as nat));
            }
            remaining = remaining - 1;
        } else {
            proof {
                assert(first_hit(hay, pattern@, i as int)
                    == first_hit(hay, pattern@, i as int + 1));
                assert(find_nth_from(hay, pattern@, i as int, remaining as nat)
                    == find_nth_from(hay, pattern@, i as int + 1, remaining as nat));
            }
        }
        i = i + 1;
    }
    proof {
        assert(first_hit(hay, pattern@, i as int) == None::<int>);
        assert(find_nth_from(hay, pattern@, i as int, remaining as nat) == None::<int>);
    }
    None
}

/// A separator in the textual pattern form: an ASCII whitespace
/// character.
pub open spec fn is_space(c: char) -> bool {
    c == ' ' || c == '\t' || c == '\n' || c == '\r' || c as int == 0xB || c as int == 0xC
}

/// An ASCII hexadecimal digit.
pub open spec fn is_hex_digit(c: char) -> bool {
    ||| 0x30 <= c as int && c as int <= 0x39
    ||| 0x61 <= c as int && c as int <= 0x66
    ||| 0x41 <= c as int && c as int <= 0x46
}

/// The value of a hexadecimal digit.
pub open spec fn hex_val(c: char) -> int {
    if 0x30 <= c as int && c as int <= 0x39 {
        c as int - 0x30
    } else if 0x61 <= c as int && c as int <= 0x66 {
        c as int - 0x61 + 10
    } else {
        c as int - 0x41 + 10
    }
}

/// The index just past the token that starts at `i`: the first position at
/// or after `i` that holds a separator, or the end of the string.
pub open spec fn token_end(s: Seq<char>, i: int) -> int
    decreases s.len() - i,
{
    if i < 0 || i >= s.len() {
        s.len() as int
    } else if is_space(s[i]) {
        i
    } else {
        token_end(s, i + 1)
    }
}

proof fn lemma_token_end_bounds(s: Seq<char>, i: int)
    requires
        0 <= i <= s.len(),
    ensures
        i <= token_end(s, i) <= s.len(),
        i < s.len() && !is_space(s[i]) ==> i < token_end(s, i),
    decreases s.len() - i,
{
    if i < s.len() && !is_space(s[i]) {
        lemma_token_end_bounds(s, i + 1);
    }
}

/// The whitespace-separated tokens of the string, from position `i` on.
pub open spec fn tokens_from(s: Seq<char>, i: int) -> Seq<Seq<char>>
    decreases s.len() - i,
    via tokens_from_dec
{
    if i < 0 || i >= s.len() {
        Seq::empty()
    } else if is_space(s[i]) {
        tokens_from(s, i + 1)
    } else {
        seq![s.subrange(i, token_end(s, i))] + tokens_from(s, token_end(s, i))
    }
}

#[via_fn]
proof fn tokens_from_dec(s: Seq<char>, i: int) {
    if 0 <= i < s.len() && !is_space(s[i]) {
        lemma_token_end_bounds(s, i);
    }
}

/// A token that designates the wildcard: it contains the wildcard marker
/// character.
pub open spec fn token_is_wild(t: Seq<char>) -> bool {
    exists|i: int| 0 <= i < t.len() && t[i] == '?'
}

/// A well-formed token: either a wildcard marker or exactly two
/// hexadecimal digits.
pub open spec fn token_valid(t: Seq<char>) -> bool {
    token_is_wild(t) || (t.len() == 2 && is_hex_digit(t[0]) && is_hex_digit(t[1]))
}

/// The byte a token denotes.
pub open spec fn token_byte(t: Seq<char>) -> u8 {
    if token_is_wild(t) {
        WILDCARD
    } else {
        (hex_val(t[0]) * 16 + hex_val(t[1])) as u8
    }
}

/// A well-formed textual pattern: at least one token, and every token
/// either a wildcard marker or two hexadecimal digits.
pub open spec fn valid_pattern_str(s: Seq<char>) -> bool {
    &&& tokens_from(s, 0).len() >= 1
    &&& forall|i: int| 0 <= i < tokens_from(s, 0).len() ==> token_valid(#[trigger] tokens_from(s, 0)[i])
}

/// The bytes a token sequence denotes, token by token.
pub open spec fn bytes_of_tokens(toks: Seq<Seq<char>>) -> Seq<u8>
    decreases toks.len(),
{
    if toks.len() == 0 {
        Seq::empty()
    } else {
        seq![token_byte(toks[0])] + bytes_of_tokens(toks.drop_first())
    }
}

/// One byte per token.
pub proof fn lemma_bytes_of_tokens_len(toks: Seq<Seq<char>>)
    ensures
        bytes_of_tokens(toks).len() == toks.len(),
    decreases toks.len(),
{
    if toks.len() > 0 {
        lemma_bytes_of_tokens_len(toks.drop_first());
    }
}

/// The byte pattern a textual pattern denotes, token by token.
pub open spec fn pattern_bytes_of(s: Seq<char>) -> Seq<u8> {
    bytes_of_tokens(tokens_from(s, 0))
}

fn is_space_exec(c: char) -> (b: bool)
    ensures
        b == is_space(c),
{
    c == ' ' || c == '\t' || c == '\n' || c == '\r' || c as u32 == 0xB || c as u32 == 0xC
}

fn hex_val_exec(c: char) -> (r: u8)
    requires
        is_hex_digit(c),
    ensures
        r as int == hex_val(c),
{
    let x = c as u32;
    if x <= 0x39 {
        (x - 0x30) as u8
    } else if x >= 0x61 {
        (x - 0x61 + 10) as u8
    } else {
        (x - 0x41 + 10) as u8
    }
}

/// What `first_hit` returns is a hit at or after the starting offset.
pub proof fn lemma_first_hit_is_hit(hay: Seq<u8>, pat: Seq<u8>, from: int)
    ensures
        first_hit(hay, pat, from) matches Some(i) ==> scan_hit(hay, pat, i) && i >= from,
    decreases hay.len() - from,
{
    if !(from < 0 || from + 2 * pat.len() > hay.len()) && !pat_matches_at(hay, pat, from) {
        lemma_first_hit_is_hit(hay, pat, from + 1);
    }
}

/// What `find_nth_from` returns is a hit at or after the starting offset.
pub proof fn lemma_find_nth_is_hit(hay: Seq<u8>, pat: Seq<u8>, from: int, k: nat)
    ensures
        find_nth_from(hay, pat, from, k) matches Some(i) ==> scan_hit(hay, pat, i) && i >= from,
    decreases k,
{
    lemma_first_hit_is_hit(hay, pat, from);
    match first_hit(hay, pat, from) {
        None => {},
        Some(i) => {
            if k > 0 {
                lemma_find_nth_is_hit(hay, pat, i + 1, (k - 1) as nat);
            }
        },
    }
}

/// Translate the textual pattern form into its byte pattern: one byte per
/// whitespace-separated token, the wildcard sentinel for every token that
/// carries the wildcard marker.
pub(crate) fn parse_pattern(pattern: &str) -> (r: Vec<u8>)
    requires
        forall|k: int| 0 <= k < tokens_from(pattern@, 0).len()
            ==> token_valid(#[trigger] tokens_from(pattern@, 0)[k]),
    ensures
        r@ == pattern_bytes_of(pattern@),
        r@.len() == tokens_from(pattern@, 0).len(),
{
    let ghost s = pattern@;
    let n = pattern.unicode_len();
    let mut out: Vec<u8> = Vec::new();
    let mut i: usize = 0;
    while i < n
        invariant
            n == s.len(),
            s == pattern@,
            i <= n,
            pattern_bytes_of(s) == out@ + bytes_of_tokens(tokens_from(s, i as int)),
            forall|k: int| 0 <= k < tokens_from(s, i as int).len()
                ==> token_valid(#[trigger] tokens_from(s, i as int)[k]),
        decreases n - i,
    {
        let c = pattern.get_char(i);
        if is_space_exec(c) {
            proof {
                assert(tokens_from(s, i as int) == tokens_from(s, i as int + 1));
            }
            i = i + 1;
        } else {
            let mut e: usize = i;
            while e < n && !is_space_exec(pattern.get_char(e))
                invariant
                    n == s.len(),
                    s == pattern@,
                    i <= e <= n,
                    token_end(s, i as int) == token_end(s, e as int),
                decreases n - e,
            {
                proof {
                    assert(token_end(s, e as int) == token_end(s, e as int + 1));
                }
                e = e + 1;
            }
            proof {
                assert(token_end(s, e as int) == e as int);
                assert(token_end(s, i as int) == e as int);
            }
            let ghost t = s.subrange(i as int, e as int);
            proof {
                assert(tokens_from(s, i as int)
                    =~= seq![t] + tokens_from(s, e as int));
                assert(tokens_from(s, i as int)[0] == t);
                assert(token_valid(t));
            }
            // does the token carry the wildcard marker?
            let mut wild = false;
            let mut j: usize = i;
            while j < e
                invariant
                    n == s.len(),
                    s == pattern@,
                    i <= j <= e <= n,
                    t == s.subrange(i as int, e as int),
                    wild == exists|x: int| 0 <= x < j - i && #[trigger] s[i + x] == '?',
                decreases e - j,
            {
                if pattern.get_char(j) == '?' {
                    proof {
                        assert(s[i + (j - i)] == '?');
                    }
                    wild = true;
                }
                j = j + 1;
            }
            proof {
                if wild {
                    let x = choose|x: int| 0 <= x < e - i && #[trigger] s[i + x] == '?';
                    assert(t[x] == '?');
                    assert(token_is_wild(t));
                } else {
                    if token_is_wild(t) {
                        let x = choose|x: int| 0 <= x < t.len() && t[x] == '?';
                        assert(s[i + x] == '?');
                        assert(false);
                    }
                }
            }
            if wild {
                out.push(WILDCARD);
            } else {
                proof {
                    assert(t.len() == 2);
                    assert(t[0] == s[i as int] && t[1] == s[i as int + 1]);
                }
                let c1 = pattern.get_char(i);
                let c2 = pattern.get_char(i + 1);
                let v = hex_val_exec(c1) * 16 + hex_val_exec(c2);
                proof {
                    assert(v as int == token_byte(t));
                }
                out.push(v);
            }
            proof {
                assert(bytes_of_tokens(tokens_from(s, i as int))
                    =~= seq![token_byte(t)] + bytes_of_tokens(tokens_from(s, e as int))) by {
                    assert((seq![t] + tokens_from(s, e as int)).drop_first()
                        =~= tokens_from(s, e as int));
                }
                assert(out@ =~= out@.subrange(0, out@.len() - 1) + seq![token_byte(t)]);
                assert(forall|k: int| 0 <= k < tokens_from(s, e as int).len()
                    ==> #[trigger] tokens_from(s, e as int)[k] == tokens_from(s, i as int)[k + 1]);
            }
            i = e;
        }
    }
    proof {
        assert(tokens_from(s, i as int) == Seq::<Seq<char>>::empty());
        assert(out@ + bytes_of_tokens(tokens_from(s, i as int)) =~= out@);
        lemma_bytes_of_tokens_len(tokens_from(s, 0));
    }
    out
}

/// Two scans of the same buffer for the same pattern and the same
/// occurrence index always yield the same result.
pub proof fn lemma_scan_deterministic(
    hay: Seq<u8>,
    pat: Seq<u8>,
    k: nat,
    r1: Option<int>,
    r2: Option<int>,
)
    requires
        r1 == find_nth(hay, pat, k),
        r2 == find_nth(hay, pat, k),
    ensures
        r1 == r2,
{
}

proof fn lemma_wildcard_nth_from(hay: Seq<u8>, pat: Seq<u8>, from: int, k: nat)
    requires
        pat.len() >= 1,
        forall|i: int| 0 <= i < pat.len() ==> #[trigger] pat[i] == WILDCARD,
        0 <= from,
        from + k + 2 * pat.len() <= hay.len(),
    ensures
        find_nth_from(hay, pat, from, k) == Some(from + k),
    decreases k,
{
    assert(pat_matches_at(hay, pat, from));
    assert(first_hit(hay, pat, from) == Some(from));
    if k > 0 {
        lemma_wildcard_nth_from(hay, pat, from + 1, (k - 1) as nat);
    }
}

/// A pattern made only of wildcard bytes, of length `L`, matches the
/// buffer at every offset `0..=(hay.len() - L)`; and requesting the `k`-th
/// occurrence from the scanner returns offset `k`, for every `k` whose
/// window the scanner's frame admits (`k + 2 * L <= hay.len()`).
pub proof fn lemma_wildcard_pattern(hay: Seq<u8>, pat: Seq<u8>, k: nat)
    requires
        pat.len() >= 1,
        forall|i: int| 0 <= i < pat.len() ==> #[trigger] pat[i] == WILDCARD,
    ensures
        forall|i: int| 0 <= i <= hay.len() - pat.len() ==> pat_matches_at(hay, pat, i),
        k + 2 * pat.len() <= hay.len() ==> find_nth(hay, pat, k) == Some(k as int),
{
    assert forall|i: int| 0 <= i <= hay.len() - pat.len() implies pat_matches_at(hay, pat, i) by {
        assert(forall|j: int| 0 <= j < pat.len() ==> #[trigger] pat[j] == WILDCARD);
    }
    if k + 2 * pat.len() <= hay.len() {
        lemma_wildcard_nth_from(hay, pat, 0, k);
    }
}

} // verus!
