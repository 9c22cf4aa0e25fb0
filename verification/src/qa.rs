//! QA switches read from the page URL query (`location.search`), e.g.
//! `?qa_matrix=1&qa_go_ms=3000`. The query is handled as the UTF-8 bytes
//! of the string; trimming removes every `char::is_whitespace` character.

use vstd::prelude::*;

verus! {

/// `pat` occurs in `s` starting at index `i`.
pub open spec fn occurs_at(s: Seq<u8>, pat: Seq<u8>, i: int) -> bool {
    0 <= i && i + pat.len() <= s.len() && s.subrange(i, i + pat.len()) == pat
}

/// Index of the leftmost occurrence of `pat` in `s` at or after `from`
/// (`from >= 0`), or -1 when there is none.
pub open spec fn find(s: Seq<u8>, pat: Seq<u8>, from: int) -> int
    decreases s.len() + 1 - from,
{
    if from < 0 || from + pat.len() > s.len() {
        -1
    } else if s.subrange(from, from + pat.len()) == pat {
        from
    } else {
        find(s, pat, from + 1)
    }
}

/// `find` gives the leftmost occurrence at or after `from`, and -1 exactly
/// when there is none.
pub proof fn lemma_find_is_leftmost(s: Seq<u8>, pat: Seq<u8>, from: int)
    requires
        from >= 0,
    ensures
        find(s, pat, from) == -1 ==> forall|j: int| from <= j ==> !occurs_at(s, pat, j),
        find(s, pat, from) != -1 ==> {
            &&& from <= find(s, pat, from)
            &&& occurs_at(s, pat, find(s, pat, from))
            &&& forall|j: int| from <= j < find(s, pat, from) ==> !occurs_at(s, pat, j)
        },
    decreases s.len() + 1 - from,
{
    if from + pat.len() > s.len() {
    } else if s.subrange(from, from + pat.len()) == pat {
    } else {
        lemma_find_is_leftmost(s, pat, from + 1);
    }
}

pub open spec fn contains(s: Seq<u8>, pat: Seq<u8>) -> bool {
    find(s, pat, 0) != -1
}

/// One-byte whitespace as `char::is_whitespace` sees it: tab, line feed,
/// vertical tab, form feed, carriage return, space.
pub open spec fn is_space(b: u8) -> bool {
    (9 <= b && b <= 13) || b == 32
}

/// Two-byte UTF-8 whitespace: U+0085 (next line), U+00A0 (no-break space).
pub open spec fn is_space2(a: u8, b: u8) -> bool {
    a == 0xC2 && (b == 0x85 || b == 0xA0)
}

/// Three-byte UTF-8 whitespace: U+1680, U+2000..=U+200A, U+2028, U+2029,
/// U+202F, U+205F and U+3000.
pub open spec fn is_space3(a: u8, b: u8, c: u8) -> bool {
    ||| (a == 0xE1 && b == 0x9A && c == 0x80)
    ||| (a == 0xE2 && b == 0x80 && ((0x80 <= c && c <= 0x8A) || c == 0xA8 || c == 0xA9 || c == 0xAF))
    ||| (a == 0xE2 && b == 0x81 && c == 0x9F)
    ||| (a == 0xE3 && b == 0x80 && c == 0x80)
}

/// Byte length of the whitespace character (`char::is_whitespace`, UTF-8
/// encoded) that `t` starts with, or 0 when it starts with none.
pub open spec fn space_lead(t: Seq<u8>) -> int {
    if t.len() >= 1 && is_space(t[0]) {
        1
    } else if t.len() >= 2 && is_space2(t[0], t[1]) {
        2
    } else if t.len() >= 3 && is_space3(t[0], t[1], t[2]) {
        3
    } else {
        0
    }
}

/// Byte length of the whitespace character that `t` ends with, or 0.
pub open spec fn space_trail(t: Seq<u8>) -> int {
    let n = t.len() as int;
    if n >= 1 && is_space(t[n - 1]) {
        1
    } else if n >= 2 && is_space2(t[n - 2], t[n - 1]) {
        2
    } else if n >= 3 && is_space3(t[n - 3], t[n - 2], t[n - 1]) {
        3
    } else {
        0
    }
}

pub open spec fn trim_start(t: Seq<u8>) -> Seq<u8>
    decreases t.len(),
{
    let k = space_lead(t);
    if k > 0 { trim_start(t.subrange(k, t.len() as int)) } else { t }
}

pub open spec fn trim_end(t: Seq<u8>) -> Seq<u8>
    decreases t.len(),
{
    let k = space_trail(t);
    if k > 0 { trim_end(t.subrange(0, t.len() - k)) } else { t }
}

/// `str::trim` on the UTF-8 bytes of a string: `t` without leading and
/// trailing whitespace characters.
pub open spec fn trim(t: Seq<u8>) -> Seq<u8> {
    trim_end(trim_start(t))
}

pub open spec fn is_digit(b: u8) -> bool {
    48 <= b && b <= 57
}

pub open spec fn all_digits(d: Seq<u8>) -> bool {
    forall|i: int| 0 <= i < d.len() ==> is_digit(d[i])
}

/// Decimal value of a digit string.
pub open spec fn digits_value(d: Seq<u8>) -> nat
    decreases d.len(),
{
    if d.len() == 0 {
        0
    } else {
        (digits_value(d.drop_last()) * 10 + (d.last() - 48)) as nat
    }
}

/// Digits of a `u32` literal: an optional leading `+` is dropped when more follows.
pub open spec fn unsigned_digits(t: Seq<u8>) -> Seq<u8> {
    if t.len() >= 2 && t[0] == 43 { t.drop_first() } else { t }
}

/// `str::parse::<u32>`: one or more decimal digits (after an optional `+`)
/// whose value fits in a `u32`.
pub open spec fn parse_u32(t: Seq<u8>) -> Option<u32> {
    let d = unsigned_digits(t);
    if d.len() > 0 && all_digits(d) && digits_value(d) <= u32::MAX {
        Some(digits_value(d) as u32)
    } else {
        None
    }
}

/// Value of query parameter `key` in `search`: the text after the first
/// `key=` up to the next `&` (or the next `key=`, or the end), trimmed,
/// parsed as a `u32`; `None` when the key is absent, the value is empty
/// or it is not a `u32`.
pub open spec fn query_param(search: Seq<u8>, key: Seq<u8>) -> Option<u32> {
    let needle = key.push(61u8);
    let p = find(search, needle, 0);
    if p == -1 {
        None
    } else {
        let start = p + needle.len();
        let next = find(search, needle, start);
        let end = if next == -1 { search.len() as int } else { next };
        let piece = search.subrange(start, end);
        let amp = find(piece, seq![38u8], 0);
        let raw = if amp == -1 { piece } else { piece.subrange(0, amp) };
        let t = trim(raw);
        if t.len() == 0 { None } else { parse_u32(t) }
    }
}

/// Leftmost index `>= from` where `pat` occurs in `s`.
pub fn find_from(s: &[u8], pat: &[u8], from: usize) -> (r: Option<usize>)
    ensures
        r matches Some(i) ==> i == find(s@, pat@, from as int),
        r is None ==> find(s@, pat@, from as int) == -1,
{
    let n = s.len();
    let m = pat.len();
    if m > n {
        proof { lemma_find_none_when_too_long(s@, pat@, from as int); }
        return None;
    }
    let mut i = from;
    while i <= n - m
        invariant
            n == s@.len(),
            m == pat@.len(),
            m <= n,
            from <= i,
            find(s@, pat@, from as int) == find(s@, pat@, i as int),
        decreases n - i,
    {
        let mut j: usize = 0;
        let mut same = true;
        while j < m
            invariant
                n == s@.len(),
                m == pat@.len(),
                i + m <= n,
                j <= m,
                same == (forall|k: int| 0 <= k < j ==> s@[i + k] == pat@[k]),
            decreases m - j,
        {
            if s[i + j] != pat[j] {
                same = false;
            }
            j = j + 1;
        }
        if same {
            assert(s@.subrange(i as int, i + m) =~= pat@);
            return Some(i);
        }
        assert(s@.subrange(i as int, i + m) != pat@) by {
            let k = choose|k: int| 0 <= k < m && s@[i + k] != pat@[k];
            assert(s@.subrange(i as int, i + m)[k] == s@[i + k]);
        }
        i = i + 1;
    }
    proof { lemma_find_none_when_too_long(s@, pat@, i as int); }
    None
}

/// Byte length of the whitespace character at the start of `t[lo..hi]`.
fn space_lead_in(t: &[u8], lo: usize, hi: usize) -> (k: usize)
    requires
        lo <= hi <= t@.len(),
    ensures
        k == space_lead(t@.subrange(lo as int, hi as int)),
        k <= hi - lo,
{
    let ghost s = t@.subrange(lo as int, hi as int);
    let n = hi - lo;
    if n >= 1 && (t[lo] >= 9 && t[lo] <= 13 || t[lo] == 32) {
        assert(s[0] == t@[lo as int]);
        1
    } else if n >= 2 && t[lo] == 0xC2 && (t[lo + 1] == 0x85 || t[lo + 1] == 0xA0) {
        assert(s[0] == t@[lo as int] && s[1] == t@[lo + 1]);
        2
    } else if n >= 3 && space3(t[lo], t[lo + 1], t[lo + 2]) {
        assert(s[0] == t@[lo as int] && s[1] == t@[lo + 1] && s[2] == t@[lo + 2]);
        3
    } else {
        proof {
            if n >= 1 { assert(s[0] == t@[lo as int]); }
            if n >= 2 { assert(s[1] == t@[lo + 1]); }
            if n >= 3 { assert(s[2] == t@[lo + 2]); }
        }
        0
    }
}

/// Byte length of the whitespace character at the end of `t[lo..hi]`.
fn space_trail_in(t: &[u8], lo: usize, hi: usize) -> (k: usize)
    requires
        lo <= hi <= t@.len(),
    ensures
        k == space_trail(t@.subrange(lo as int, hi as int)),
        k <= hi - lo,
{
    let ghost s = t@.subrange(lo as int, hi as int);
    let n = hi - lo;
    if n >= 1 && (t[hi - 1] >= 9 && t[hi - 1] <= 13 || t[hi - 1] == 32) {
        assert(s[n - 1] == t@[hi - 1]);
        1
    } else if n >= 2 && t[hi - 2] == 0xC2 && (t[hi - 1] == 0x85 || t[hi - 1] == 0xA0) {
        assert(s[n - 2] == t@[hi - 2] && s[n - 1] == t@[hi - 1]);
        2
    } else if n >= 3 && space3(t[hi - 3], t[hi - 2], t[hi - 1]) {
        assert(s[n - 3] == t@[hi - 3] && s[n - 2] == t@[hi - 2] && s[n - 1] == t@[hi - 1]);
        3
    } else {
        proof {
            if n >= 1 { assert(s[n - 1] == t@[hi - 1]); }
            if n >= 2 { assert(s[n - 2] == t@[hi - 2]); }
            if n >= 3 { assert(s[n - 3] == t@[hi - 3]); }
        }
        0
    }
}

fn space3(a: u8, b: u8, c: u8) -> (r: bool)
    ensures
        r == is_space3(a, b, c),
{
    (a == 0xE1 && b == 0x9A && c == 0x80)
        || (a == 0xE2 && b == 0x80 && ((c >= 0x80 && c <= 0x8A) || c == 0xA8 || c == 0xA9 || c == 0xAF))
        || (a == 0xE2 && b == 0x81 && c == 0x9F)
        || (a == 0xE3 && b == 0x80 && c == 0x80)
}

/// Bounds `(lo, hi)` of `t` without its leading and trailing whitespace
/// characters: `lo` bytes of whitespace come off the front.
pub fn trim_bounds(t: &[u8]) -> (r: (usize, usize))
    ensures
        r.0 <= r.1 <= t@.len(),
        trim(t@) == t@.subrange(r.0 as int, r.1 as int),
        r.0 == t@.len() - trim_start(t@).len(),
{
    let n = t.len();
    let mut lo: usize = 0;
    assert(t@.subrange(0, n as int) =~= t@);
    loop
        invariant
            n == t@.len(),
            lo <= n,
            trim_start(t@) == trim_start(t@.subrange(lo as int, n as int)),
        ensures
            lo <= n,
            trim_start(t@) == trim_start(t@.subrange(lo as int, n as int)),
            space_lead(t@.subrange(lo as int, n as int)) == 0,
        decreases n - lo,
    {
        let k = space_lead_in(t, lo, n);
        if k == 0 {
            break;
        }
        proof {
            let s = t@.subrange(lo as int, n as int);
            assert(s.subrange(k as int, s.len() as int) =~= t@.subrange(lo + k, n as int));
        }
        lo = lo + k;
    }
    let ghost u = t@.subrange(lo as int, n as int);
    assert(trim_start(t@) == u);
    let mut hi: usize = n;
    loop
        invariant
            n == t@.len(),
            lo <= hi <= n,
            u == t@.subrange(lo as int, n as int),
            trim_end(u) == trim_end(t@.subrange(lo as int, hi as int)),
        ensures
            lo <= hi <= n,
            trim_end(u) == trim_end(t@.subrange(lo as int, hi as int)),
            space_trail(t@.subrange(lo as int, hi as int)) == 0,
        decreases hi,
    {
        let k = space_trail_in(t, lo, hi);
        if k == 0 {
            break;
        }
        proof {
            let s = t@.subrange(lo as int, hi as int);
            assert(s.subrange(0, s.len() - k) =~= t@.subrange(lo as int, hi - k));
        }
        hi = hi - k;
    }
    (lo, hi)
}

proof fn lemma_digits_value_step(d: Seq<u8>, i: int)
    requires
        0 <= i < d.len(),
        is_digit(d[i]),
    ensures
        digits_value(d.subrange(0, i + 1)) == digits_value(d.subrange(0, i)) * 10 + (d[i] - 48),
{
    let p = d.subrange(0, i + 1);
    assert(p.drop_last() =~= d.subrange(0, i));
    assert(p.last() == d[i]);
}

proof fn lemma_digits_value_prefix_le(d: Seq<u8>, i: int)
    requires
        0 <= i <= d.len(),
        all_digits(d),
    ensures
        digits_value(d.subrange(0, i)) <= digits_value(d),
    decreases d.len() - i,
{
    if i == d.len() {
        assert(d.subrange(0, i) =~= d);
    } else {
        lemma_digits_value_step(d, i);
        lemma_digits_value_prefix_le(d, i + 1);
    }
}

/// `str::parse::<u32>` on ASCII bytes.
pub fn parse_u32_bytes(t: &[u8]) -> (r: Option<u32>)
    ensures
        r == parse_u32(t@),
{
    let d: &[u8] = if t.len() >= 2 && t[0] == 43 { &t[1..t.len()] } else { t };
    assert(d@ =~= unsigned_digits(t@));
    let n = d.len();
    if n == 0 {
        return None;
    }
    let mut acc: u64 = 0;
    let mut i: usize = 0;
    while i < n
        invariant
            n == d@.len(),
            n > 0,
            d@ == unsigned_digits(t@),
            i <= n,
            acc == digits_value(d@.subrange(0, i as int)),
            acc <= u32::MAX,
            forall|k: int| 0 <= k < i ==> is_digit(d@[k]),
        decreases n - i,
    {
        let b = d[i];
        if b < 48 || b > 57 {
            assert(!is_digit(d@[i as int]));
            assert(!all_digits(d@));
            assert(parse_u32(t@) is None);
            return None;
        }
        proof { lemma_digits_value_step(d@, i as int); }
        acc = acc * 10 + (b - 48) as u64;
        if acc > 4294967295 {
            proof {
                if all_digits(d@) {
                    lemma_digits_value_prefix_le(d@, i + 1);
                    assert(digits_value(d@) > u32::MAX);
                }
                assert(parse_u32(t@) is None);
            }
            return None;
        }
        i = i + 1;
    }
    assert(d@.subrange(0, n as int) =~= d@);
    Some(acc as u32)
}

/// Value of query parameter `key` in the URL query `search`.
pub fn query_param_u32(search: &[u8], key: &[u8]) -> (r: Option<u32>)
    requires
        key@.len() < usize::MAX,
    ensures
        r == query_param(search@, key@),
{
    let mut needle: Vec<u8> = Vec::new();
    let mut i: usize = 0;
    while i < key.len()
        invariant
            i <= key@.len(),
            needle@ == key@.subrange(0, i as int),
        decreases key@.len() - i,
    {
        needle.push(key[i]);
        assert(needle@ =~= key@.subrange(0, i + 1));
        i = i + 1;
    }
    needle.push(61u8);
    assert(needle@ =~= key@.push(61u8));
    let nd = needle.as_slice();
    let n = search.len();
    let m = nd.len();
    let p = match find_from(search, nd, 0) {
        Some(p) => p,
        None => return None,
    };
    proof {
        lemma_find_is_leftmost(search@, nd@, 0);
        assert(find(search@, nd@, 0) == p as int);
        assert(occurs_at(search@, nd@, p as int));
        assert(p + nd@.len() <= search@.len());
    }
    let start = p + m;
    let end = match find_from(search, nd, start) {
        Some(e) => e,
        None => search.len(),
    };
    proof { lemma_find_is_leftmost(search@, nd@, start as int); }
    let piece = &search[start..end];
    let amp_pat: [u8; 1] = [38u8];
    assert(amp_pat@ =~= seq![38u8]);
    let raw = match find_from(piece, &amp_pat, 0) {
        Some(a) => {
            proof { lemma_find_is_leftmost(piece@, amp_pat@, 0); }
            &piece[0..a]
        },
        None => piece,
    };
    let (lo, hi) = trim_bounds(raw);
    if lo == hi {
        return None;
    }
    parse_u32_bytes(&raw[lo..hi])
}

/// `qa_matrix=1`: the switch that enables the forced game over.
pub open spec fn qa_matrix_switch() -> Seq<u8> {
    seq![113u8, 97, 95, 109, 97, 116, 114, 105, 120, 61, 49]
}

/// `qa_go_ms`: explicit force delay in milliseconds.
pub open spec fn qa_go_ms_key() -> Seq<u8> {
    seq![113u8, 97, 95, 103, 111, 95, 109, 115]
}

/// `e2e=1`: end-to-end video runs play longer before the forced game over.
pub open spec fn e2e_switch() -> Seq<u8> {
    seq![101u8, 50, 101, 61, 49]
}

/// Forced game-over delay in milliseconds for a page query: none without
/// `qa_matrix=1`; else `qa_go_ms` clamped to 0.5 s .. 120 s; else 22.5 s
/// for `e2e=1` runs; else 2.2 s.
pub open spec fn force_delay_ms(search: Seq<u8>) -> Option<u32> {
    if !contains(search, qa_matrix_switch()) {
        None
    } else if query_param(search, qa_go_ms_key()) is Some {
        let ms = query_param(search, qa_go_ms_key())->0;
        Some(if ms < 500 { 500 } else if ms > 120000 { 120000 } else { ms })
    } else if contains(search, e2e_switch()) {
        Some(22500)
    } else {
        Some(2200)
    }
}

/// An explicit `qa_go_ms` sets the delay (clamped to 0.5 s .. 120 s)
/// whether or not `e2e=1` is present; only without it do `e2e=1` (22.5 s)
/// and the plain default (2.2 s) apply.
pub proof fn law_explicit_delay_wins(search: Seq<u8>)
    requires
        contains(search, qa_matrix_switch()),
    ensures
        query_param(search, qa_go_ms_key()) matches Some(ms) ==> force_delay_ms(search)
            == Some(if ms < 500 { 500u32 } else if ms > 120000 { 120000u32 } else { ms }),
        query_param(search, qa_go_ms_key()) is None && contains(search, e2e_switch())
            ==> force_delay_ms(search) == Some(22500u32),
        query_param(search, qa_go_ms_key()) is None && !contains(search, e2e_switch())
            ==> force_delay_ms(search) == Some(2200u32),
{
}

/// Delay (milliseconds of play) before the QA matrix forces a game over,
/// or `None` when the page did not ask for it.
pub fn qa_matrix_force_ms(search: &[u8]) -> (r: Option<u32>)
    ensures
        r == force_delay_ms(search@),
        r is Some <==> contains(search@, qa_matrix_switch()),
        contains(search@, qa_matrix_switch()) ==> (query_param(search@, qa_go_ms_key()) matches Some(ms)
            ==> r == Some(if ms < 500 { 500u32 } else if ms > 120000 { 120000u32 } else { ms })),
        contains(search@, qa_matrix_switch()) && query_param(search@, qa_go_ms_key()) is None
            ==> r == Some(if contains(search@, e2e_switch()) { 22500u32 } else { 2200u32 }),
        r matches Some(ms) ==> 500 <= ms <= 120000,
{
    let switch: [u8; 11] = [113u8, 97, 95, 109, 97, 116, 114, 105, 120, 61, 49];
    assert(switch@ =~= qa_matrix_switch());
    if find_from(search, &switch, 0).is_none() {
        return None;
    }
    let key: [u8; 8] = [113u8, 97, 95, 103, 111, 95, 109, 115];
    assert(key@ =~= qa_go_ms_key());
    if let Some(ms) = query_param_u32(search, &key) {
        let clamped = if ms < 500 { 500 } else if ms > 120000 { 120000 } else { ms };
        return Some(clamped);
    }
    let e2e: [u8; 5] = [101u8, 50, 101, 61, 49];
    assert(e2e@ =~= e2e_switch());
    if find_from(search, &e2e, 0).is_some() {
        Some(22500)
    } else {
        Some(2200)
    }
}

proof fn lemma_find_none_when_too_long(s: Seq<u8>, pat: Seq<u8>, from: int)
    requires
        from + pat.len() > s.len(),
    ensures
        find(s, pat, from) == -1,
{
}

} // verus!
