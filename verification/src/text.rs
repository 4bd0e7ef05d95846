//! Byte-level text utilities. All textual data in this crate is carried as
//! UTF-8 bytes, so prefix tests, substring search, case folding, splitting
//! and decimal formatting are specified and proved over `Seq<u8>`.

use vstd::prelude::*;

verus! {

/// `p` is a prefix of `s`.
pub open spec fn is_prefix_of(p: Seq<u8>, s: Seq<u8>) -> bool {
    p.len() <= s.len() && forall|i: int| 0 <= i < p.len() ==> s[i] == p[i]
}

/// `pat` occurs in `s` starting at index `i`.
pub open spec fn matches_at(s: Seq<u8>, pat: Seq<u8>, i: int) -> bool {
    0 <= i && i + pat.len() <= s.len() && forall|j: int| 0 <= j < pat.len() ==> s[i + j] == pat[j]
}

/// `pat` occurs somewhere in `s`.
pub open spec fn contains_seq(s: Seq<u8>, pat: Seq<u8>) -> bool {
    exists|i: int| matches_at(s, pat, i)
}

/// Byte `b` occurs in `s`.
pub open spec fn contains_byte(s: Seq<u8>, b: u8) -> bool {
    exists|i: int| 0 <= i < s.len() && s[i] == b
}

/// ASCII upper-case letters fold to lower case; every other byte is kept.
pub open spec fn lower_byte(b: u8) -> u8 {
    if 0x41 <= b && b <= 0x5a {
        (b + 0x20) as u8
    } else {
        b
    }
}

/// Byte-wise ASCII case folding.
pub open spec fn lower_bytes(s: Seq<u8>) -> Seq<u8> {
    Seq::new(s.len(), |i: int| lower_byte(s[i]))
}

/// ASCII whitespace: space, tab, line feed, vertical tab, form feed,
/// carriage return.
pub open spec fn is_ws(b: u8) -> bool {
    b == 0x20 || b == 0x09 || b == 0x0a || b == 0x0b || b == 0x0c || b == 0x0d
}

pub fn starts_with(s: &[u8], p: &[u8]) -> (r: bool)
    ensures
        r == is_prefix_of(p@, s@),
{
    if p.len() > s.len() {
        return false;
    }
    let mut i: usize = 0;
    while i < p.len()
        invariant
            0 <= i <= p@.len() <= s@.len(),
            forall|j: int| 0 <= j < i ==> s@[j] == p@[j],
        decreases p@.len() - i,
    {
        if s[i] != p[i] {
            return false;
        }
        i = i + 1;
    }
    true
}

fn match_at(s: &[u8], pat: &[u8], i: usize) -> (r: bool)
    requires
        i + pat@.len() <= s@.len(),
    ensures
        r == matches_at(s@, pat@, i as int),
{
    let n: usize = s.len();
    let mut j: usize = 0;
    while j < pat.len()
        invariant
            0 <= j <= pat@.len(),
            i + pat@.len() <= s@.len(),
            n == s@.len(),
            forall|k: int| 0 <= k < j ==> s@[i + k] == pat@[k],
        decreases pat@.len() - j,
    {
        if s[i + j] != pat[j] {
            return false;
        }
        j = j + 1;
    }
    true
}

pub fn contains(s: &[u8], pat: &[u8]) -> (r: bool)
    ensures
        r == contains_seq(s@, pat@),
{
    if pat.len() > s.len() {
        assert(forall|i: int| !matches_at(s@, pat@, i));
        return false;
    }
    let end: usize = s.len() - pat.len();
    let mut i: usize = 0;
    while i < end
        invariant
            pat@.len() <= s@.len(),
            end == s@.len() - pat@.len(),
            0 <= i <= end,
            forall|k: int| 0 <= k < i ==> !matches_at(s@, pat@, k),
        decreases end - i,
    {
        if match_at(s, pat, i) {
            return true;
        }
        i = i + 1;
    }
    if match_at(s, pat, end) {
        return true;
    }
    assert forall|k: int| !matches_at(s@, pat@, k) by {
        if matches_at(s@, pat@, k) {
            assert(0 <= k <= s@.len() - pat@.len());
        }
    }
    false
}

pub fn contains_u8(s: &[u8], b: u8) -> (r: bool)
    ensures
        r == contains_byte(s@, b),
{
    let mut i: usize = 0;
    while i < s.len()
        invariant
            0 <= i <= s@.len(),
            forall|j: int| 0 <= j < i ==> s@[j] != b,
        decreases s@.len() - i,
    {
        if s[i] == b {
            return true;
        }
        i = i + 1;
    }
    false
}

/// Index of the last occurrence of `b` in `s`, if any.
pub fn last_index_of(s: &[u8], b: u8) -> (r: Option<usize>)
    ensures
        match r {
            Some(i) => i < s@.len() && s@[i as int] == b && forall|j: int|
                i < j < s@.len() ==> s@[j] != b,
            None => !contains_byte(s@, b),
        },
{
    let mut i: usize = s.len();
    while i > 0
        invariant
            0 <= i <= s@.len(),
            forall|j: int| i <= j < s@.len() ==> s@[j] != b,
        decreases i,
    {
        i = i - 1;
        if s[i] == b {
            return Some(i);
        }
    }
    None
}

pub fn bytes_eq(a: &[u8], b: &[u8]) -> (r: bool)
    ensures
        r == (a@ == b@),
{
    if a.len() != b.len() {
        return false;
    }
    let mut i: usize = 0;
    while i < a.len()
        invariant
            a@.len() == b@.len(),
            0 <= i <= a@.len(),
            forall|j: int| 0 <= j < i ==> a@[j] == b@[j],
        decreases a@.len() - i,
    {
        if a[i] != b[i] {
            return false;
        }
        i = i + 1;
    }
    proof {
        assert(a@ =~= b@);
    }
    true
}

/// Compares the suffix of `s` beginning at `start` against `pat`.
pub fn suffix_eq(s: &[u8], start: usize, pat: &[u8]) -> (r: bool)
    requires
        start <= s@.len(),
    ensures
        r == (s@.subrange(start as int, s@.len() as int) == pat@),
{
    let n: usize = s.len();
    if n - start != pat.len() {
        proof {
            assert(s@.subrange(start as int, s@.len() as int).len() != pat@.len());
        }
        return false;
    }
    let mut j: usize = 0;
    while j < pat.len()
        invariant
            start + pat@.len() == s@.len(),
            s@.len() <= usize::MAX,
            0 <= j <= pat@.len(),
            forall|k: int| 0 <= k < j ==> s@[start + k] == pat@[k],
        decreases pat@.len() - j,
    {
        if s[start + j] != pat[j] {
            proof {
                assert(s@.subrange(start as int, s@.len() as int)[j as int] == s@[start + j]);
            }
            return false;
        }
        j = j + 1;
    }
    proof {
        assert(s@.subrange(start as int, s@.len() as int) =~= pat@);
    }
    true
}

pub fn to_ascii_lower(s: &[u8]) -> (r: Vec<u8>)
    ensures
        r@ == lower_bytes(s@),
{
    let mut r: Vec<u8> = Vec::new();
    let mut i: usize = 0;
    while i < s.len()
        invariant
            0 <= i <= s@.len(),
            r@.len() == i,
            forall|j: int| 0 <= j < i ==> r@[j] == lower_byte(s@[j]),
        decreases s@.len() - i,
    {
        let b = s[i];
        if 0x41 <= b && b <= 0x5a {
            r.push(b + 0x20);
        } else {
            r.push(b);
        }
        i = i + 1;
    }
    proof {
        assert(r@ =~= lower_bytes(s@));
    }
    r
}

/// A fresh vector with the same bytes.
pub fn copy_bytes(v: &Vec<u8>) -> (r: Vec<u8>)
    ensures
        r@ == v@,
{
    vstd::slice::slice_to_vec(v.as_slice())
}

/// Appends all of `s` to `v`.
pub fn push_all(v: &mut Vec<u8>, s: &[u8])
    ensures
        final(v)@ == old(v)@ + s@,
{
    let mut i: usize = 0;
    while i < s.len()
        invariant
            0 <= i <= s@.len(),
            v@ == old(v)@ + s@.subrange(0, i as int),
        decreases s@.len() - i,
    {
        v.push(s[i]);
        proof {
            assert(old(v)@ + s@.subrange(0, i as int + 1) =~= (old(v)@ + s@.subrange(
                0,
                i as int,
            )).push(s@[i as int]));
        }
        i = i + 1;
    }
    proof {
        assert(s@.subrange(0, s@.len() as int) =~= s@);
    }
}

/// The end of the whitespace-free run beginning at `i`.
pub open spec fn tok_end(s: Seq<u8>, i: int) -> int
    decreases s.len() - i when 0 <= i <= s.len()
{
    if i >= s.len() || is_ws(s[i]) {
        i
    } else {
        tok_end(s, i + 1)
    }
}

pub proof fn lemma_tok_end_bounds(s: Seq<u8>, i: int)
    requires
        0 <= i <= s.len(),
    ensures
        i <= tok_end(s, i) <= s.len(),
    decreases s.len() - i,
{
    if i < s.len() && !is_ws(s[i]) {
        lemma_tok_end_bounds(s, i + 1);
    }
}

/// The whitespace-separated tokens of `s`, scanned from `i`: maximal
/// whitespace-free runs, in order.
pub open spec fn spec_tokens_from(s: Seq<u8>, i: int) -> Seq<Seq<u8>>
    decreases s.len() - i when 0 <= i <= s.len() via spec_tokens_from_dec
{
    if i >= s.len() {
        Seq::empty()
    } else if is_ws(s[i]) {
        spec_tokens_from(s, i + 1)
    } else {
        seq![s.subrange(i, tok_end(s, i))] + spec_tokens_from(s, tok_end(s, i))
    }
}

#[via_fn]
proof fn spec_tokens_from_dec(s: Seq<u8>, i: int) {
    if 0 <= i < s.len() && !is_ws(s[i]) {
        lemma_tok_end_bounds(s, i + 1);
    }
}

/// The whitespace-separated tokens of `s`.
pub open spec fn spec_split_ws(s: Seq<u8>) -> Seq<Seq<u8>> {
    spec_tokens_from(s, 0)
}

fn is_ws_byte(b: u8) -> (r: bool)
    ensures
        r == is_ws(b),
{
    b == 0x20 || b == 0x09 || b == 0x0a || b == 0x0b || b == 0x0c || b == 0x0d
}

/// Splits on whitespace, scanning from `i`.
fn split_ws_from(s: &[u8], i: usize) -> (r: Vec<Vec<u8>>)
    requires
        i <= s@.len(),
    ensures
        r@.len() == spec_tokens_from(s@, i as int).len(),
        forall|k: int| 0 <= k < r@.len() ==> r@[k]@ == spec_tokens_from(s@, i as int)[k],
    decreases s@.len() - i,
{
    let n: usize = s.len();
    if i >= n {
        let r: Vec<Vec<u8>> = Vec::new();
        r
    } else if is_ws_byte(s[i]) {
        split_ws_from(s, i + 1)
    } else {
        let mut j: usize = i;
        while j < n && !(s[j] == 0x20 || s[j] == 0x09 || s[j] == 0x0a || s[j] == 0x0b || s[j]
            == 0x0c || s[j] == 0x0d)
            invariant
                i <= j <= n,
                n == s@.len(),
                tok_end(s@, i as int) == tok_end(s@, j as int),
            decreases n - j,
        {
            j = j + 1;
        }
        proof {
            assert(tok_end(s@, j as int) == j as int);
            assert(tok_end(s@, i as int) == j as int);
            assert(j > i);
        }
        let tok: Vec<u8> = vstd::slice::slice_to_vec(vstd::slice::slice_subrange(s, i, j));
        let ghost spec_rest = spec_tokens_from(s@, j as int);
        let mut rest = split_ws_from(s, j);
        let ghost pre = rest@;
        rest.insert(0, tok);
        proof {
            let full = spec_tokens_from(s@, i as int);
            assert(full =~= seq![s@.subrange(i as int, j as int)] + spec_rest);
            assert(rest@.len() == full.len());
            assert forall|k: int| 0 <= k < rest@.len() implies rest@[k]@ == full[k] by {
                if k == 0 {
                    assert(rest@[0] == tok);
                } else {
                    assert(rest@[k] == pre[k - 1]);
                    assert(full[k] == spec_rest[k - 1]);
                }
            }
        }
        rest
    }
}

/// Splits into whitespace-separated tokens.
pub fn split_ws(s: &[u8]) -> (r: Vec<Vec<u8>>)
    ensures
        r@.len() == spec_split_ws(s@).len(),
        forall|k: int| 0 <= k < r@.len() ==> r@[k]@ == spec_split_ws(s@)[k],
{
    split_ws_from(s, 0)
}

/// `s` without leading whitespace.
pub open spec fn spec_trim_start(s: Seq<u8>) -> Seq<u8>
    decreases s.len(),
{
    if s.len() > 0 && is_ws(s[0]) {
        spec_trim_start(s.subrange(1, s.len() as int))
    } else {
        s
    }
}

/// `s` without trailing whitespace.
pub open spec fn spec_trim_end(s: Seq<u8>) -> Seq<u8>
    decreases s.len(),
{
    if s.len() > 0 && is_ws(s[s.len() - 1]) {
        spec_trim_end(s.subrange(0, s.len() - 1))
    } else {
        s
    }
}

/// `s` without leading or trailing whitespace.
pub open spec fn spec_trim(s: Seq<u8>) -> Seq<u8> {
    spec_trim_end(spec_trim_start(s))
}

proof fn lemma_trim_start_idx(t: Seq<u8>, a: int)
    requires
        0 <= a <= t.len(),
        forall|r: int| 0 <= r < a ==> is_ws(t[r]),
        a < t.len() ==> !is_ws(t[a]),
    ensures
        spec_trim_start(t) == t.subrange(a, t.len() as int),
    decreases a,
{
    if a == 0 {
        assert(t.subrange(0, t.len() as int) =~= t);
    } else {
        assert(is_ws(t[0]));
        let t1 = t.subrange(1, t.len() as int);
        lemma_trim_start_idx(t1, a - 1);
        assert(t1.subrange(a - 1, t1.len() as int) =~= t.subrange(a, t.len() as int));
    }
}

proof fn lemma_trim_end_idx(t: Seq<u8>, b: int)
    requires
        0 <= b <= t.len(),
        forall|r: int| b <= r < t.len() ==> is_ws(t[r]),
        b > 0 ==> !is_ws(t[b - 1]),
    ensures
        spec_trim_end(t) == t.subrange(0, b),
    decreases t.len(),
{
    if b == t.len() {
        if t.len() == 0 {
            assert(t.subrange(0, 0) =~= t);
        } else {
            assert(!is_ws(t[t.len() - 1]));
            assert(t.subrange(0, t.len() as int) =~= t);
        }
    } else {
        assert(is_ws(t[t.len() - 1]));
        let t1 = t.subrange(0, t.len() - 1);
        lemma_trim_end_idx(t1, b);
        assert(t1.subrange(0, b) =~= t.subrange(0, b));
    }
}

/// Trims ASCII whitespace from both ends of the range `[from, to)`.
fn trim_range(s: &[u8], from: usize, to: usize) -> (r: Vec<u8>)
    requires
        from <= to <= s@.len(),
    ensures
        r@ == spec_trim(s@.subrange(from as int, to as int)),
{
    let ghost t = s@.subrange(from as int, to as int);
    let mut a: usize = from;
    while a < to && is_ws_byte(s[a])
        invariant
            from <= a <= to <= s@.len(),
            forall|r: int| 0 <= r < a - from ==> is_ws(t[r]),
            t == s@.subrange(from as int, to as int),
        decreases to - a,
    {
        a = a + 1;
    }
    proof {
        lemma_trim_start_idx(t, a - from);
    }
    let mut b: usize = to;
    while b > a && is_ws_byte(s[b - 1])
        invariant
            from <= a <= b <= to <= s@.len(),
            forall|r: int| b - from <= r < t.len() ==> is_ws(t[r]),
            t == s@.subrange(from as int, to as int),
            spec_trim_start(t) == t.subrange(a - from, t.len() as int),
            a < to ==> !is_ws(t[a - from]),
        decreases b,
    {
        b = b - 1;
    }
    let r: Vec<u8> = vstd::slice::slice_to_vec(vstd::slice::slice_subrange(s, a, b));
    proof {
        let u = spec_trim_start(t);
        if a == to {
            assert(u =~= t.subrange(a - from, t.len() as int));
            assert(u.len() == 0);
            assert(b == a);
            lemma_trim_end_idx(u, 0);
            assert(r@ =~= u.subrange(0, 0));
        } else {
            assert(!is_ws(t[a - from]));
            if b == a {
                assert(is_ws(t[a - from]) || !(a < to));
                assert(false);
            }
            assert(b > a);
            assert(!is_ws(s@[b - 1]) || b == to);
            if b < to {
                assert(is_ws(t[b - from - 1]) ==> false);
            }
            lemma_trim_end_idx(u, b - a);
            assert(u.subrange(0, b - a) =~= s@.subrange(a as int, b as int));
            assert(r@ =~= spec_trim(t));
        }
    }
    r
}

/// The first comma at or after `i`, or the end.
pub open spec fn seg_end(s: Seq<u8>, i: int) -> int
    decreases s.len() - i when 0 <= i <= s.len()
{
    if i >= s.len() {
        s.len() as int
    } else if s[i] == 0x2c {
        i
    } else {
        seg_end(s, i + 1)
    }
}

pub proof fn lemma_seg_end_bounds(s: Seq<u8>, i: int)
    requires
        0 <= i <= s.len(),
    ensures
        i <= seg_end(s, i) <= s.len(),
    decreases s.len() - i,
{
    if i < s.len() && s[i] != 0x2c {
        lemma_seg_end_bounds(s, i + 1);
    }
}

/// The comma-separated entries of `s` from `i`, trimmed, empties dropped.
pub open spec fn spec_csv_from(s: Seq<u8>, i: int) -> Seq<Seq<u8>>
    decreases s.len() - i when 0 <= i <= s.len() via spec_csv_from_dec
{
    if i > s.len() {
        Seq::empty()
    } else {
        let j = seg_end(s, i);
        let seg = spec_trim(s.subrange(i, j));
        let rest = if j < s.len() {
            spec_csv_from(s, j + 1)
        } else {
            Seq::empty()
        };
        if seg.len() > 0 {
            seq![seg] + rest
        } else {
            rest
        }
    }
}

#[via_fn]
proof fn spec_csv_from_dec(s: Seq<u8>, i: int) {
    if 0 <= i <= s.len() {
        lemma_seg_end_bounds(s, i);
    }
}

/// The comma-separated entries of `s`, trimmed, empties dropped.
pub open spec fn spec_csv_items(s: Seq<u8>) -> Seq<Seq<u8>> {
    spec_csv_from(s, 0)
}

fn csv_from(s: &[u8], i: usize) -> (r: Vec<Vec<u8>>)
    requires
        i <= s@.len(),
    ensures
        r@.len() == spec_csv_from(s@, i as int).len(),
        forall|k: int| 0 <= k < r@.len() ==> r@[k]@ == spec_csv_from(s@, i as int)[k],
    decreases s@.len() - i,
{
    let n: usize = s.len();
    let mut j: usize = i;
    while j < n && s[j] != 0x2c
        invariant
            i <= j <= n,
            n == s@.len(),
            seg_end(s@, i as int) == seg_end(s@, j as int),
        decreases n - j,
    {
        j = j + 1;
    }
    proof {
        assert(seg_end(s@, j as int) == j as int);
        assert(seg_end(s@, i as int) == j as int);
    }
    let seg = trim_range(s, i, j);
    let ghost spec_rest = if (j as int) < s@.len() {
        spec_csv_from(s@, j + 1)
    } else {
        Seq::<Seq<u8>>::empty()
    };
    let mut rest: Vec<Vec<u8>> = if j < n {
        csv_from(s, j + 1)
    } else {
        Vec::new()
    };
    proof {
        assert(rest@.len() == spec_rest.len());
        assert(forall|k: int| 0 <= k < rest@.len() ==> rest@[k]@ == spec_rest[k]);
    }
    if seg.len() > 0 {
        let ghost pre = rest@;
        let ghost segv = seg@;
        rest.insert(0, seg);
        proof {
            let full = spec_csv_from(s@, i as int);
            assert(full =~= seq![spec_trim(s@.subrange(i as int, j as int))] + spec_rest);
            assert(rest@.len() == full.len());
            assert forall|k: int| 0 <= k < rest@.len() implies rest@[k]@ == full[k] by {
                if k == 0 {
                    assert(rest@[0]@ == segv);
                } else {
                    assert(rest@[k] == pre[k - 1]);
                    assert(full[k] == spec_rest[k - 1]);
                }
            }
        }
        rest
    } else {
        proof {
            assert(spec_csv_from(s@, i as int) =~= spec_rest);
        }
        rest
    }
}

/// Parses a comma-separated list: entries trimmed, empty entries dropped.
pub fn csv_items(s: &[u8]) -> (r: Vec<Vec<u8>>)
    ensures
        r@.len() == spec_csv_items(s@).len(),
        forall|k: int| 0 <= k < r@.len() ==> r@[k]@ == spec_csv_items(s@)[k],
{
    csv_from(s, 0)
}

/// The first `n` bytes of `s`, or all of it when shorter.
pub fn take_prefix(s: &[u8], n: usize) -> (r: Vec<u8>)
    ensures
        r@ == (if s@.len() <= n {
            s@
        } else {
            s@.subrange(0, n as int)
        }),
{
    if s.len() <= n {
        let r = vstd::slice::slice_to_vec(s);
        proof {
            assert(r@ =~= s@);
        }
        r
    } else {
        vstd::slice::slice_to_vec(vstd::slice::slice_subrange(s, 0, n))
    }
}

/// The decimal digits of `n`, most significant first.
pub open spec fn spec_dec_u64(n: nat) -> Seq<u8>
    decreases n,
{
    if n < 10 {
        seq![(0x30 + n) as u8]
    } else {
        spec_dec_u64(n / 10) + seq![(0x30 + n % 10) as u8]
    }
}

/// Decimal rendering of a signed value: a minus sign, then the digits of the
/// absolute value.
pub open spec fn spec_dec_i32(n: int) -> Seq<u8> {
    if n < 0 {
        seq![0x2du8] + spec_dec_u64((-n) as nat)
    } else {
        spec_dec_u64(n as nat)
    }
}

pub fn u64_to_dec(n: u64) -> (r: Vec<u8>)
    ensures
        r@ == spec_dec_u64(n as nat),
    decreases n,
{
    if n < 10 {
        let mut v: Vec<u8> = Vec::new();
        v.push(0x30u8 + (n as u8));
        proof {
            assert(v@ =~= seq![(0x30 + n as nat) as u8]);
        }
        v
    } else {
        let mut v = u64_to_dec(n / 10);
        v.push(0x30u8 + ((n % 10) as u8));
        proof {
            assert(v@ =~= spec_dec_u64((n / 10) as nat) + seq![(0x30 + (n as nat) % 10) as u8]);
            assert((n / 10) as nat == (n as nat) / 10);
        }
        v
    }
}

pub fn i32_to_dec(n: i32) -> (r: Vec<u8>)
    ensures
        r@ == spec_dec_i32(n as int),
{
    if n >= 0 {
        u64_to_dec(n as u64)
    } else {
        let mut v: Vec<u8> = Vec::new();
        v.push(0x2du8);
        let abs: u64 = if n == i32::MIN {
            2147483648u64
        } else {
            (-n) as u64
        };
        let digits = u64_to_dec(abs);
        push_all(&mut v, digits.as_slice());
        proof {
            assert(v@ =~= seq![0x2du8] + spec_dec_u64((-(n as int)) as nat));
        }
        v
    }
}

} // verus!
