//! Character-level text helpers used by the exercise builders, the import
//! validation and the user-facing labels.
use vstd::prelude::*;

verus! {

// ─── Specifications ──────────────────────────────────────────────────────────

/// `p` occurs in `s` starting at index `i`.
pub open spec fn occurs_at(s: Seq<char>, p: Seq<char>, i: int) -> bool {
    0 <= i && i + p.len() <= s.len() && s.subrange(i, i + p.len()) == p
}

/// `p` occurs somewhere in `s` (the empty pattern occurs everywhere).
pub open spec fn has_substring(s: Seq<char>, p: Seq<char>) -> bool {
    exists|i: int| occurs_at(s, p, i)
}

/// Every boundary of `s` receives `r` (what replacing the empty pattern does).
pub open spec fn replace_empty(s: Seq<char>, r: Seq<char>) -> Seq<char>
    decreases s.len(),
{
    if s.len() == 0 {
        r
    } else {
        r + seq![s[0]] + replace_empty(s.skip(1), r)
    }
}

/// Left-to-right, non-overlapping replacement of a non-empty pattern `p` by `r`.
pub open spec fn replace_nonempty(s: Seq<char>, p: Seq<char>, r: Seq<char>) -> Seq<char>
    decreases s.len(),
{
    if p.len() == 0 || s.len() < p.len() {
        s
    } else if s.take(p.len() as int) == p {
        r + replace_nonempty(s.skip(p.len() as int), p, r)
    } else {
        seq![s[0]] + replace_nonempty(s.skip(1), p, r)
    }
}

/// All occurrences of `p` in `s` replaced by `r`, as `str::replace` does.
pub open spec fn replace_all(s: Seq<char>, p: Seq<char>, r: Seq<char>) -> Seq<char> {
    if p.len() == 0 {
        replace_empty(s, r)
    } else {
        replace_nonempty(s, p, r)
    }
}

/// The characters with the Unicode `White_Space` property.
pub open spec fn is_white_space(c: char) -> bool {
    let u = c as u32;
    ||| (0x09 <= u && u <= 0x0d)
    ||| u == 0x20
    ||| u == 0x85
    ||| u == 0xa0
    ||| u == 0x1680
    ||| (0x2000 <= u && u <= 0x200a)
    ||| u == 0x2028
    ||| u == 0x2029
    ||| u == 0x202f
    ||| u == 0x205f
    ||| u == 0x3000
}

pub open spec fn trim_start(s: Seq<char>) -> Seq<char>
    decreases s.len(),
{
    if s.len() > 0 && is_white_space(s[0]) {
        trim_start(s.skip(1))
    } else {
        s
    }
}

pub open spec fn trim_end(s: Seq<char>) -> Seq<char>
    decreases s.len(),
{
    if s.len() > 0 && is_white_space(s.last()) {
        trim_end(s.drop_last())
    } else {
        s
    }
}

/// `s` without leading and trailing white space.
pub open spec fn trimmed(s: Seq<char>) -> Seq<char> {
    trim_end(trim_start(s))
}

pub open spec fn digit_char(d: nat) -> char {
    if d == 0 {
        '0'
    } else if d == 1 {
        '1'
    } else if d == 2 {
        '2'
    } else if d == 3 {
        '3'
    } else if d == 4 {
        '4'
    } else if d == 5 {
        '5'
    } else if d == 6 {
        '6'
    } else if d == 7 {
        '7'
    } else if d == 8 {
        '8'
    } else {
        '9'
    }
}

/// The decimal notation of `n`, without leading zeros.
pub open spec fn decimal(n: nat) -> Seq<char>
    decreases n,
{
    if n < 10 {
        seq![digit_char(n)]
    } else {
        decimal(n / 10).push(digit_char(n % 10))
    }
}

/// The first `n` characters of `s` (all of them when `s` is shorter).
pub open spec fn prefix_chars(s: Seq<char>, n: nat) -> Seq<char> {
    if s.len() <= n {
        s
    } else {
        s.take(n as int)
    }
}

// ─── Conversions ─────────────────────────────────────────────────────────────

/// The characters of `s`, in order.
pub fn chars_of(s: &str) -> (v: Vec<char>)
    ensures
        v@ == s@,
{
    let mut v: Vec<char> = Vec::new();
    for c in it: s.chars()
        invariant
            v@ == it.seq().take(it.index() as int),
    {
        v.push(c);
    }
    v
}

/// `String` built from characters: wraps `FromIterator<char> for String`,
/// which concatenates the characters in order.
#[verifier::external_body]
pub fn string_from_chars(v: &Vec<char>) -> (s: String)
    ensures
        s@ == v@,
{
    v.iter().collect()
}

/// An owned copy of `s`.
pub fn owned(s: &str) -> (r: String)
    ensures
        r@ == s@,
{
    String::from_str(s)
}

/// The concatenation of three pieces.
pub fn concat3(a: &str, b: &str, c: &str) -> (r: String)
    ensures
        r@ == a@ + b@ + c@,
{
    let mut r = String::from_str(a);
    r.append(b);
    r.append(c);
    r
}

/// The concatenation of four pieces.
pub fn concat4(a: &str, b: &str, c: &str, d: &str) -> (r: String)
    ensures
        r@ == a@ + b@ + c@ + d@,
{
    let mut r = String::from_str(a);
    r.append(b);
    r.append(c);
    r.append(d);
    r
}

// ─── Comparisons and searches ────────────────────────────────────────────────

/// Character-wise equality of two string slices.
pub fn str_eq(a: &str, b: &str) -> (r: bool)
    ensures
        r == (a@ == b@),
{
    let va = chars_of(a);
    let vb = chars_of(b);
    if va.len() != vb.len() {
        return false;
    }
    let mut i: usize = 0;
    while i < va.len()
        invariant
            va@ == a@,
            vb@ == b@,
            va.len() == vb.len(),
            i <= va.len(),
            forall|j: int| 0 <= j < i ==> va@[j] == vb@[j],
        decreases va.len() - i,
    {
        if va[i] != vb[i] {
            return false;
        }
        i = i + 1;
    }
    assert(va@ =~= vb@);
    true
}

/// Whether `p` occurs in `s` at index `i`.
fn occurs_at_exec(s: &Vec<char>, p: &Vec<char>, i: usize) -> (r: bool)
    ensures
        r == occurs_at(s@, p@, i as int),
{
    if p.len() > s.len() || i > s.len() - p.len() {
        return false;
    }
    let mut j: usize = 0;
    while j < p.len()
        invariant
            i + p.len() <= s.len(),
            j <= p.len(),
            forall|k: int| 0 <= k < j ==> s@[i + k] == p@[k],
        decreases p.len() - j,
    {
        if s[i + j] != p[j] {
            assert(s@.subrange(i as int, i + p.len())[j as int] != p@[j as int]);
            return false;
        }
        j = j + 1;
    }
    assert(s@.subrange(i as int, i + p.len()) =~= p@);
    true
}

/// Whether `pat` occurs in `hay`, as `str::contains` with a string pattern.
pub fn contains_str(hay: &str, pat: &str) -> (r: bool)
    ensures
        r == has_substring(hay@, pat@),
{
    let h = chars_of(hay);
    let p = chars_of(pat);
    if p.len() > h.len() {
        assert forall|i: int| !occurs_at(h@, p@, i) by {}
        return false;
    }
    let last = h.len() - p.len();
    let mut i: usize = 0;
    while i < last
        invariant
            h@ == hay@,
            p@ == pat@,
            last == h.len() - p.len(),
            p.len() <= h.len(),
            i <= last,
            forall|k: int| 0 <= k < i ==> !occurs_at(h@, p@, k),
        decreases last - i,
    {
        if occurs_at_exec(&h, &p, i) {
            return true;
        }
        i = i + 1;
    }
    if occurs_at_exec(&h, &p, last) {
        return true;
    }
    assert forall|k: int| !occurs_at(h@, p@, k) by {
        if 0 <= k < i {
        }
    }
    false
}

// ─── Transformations ─────────────────────────────────────────────────────────

proof fn lemma_replace_nonempty_short(s: Seq<char>, p: Seq<char>, r: Seq<char>)
    requires
        p.len() > 0,
        s.len() < p.len(),
    ensures
        replace_nonempty(s, p, r) == s,
{
}

/// Every occurrence of `pat` in `s` replaced by `rep`, scanning left to right,
/// as `str::replace` does.
pub fn replace_str(s: &str, pat: &str, rep: &str) -> (r: String)
    ensures
        r@ == replace_all(s@, pat@, rep@),
{
    let h = chars_of(s);
    let p = chars_of(pat);
    let rv = chars_of(rep);
    let mut out: Vec<char> = Vec::new();
    let n = h.len();
    assert(h@.skip(0) =~= h@);
    if p.len() == 0 {
        let mut i: usize = 0;
        while i < n
            invariant
                h@ == s@,
                rv@ == rep@,
                n == h.len(),
                i <= n,
                out@ + replace_empty(h@.skip(i as int), rv@) == replace_empty(h@, rv@),
            decreases n - i,
        {
            proof {
                let rest = h@.skip(i as int);
                assert(rest.skip(1) =~= h@.skip(i + 1));
                assert(replace_empty(rest, rv@) == rv@ + seq![rest[0]] + replace_empty(rest.skip(1), rv@));
            }
            let mut k: usize = 0;
            let ghost before = out@;
            while k < rv.len()
                invariant
                    k <= rv.len(),
                    out@ == before + rv@.take(k as int),
                decreases rv.len() - k,
            {
                out.push(rv[k]);
                k = k + 1;
                assert(rv@.take(k as int) =~= rv@.take(k - 1).push(rv@[k - 1]));
            }
            out.push(h[i]);
            proof {
                assert(rv@.take(rv.len() as int) =~= rv@);
                let rest = h@.skip(i as int);
                assert(out@ + replace_empty(h@.skip(i + 1), rv@) =~= before + (rv@ + seq![rest[0]] + replace_empty(rest.skip(1), rv@)));
            }
            i = i + 1;
        }
        let ghost before = out@;
        let mut k: usize = 0;
        while k < rv.len()
            invariant
                k <= rv.len(),
                out@ == before + rv@.take(k as int),
            decreases rv.len() - k,
        {
            out.push(rv[k]);
            k = k + 1;
            assert(rv@.take(k as int) =~= rv@.take(k - 1).push(rv@[k - 1]));
        }
        proof {
            assert(rv@.take(rv.len() as int) =~= rv@);
            assert(h@.skip(n as int).len() == 0);
        }
        return string_from_chars(&out);
    }
    let m = p.len();
    let mut i: usize = 0;
    while i < n
        invariant
            h@ == s@,
            p@ == pat@,
            rv@ == rep@,
            n == h.len(),
            m == p.len(),
            m > 0,
            i <= n,
            out@ + replace_nonempty(h@.skip(i as int), p@, rv@) == replace_nonempty(h@, p@, rv@),
        decreases n - i,
    {
        let ghost rest = h@.skip(i as int);
        if m <= n - i && occurs_at_exec(&h, &p, i) {
            proof {
                assert(rest.take(m as int) =~= h@.subrange(i as int, i + m));
                assert(rest.skip(m as int) =~= h@.skip(i + m));
            }
            let ghost before = out@;
            let mut k: usize = 0;
            while k < rv.len()
                invariant
                    k <= rv.len(),
                    out@ == before + rv@.take(k as int),
                decreases rv.len() - k,
            {
                out.push(rv[k]);
                k = k + 1;
                assert(rv@.take(k as int) =~= rv@.take(k - 1).push(rv@[k - 1]));
            }
            proof {
                assert(rv@.take(rv.len() as int) =~= rv@);
                assert(out@ + replace_nonempty(h@.skip(i + m), p@, rv@) =~= before + (rv@ + replace_nonempty(rest.skip(m as int), p@, rv@)));
            }
            i = i + m;
        } else {
            proof {
                assert(rest.skip(1) =~= h@.skip(i + 1));
                if rest.len() < m {
                    lemma_replace_nonempty_short(rest, p@, rv@);
                    lemma_replace_nonempty_short(rest.skip(1), p@, rv@);
                    assert(rest =~= seq![rest[0]] + rest.skip(1));
                } else {
                    assert(rest.take(m as int) =~= h@.subrange(i as int, i + m));
                }
            }
            let ghost before = out@;
            out.push(h[i]);
            proof {
                assert(out@ + replace_nonempty(h@.skip(i + 1), p@, rv@) =~= before + (seq![rest[0]] + replace_nonempty(rest.skip(1), p@, rv@)));
            }
            i = i + 1;
        }
    }
    proof {
        assert(h@.skip(i as int).len() == 0);
        assert(h@.skip(0) =~= h@);
    }
    string_from_chars(&out)
}

/// Whether `c` has the Unicode `White_Space` property, as `char::is_whitespace`.
pub fn is_white_space_char(c: char) -> (r: bool)
    ensures
        r == is_white_space(c),
{
    let u = c as u32;
    (0x09 <= u && u <= 0x0d) || u == 0x20 || u == 0x85 || u == 0xa0 || u == 0x1680 || (0x2000
        <= u && u <= 0x200a) || u == 0x2028 || u == 0x2029 || u == 0x202f || u == 0x205f || u
        == 0x3000
}

proof fn lemma_trim_start_skip(s: Seq<char>, i: int)
    requires
        0 <= i <= s.len(),
        forall|k: int| 0 <= k < i ==> is_white_space(s[k]),
    ensures
        trim_start(s) == trim_start(s.skip(i)),
    decreases i,
{
    if i > 0 {
        assert(s.skip(1).skip(i - 1) =~= s.skip(i));
        lemma_trim_start_skip(s.skip(1), i - 1);
    } else {
        assert(s.skip(0) =~= s);
    }
}

proof fn lemma_trim_end_take(s: Seq<char>, j: int)
    requires
        0 <= j <= s.len(),
        forall|k: int| j <= k < s.len() ==> is_white_space(s[k]),
    ensures
        trim_end(s) == trim_end(s.take(j)),
    decreases s.len() - j,
{
    if j < s.len() {
        assert(s.drop_last().take(j) =~= s.take(j));
        lemma_trim_end_take(s.drop_last(), j);
    } else {
        assert(s.take(j) =~= s);
    }
}

/// `s` without leading and trailing white space, as `str::trim`.
pub fn trim_str(s: &str) -> (r: String)
    ensures
        r@ == trimmed(s@),
{
    let v = chars_of(s);
    let n = v.len();
    let mut i: usize = 0;
    while i < n && is_white_space_char(v[i])
        invariant
            v@ == s@,
            n == v.len(),
            i <= n,
            forall|k: int| 0 <= k < i ==> is_white_space(v@[k]),
        decreases n - i,
    {
        i = i + 1;
    }
    let mut j: usize = n;
    while j > i && is_white_space_char(v[j - 1])
        invariant
            v@ == s@,
            n == v.len(),
            i <= j <= n,
            forall|k: int| j <= k < n ==> is_white_space(v@[k]),
        decreases j,
    {
        j = j - 1;
    }
    let mut out: Vec<char> = Vec::new();
    let mut k: usize = i;
    while k < j
        invariant
            v@ == s@,
            i <= k <= j <= n,
            n == v.len(),
            out@ == v@.subrange(i as int, k as int),
        decreases j - k,
    {
        out.push(v[k]);
        k = k + 1;
        assert(out@ =~= v@.subrange(i as int, k as int));
    }
    proof {
        lemma_trim_start_skip(v@, i as int);
        let rest = v@.skip(i as int);
        if i < n {
            assert(!is_white_space(rest[0]));
            assert(trim_start(rest) == rest);
        } else {
            assert(rest.len() == 0);
        }
        assert forall|q: int| (j - i) <= q < rest.len() implies is_white_space(rest[q]) by {
            assert(rest[q] == v@[i + q]);
        }
        lemma_trim_end_take(rest, j - i);
        let mid = rest.take(j - i);
        assert(mid =~= v@.subrange(i as int, j as int));
        if j > i {
            assert(mid.last() == v@[j - 1]);
        }
    }
    string_from_chars(&out)
}

/// The first `n` characters of `s`, as `s.chars().take(n).collect()`.
pub fn prefix_of(s: &str, n: usize) -> (r: String)
    ensures
        r@ == prefix_chars(s@, n as nat),
{
    let v = chars_of(s);
    let mut out: Vec<char> = Vec::new();
    let mut k: usize = 0;
    while k < n && k < v.len()
        invariant
            v@ == s@,
            k <= v.len(),
            k <= n,
            out@ == v@.take(k as int),
        decreases v.len() - k,
    {
        out.push(v[k]);
        k = k + 1;
        assert(out@ =~= v@.take(k as int));
    }
    assert(v@.len() <= n ==> v@.take(k as int) =~= v@);
    assert(v@.len() > n ==> k == n);
    string_from_chars(&out)
}

fn digit_of(d: u64) -> (c: char)
    requires
        d < 10,
    ensures
        c == digit_char(d as nat),
{
    if d == 0 {
        '0'
    } else if d == 1 {
        '1'
    } else if d == 2 {
        '2'
    } else if d == 3 {
        '3'
    } else if d == 4 {
        '4'
    } else if d == 5 {
        '5'
    } else if d == 6 {
        '6'
    } else if d == 7 {
        '7'
    } else if d == 8 {
        '8'
    } else {
        '9'
    }
}

fn push_decimal(n: u64, out: &mut Vec<char>)
    ensures
        final(out)@ == old(out)@ + decimal(n as nat),
    decreases n,
{
    if n < 10 {
        out.push(digit_of(n));
    } else {
        push_decimal(n / 10, out);
        out.push(digit_of(n % 10));
        assert(decimal(n as nat) == decimal((n / 10) as nat).push(digit_char((n % 10) as nat)));
    }
}

/// The decimal notation of `n`.
pub fn decimal_string(n: u64) -> (r: String)
    ensures
        r@ == decimal(n as nat),
{
    let mut out: Vec<char> = Vec::new();
    push_decimal(n, &mut out);
    assert(out@ =~= decimal(n as nat));
    string_from_chars(&out)
}

// ─── Unsigned integer parsing ────────────────────────────────────────────────

pub open spec fn is_digit(c: char) -> bool {
    '0' <= c && c <= '9'
}

pub open spec fn all_digits(ds: Seq<char>) -> bool {
    forall|i: int| 0 <= i < ds.len() ==> is_digit(#[trigger] ds[i])
}

/// The value of a string of decimal digits.
pub open spec fn digits_value(ds: Seq<char>) -> nat
    decreases ds.len(),
{
    if ds.len() == 0 {
        0
    } else {
        digits_value(ds.drop_last()) * 10 + ((ds.last() as int - '0' as int) as nat)
    }
}

/// `str::parse::<u32>`: an optional `+`, then at least one decimal digit and
/// nothing else, with a value that fits in `u32`.
pub open spec fn parse_u32(s: Seq<char>) -> Option<u32> {
    let ds = if s.len() > 0 && s[0] == '+' {
        s.skip(1)
    } else {
        s
    };
    if ds.len() > 0 && all_digits(ds) && digits_value(ds) <= u32::MAX {
        Some(digits_value(ds) as u32)
    } else {
        None
    }
}

proof fn lemma_digits_value_monotone(ds: Seq<char>, i: int)
    requires
        0 <= i <= ds.len(),
        all_digits(ds),
    ensures
        digits_value(ds.take(i)) <= digits_value(ds),
    decreases ds.len() - i,
{
    if i < ds.len() {
        let t = ds.take(i + 1);
        assert(t.drop_last() =~= ds.take(i));
        lemma_digits_value_monotone(ds, i + 1);
    } else {
        assert(ds.take(i) =~= ds);
    }
}

/// The value of `s` read as a `u32`, as `s.parse::<u32>().ok()`.
pub fn parse_u32_str(s: &str) -> (r: Option<u32>)
    ensures
        r == parse_u32(s@),
{
    let v = chars_of(s);
    let start: usize = if v.len() > 0 && v[0] == '+' {
        1
    } else {
        0
    };
    let ghost ds = if v@.len() > 0 && v@[0] == '+' {
        v@.skip(1)
    } else {
        v@
    };
    assert(ds =~= v@.skip(start as int));
    if start >= v.len() {
        return None;
    }
    let mut acc: u64 = 0;
    let mut i: usize = start;
    while i < v.len()
        invariant
            v@ == s@,
            start <= i <= v.len(),
            ds =~= v@.skip(start as int),
            ds == (if v@.len() > 0 && v@[0] == '+' {
                v@.skip(1)
            } else {
                v@
            }),
            forall|k: int| 0 <= k < i - start ==> is_digit(#[trigger] ds[k]),
            acc == digits_value(ds.take(i - start)),
            acc <= u32::MAX,
        decreases v.len() - i,
    {
        let c = v[i];
        assert(ds[i - start] == c);
        if !('0' <= c && c <= '9') {
            assert(!is_digit(ds[i - start]));
            assert(!all_digits(ds));

            return None;
        }
        let d = (c as u32 - '0' as u32) as u64;
        proof {
            let t = ds.take(i - start + 1);
            assert(t.drop_last() =~= ds.take(i - start));
            assert(t.last() == c);
        }
        let next = acc * 10 + d;
        if next > u32::MAX as u64 {
            proof {
                if all_digits(ds) {
                    lemma_digits_value_monotone(ds, i - start + 1);
                    assert(digits_value(ds.take(i - start + 1)) == next);
                }
            }
            return None;
        }
        acc = next;
        i = i + 1;
    }
    assert(ds.take(i - start) =~= ds);
    assert(all_digits(ds));
    Some(acc as u32)
}

} // verus!
