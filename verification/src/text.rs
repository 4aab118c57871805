//! Character-level text helpers shared by the request builders, the
//! message formatters and the editor state: whitespace trimming, line
//! splitting, substring search and number formatting, each stated over the
//! `Seq<char>` view of a string.

use vstd::prelude::*;
use vstd::utf8::encode_utf8;

verus! {

// ─── Specifications ──────────────────────────────────────────────────────────

/// The Unicode `White_Space` property, which is what `char::is_whitespace`
/// and `str::trim` test.
pub open spec fn is_ws(c: char) -> bool {
    ||| ('\u{9}' <= c && c <= '\u{d}')
    ||| c == ' ' || c == '\u{85}' || c == '\u{a0}' || c == '\u{1680}'
    ||| ('\u{2000}' <= c && c <= '\u{200a}')
    ||| c == '\u{2028}' || c == '\u{2029}' || c == '\u{202f}' || c == '\u{205f}'
    ||| c == '\u{3000}'
}

/// `s` without its leading whitespace.
pub open spec fn trim_start(s: Seq<char>) -> Seq<char>
    decreases s.len(),
{
    if s.len() > 0 && is_ws(s[0]) {
        trim_start(s.drop_first())
    } else {
        s
    }
}

/// `s` without its trailing whitespace.
pub open spec fn trim_end(s: Seq<char>) -> Seq<char>
    decreases s.len(),
{
    if s.len() > 0 && is_ws(s.last()) {
        trim_end(s.drop_last())
    } else {
        s
    }
}

/// `s` without leading and trailing whitespace (`str::trim`).
pub open spec fn trim(s: Seq<char>) -> Seq<char> {
    trim_end(trim_start(s))
}

/// `i` is the position of the first `c` in `s`.
pub open spec fn is_first_index(s: Seq<char>, c: char, i: int) -> bool {
    &&& 0 <= i < s.len()
    &&& s[i] == c
    &&& forall|k: int| 0 <= k < i ==> s[k] != c
}

/// The position of the first `c` in `s`, or -1 when there is none.
pub open spec fn first_index(s: Seq<char>, c: char) -> int {
    if exists|i: int| is_first_index(s, c, i) {
        choose|i: int| is_first_index(s, c, i)
    } else {
        -1
    }
}

/// `needle` occurs in `hay` starting at position `i`.
pub open spec fn occurs_at(hay: Seq<char>, needle: Seq<char>, i: int) -> bool {
    0 <= i && i + needle.len() <= hay.len() && hay.subrange(i, i + needle.len()) == needle
}

/// `needle` occurs somewhere in `hay` (`str::contains` with a `&str` pattern).
pub open spec fn contains_seq(hay: Seq<char>, needle: Seq<char>) -> bool {
    exists|i: int| occurs_at(hay, needle, i)
}

/// One line as `str::lines` yields it: a trailing `'\r'` is dropped.
pub open spec fn strip_cr(line: Seq<char>) -> Seq<char> {
    if line.len() > 0 && line.last() == '\r' {
        line.drop_last()
    } else {
        line
    }
}

/// The lines of `s` as `str::lines` yields them: split at each `'\n'`, a
/// `'\r'` just before the `'\n'` dropped, and no final empty line after a
/// trailing `'\n'`.
pub open spec fn lines_of(s: Seq<char>) -> Seq<Seq<char>>
    decreases s.len(),
{
    if s.len() == 0 {
        seq![]
    } else {
        let i = first_index(s, '\n');
        if i < 0 {
            seq![s]
        } else {
            seq![strip_cr(s.take(i))] + lines_of(s.skip(i + 1))
        }
    }
}

/// The ASCII decimal digit of `d`.
pub open spec fn digit_char(d: nat) -> char {
    if d == 0 { '0' }
    else if d == 1 { '1' }
    else if d == 2 { '2' }
    else if d == 3 { '3' }
    else if d == 4 { '4' }
    else if d == 5 { '5' }
    else if d == 6 { '6' }
    else if d == 7 { '7' }
    else if d == 8 { '8' }
    else { '9' }
}

/// The decimal representation of `n`, as `Display` writes it.
pub open spec fn decimal(n: nat) -> Seq<char>
    decreases n,
{
    if n < 10 {
        seq![digit_char(n)]
    } else {
        decimal(n / 10) + seq![digit_char(n % 10)]
    }
}

/// The upper-case hexadecimal digit of `d`.
pub open spec fn hex_digit(d: nat) -> char {
    if d < 10 { digit_char(d) }
    else if d == 10 { 'A' }
    else if d == 11 { 'B' }
    else if d == 12 { 'C' }
    else if d == 13 { 'D' }
    else if d == 14 { 'E' }
    else { 'F' }
}

/// A byte as two upper-case hexadecimal digits (`{:02X}`).
pub open spec fn hex_byte(b: u8) -> Seq<char> {
    seq![hex_digit((b / 16) as nat), hex_digit((b % 16) as nat)]
}

/// Number of bytes of the UTF-8 encoding of `s` (what `str::len` returns).
pub open spec fn byte_len(s: Seq<char>) -> nat {
    encode_utf8(s).len()
}

/// Byte offset `pos` falls between two characters of `s`
/// (`str::is_char_boundary`).
pub open spec fn is_boundary(s: Seq<char>, pos: int) -> bool {
    exists|k: int| 0 <= k <= s.len() && byte_len(s.take(k)) == pos
}

/// The number of characters that precede byte offset `pos` of `s`.
pub open spec fn char_index(s: Seq<char>, pos: int) -> int {
    choose|k: int| 0 <= k <= s.len() && byte_len(s.take(k)) == pos
}

/// The index of the character of `s` that holds the byte just before
/// offset `pos` (meaningful for `0 < pos <= byte_len(s)`).
pub open spec fn char_before(s: Seq<char>, pos: int) -> int {
    choose|j: int| 0 <= j < s.len() && #[trigger] byte_len(s.take(j)) < pos <= byte_len(s.take(j + 1))
}

/// The UTF-8 encoding of a concatenation is the concatenation of the
/// encodings.
pub proof fn lemma_encode_concat(a: Seq<char>, b: Seq<char>)
    ensures
        encode_utf8(a + b) == encode_utf8(a) + encode_utf8(b),
    decreases a.len(),
{
    if a.len() == 0 {
        assert(a + b =~= b);
        assert(encode_utf8(a) =~= Seq::<u8>::empty());
        assert(encode_utf8(a) + encode_utf8(b) =~= encode_utf8(b));
    } else {
        assert((a + b).drop_first() =~= a.drop_first() + b);
        assert((a + b)[0] == a[0]);
        lemma_encode_concat(a.drop_first(), b);
        let e = vstd::utf8::encode_scalar(a[0] as u32);
        assert(encode_utf8(a + b) =~= e + encode_utf8(a.drop_first() + b));
        assert(encode_utf8(a) =~= e + encode_utf8(a.drop_first()));
        assert(e + (encode_utf8(a.drop_first()) + encode_utf8(b)) =~= (e + encode_utf8(
            a.drop_first(),
        )) + encode_utf8(b));
    }
}

/// An ASCII character takes one byte.
pub proof fn lemma_ascii_one_byte(s: Seq<char>, c: char)
    requires
        (c as u32) < 128,
    ensures
        byte_len(s.push(c)) == byte_len(s) + 1,
{
    lemma_encode_concat(s, seq![c]);
    assert(s.push(c) =~= s + seq![c]);
    let one = seq![c];
    assert(one.drop_first() =~= Seq::<char>::empty());
    assert(encode_utf8(one.drop_first()) =~= Seq::<u8>::empty());
    assert(vstd::utf8::encode_scalar(one[0] as u32).len() == 1);
    assert(encode_utf8(one) == vstd::utf8::encode_scalar(one[0] as u32) + encode_utf8(
        one.drop_first(),
    ));
    assert(encode_utf8(one).len() == 1);
}

/// Every character takes at least one byte, so a longer prefix has a
/// longer encoding.
pub proof fn lemma_prefix_bytes_strict(s: Seq<char>, i: int, j: int)
    requires
        0 <= i < j <= s.len(),
    ensures
        byte_len(s.take(i)) < byte_len(s.take(j)),
{
    let sub = s.subrange(i, j);
    assert(s.take(j) =~= s.take(i) + sub);
    lemma_encode_concat(s.take(i), sub);
    let e = vstd::utf8::encode_scalar(sub[0] as u32);
    assert(e.len() >= 1);
    assert(encode_utf8(sub) == e + encode_utf8(sub.drop_first()));
}

/// A byte offset falls between two characters at one position only.
pub proof fn lemma_char_index_unique(s: Seq<char>, k: int)
    requires
        0 <= k <= s.len(),
    ensures
        is_boundary(s, byte_len(s.take(k)) as int),
        char_index(s, byte_len(s.take(k)) as int) == k,
{
    let pos = byte_len(s.take(k)) as int;
    assert(0 <= k <= s.len() && byte_len(s.take(k)) == pos);
    let j = char_index(s, pos);
    if j < k {
        lemma_prefix_bytes_strict(s, j, k);
    } else if k < j {
        lemma_prefix_bytes_strict(s, k, j);
    }
}

/// A longer prefix never has a shorter encoding.
pub proof fn lemma_prefix_bytes_mono(s: Seq<char>, i: int, j: int)
    requires
        0 <= i <= j <= s.len(),
    ensures
        byte_len(s.take(i)) <= byte_len(s.take(j)),
{
    if i < j {
        lemma_prefix_bytes_strict(s, i, j);
    }
}

/// Only one character holds the byte before a given offset.
pub proof fn lemma_char_before_unique(s: Seq<char>, pos: int, j: int)
    requires
        0 <= j < s.len(),
        byte_len(s.take(j)) < pos <= byte_len(s.take(j + 1)),
    ensures
        char_before(s, pos) == j,
{
    let c = char_before(s, pos);
    assert(0 <= c < s.len() && byte_len(s.take(c)) < pos <= byte_len(s.take(c + 1)));
    if c < j {
        lemma_prefix_bytes_mono(s, c + 1, j);
    } else if j < c {
        lemma_prefix_bytes_mono(s, j + 1, c);
    }
}

// ─── Trusted items over std ──────────────────────────────────────────────────

/// `str::len`: the number of bytes of the UTF-8 encoding.
#[verifier::external_body]
pub(crate) fn str_byte_len(s: &str) -> (r: usize)
    ensures
        r == byte_len(s@),
{
    s.len()
}

/// `String::push`: appends one character.
#[verifier::external_body]
pub(crate) fn push_char(s: &mut String, c: char)
    ensures
        final(s)@ == old(s)@.push(c),
{
    s.push(c);
}

/// `<str as PartialEq>::eq`: two strings are equal exactly when they hold
/// the same characters.
#[verifier::external_body]
pub(crate) fn str_eq(a: &str, b: &str) -> (r: bool)
    ensures
        r == (a@ == b@),
{
    a == b
}

/// `String::insert`: inserts `c` at byte offset `idx`, which must lie on a
/// character boundary (the std documentation says it panics otherwise).
#[verifier::external_body]
pub(crate) fn string_insert(s: &mut String, idx: usize, c: char)
    requires
        is_boundary(old(s)@, idx as int),
    ensures
        forall|k: int|
            0 <= k <= old(s)@.len() && #[trigger] byte_len(old(s)@.take(k)) == idx ==> final(s)@
                == old(s)@.take(k) + seq![c] + old(s)@.skip(k),
{
    s.insert(idx, c);
}

/// `String::remove`: removes the character that starts at byte offset
/// `idx`, which must be a character boundary before the end (the std
/// documentation says it panics otherwise), and returns it.
#[verifier::external_body]
pub(crate) fn string_remove(s: &mut String, idx: usize) -> (c: char)
    requires
        is_boundary(old(s)@, idx as int),
        idx < byte_len(old(s)@),
    ensures
        forall|k: int|
            0 <= k < old(s)@.len() && #[trigger] byte_len(old(s)@.take(k)) == idx ==> {
                &&& final(s)@ == old(s)@.take(k) + old(s)@.skip(k + 1)
                &&& c == old(s)@[k]
            },
{
    s.remove(idx)
}

// ─── Verified helpers ────────────────────────────────────────────────────────

/// `char::is_whitespace`.
pub fn is_whitespace(c: char) -> (r: bool)
    ensures
        r == is_ws(c),
{
    ('\u{9}' <= c && c <= '\u{d}') || c == ' ' || c == '\u{85}' || c == '\u{a0}' || c
        == '\u{1680}' || ('\u{2000}' <= c && c <= '\u{200a}') || c == '\u{2028}' || c
        == '\u{2029}' || c == '\u{202f}' || c == '\u{205f}' || c == '\u{3000}'
}

/// The characters of `s`.
pub fn chars_of(s: &str) -> (v: Vec<char>)
    ensures
        v@ == s@,
{
    let mut v: Vec<char> = Vec::new();
    for c in it: s.chars()
        invariant
            v@ == it.seq().take(it.index() as int),
            it.seq() == s@,
    {
        v.push(c);
    }
    v
}

/// A new string holding `v[lo..hi]`.
pub fn string_from_range(v: &Vec<char>, lo: usize, hi: usize) -> (s: String)
    requires
        lo <= hi <= v@.len(),
    ensures
        s@ == v@.subrange(lo as int, hi as int),
{
    let mut s = String::new();
    let mut i = lo;
    while i < hi
        invariant
            lo <= i <= hi <= v@.len(),
            s@ == v@.subrange(lo as int, i as int),
        decreases hi - i,
    {
        push_char(&mut s, v[i]);
        assert(v@.subrange(lo as int, i + 1) =~= v@.subrange(lo as int, i as int).push(v@[i as int]));
        i += 1;
    }
    s
}

/// A new string holding the characters of `v`.
pub fn string_from_chars(v: &Vec<char>) -> (s: String)
    ensures
        s@ == v@,
{
    let s = string_from_range(v, 0, v.len());
    assert(v@.subrange(0, v@.len() as int) =~= v@);
    s
}

proof fn lemma_trim_start_step(s: Seq<char>, i: int)
    requires
        0 <= i < s.len(),
        is_ws(s[i]),
    ensures
        trim_start(s.skip(i)) == trim_start(s.skip(i + 1)),
{
    assert(s.skip(i).drop_first() =~= s.skip(i + 1));
}

proof fn lemma_trim_end_step(s: Seq<char>, j: int)
    requires
        0 < j <= s.len(),
        is_ws(s[j - 1]),
    ensures
        trim_end(s.take(j)) == trim_end(s.take(j - 1)),
{
    assert(s.take(j).drop_last() =~= s.take(j - 1));
}

/// Bounds `(a, b)` such that `v[a..b]` is `v[lo..hi]` trimmed.
pub fn trim_bounds(v: &Vec<char>, lo: usize, hi: usize) -> (r: (usize, usize))
    requires
        lo <= hi <= v@.len(),
    ensures
        lo <= r.0 <= r.1 <= hi,
        v@.subrange(r.0 as int, r.1 as int) == trim(v@.subrange(lo as int, hi as int)),
{
    let ghost s = v@.subrange(lo as int, hi as int);
    let mut a = lo;
    assert(s.skip(0) =~= s);
    while a < hi && is_whitespace(v[a])
        invariant
            lo <= a <= hi <= v@.len(),
            s == v@.subrange(lo as int, hi as int),
            trim_start(s) == trim_start(s.skip(a - lo)),
        decreases hi - a,
    {
        proof {
            lemma_trim_start_step(s, a - lo);
        }
        a += 1;
    }
    let ghost t = s.skip(a - lo);
    assert(trim_start(s) == t) by {
        if a < hi {
            assert(t[0] == v@[a as int]);
        } else {
            assert(t.len() == 0);
        }
    }
    assert(t =~= v@.subrange(a as int, hi as int));
    let mut b = hi;
    assert(t.take(t.len() as int) =~= t);
    while b > a && is_whitespace(v[b - 1])
        invariant
            lo <= a <= b <= hi <= v@.len(),
            t == v@.subrange(a as int, hi as int),
            trim_end(t) == trim_end(t.take(b - a)),
        decreases b - a,
    {
        proof {
            lemma_trim_end_step(t, b - a);
        }
        b -= 1;
    }
    let ghost u = t.take(b - a);
    assert(u =~= v@.subrange(a as int, b as int));
    assert(trim_end(u) == u) by {
        if b > a {
            assert(u.last() == v@[b - 1]);
        }
    }
    (a, b)
}

/// `str::trim`, returned as a new string.
pub fn trim_string(s: &str) -> (r: String)
    ensures
        r@ == trim(s@),
{
    let v = chars_of(s);
    let (a, b) = trim_bounds(&v, 0, v.len());
    assert(v@.subrange(0, v@.len() as int) =~= v@);
    string_from_range(&v, a, b)
}

/// The first position at or after `from` where `v[i] == c`, or `hi`.
pub fn find_char(v: &Vec<char>, c: char, from: usize, hi: usize) -> (r: usize)
    requires
        from <= hi <= v@.len(),
    ensures
        from <= r <= hi,
        forall|k: int| from <= k < r ==> v@[k] != c,
        r < hi ==> v@[r as int] == c,
{
    let mut i = from;
    while i < hi && v[i] != c
        invariant
            from <= i <= hi <= v@.len(),
            forall|k: int| from <= k < i ==> v@[k] != c,
        decreases hi - i,
    {
        i += 1;
    }
    i
}

/// The first index of `c` in `s`, related to the search result.
pub proof fn lemma_first_index(s: Seq<char>, c: char, i: int)
    requires
        0 <= i <= s.len(),
        forall|k: int| 0 <= k < i ==> s[k] != c,
        i < s.len() ==> s[i] == c,
    ensures
        first_index(s, c) == if i < s.len() { i } else { -1 },
{
    if i < s.len() {
        assert(is_first_index(s, c, i));
        let j = choose|j: int| is_first_index(s, c, j);
        if j < i {
            assert(s[j] != c);
        }
        if i < j {
            assert(s[i] != c);
        }
    } else {
        assert forall|j: int| !is_first_index(s, c, j) by {
            if 0 <= j < s.len() {
                assert(s[j] != c);
            }
        }
    }
}

/// Whether `needle` occurs in `hay` (`str::contains`).
pub fn contains_str(hay: &str, needle: &str) -> (r: bool)
    ensures
        r == contains_seq(hay@, needle@),
{
    let h = chars_of(hay);
    let n = chars_of(needle);
    if n.len() > h.len() {
        assert forall|i: int| !occurs_at(hay@, needle@, i) by {}
        return false;
    }
    let last = h.len() - n.len();
    let mut i: usize = 0;
    while i <= last
        invariant
            h@ == hay@,
            n@ == needle@,
            n@.len() <= h@.len(),
            last == h@.len() - n@.len(),
            i <= last + 1,
            forall|p: int| 0 <= p < i ==> !occurs_at(hay@, needle@, p),
        decreases last + 1 - i,
    {
        let mut j: usize = 0;
        while j < n.len()
            invariant
                h@ == hay@,
                n@ == needle@,
                i <= last,
                n@.len() <= h@.len(),
                last == h@.len() - n@.len(),
                j <= n@.len(),
                forall|q: int| 0 <= q < j ==> h@[i + q] == n@[q],
            ensures
                j <= n@.len(),
                forall|q: int| 0 <= q < j ==> h@[i + q] == n@[q],
                j < n@.len() ==> h@[i + j] != n@[j as int],
            decreases n@.len() - j,
        {
            assert(i + j < h@.len());
            assert(h@.len() == h.len());
            if h[i + j] != n[j] {
                break;
            }
            j += 1;
        }
        if j == n.len() {
            assert(hay@.subrange(i as int, i + needle@.len()) =~= needle@);
            assert(occurs_at(hay@, needle@, i as int));
            return true;
        }
        assert(!occurs_at(hay@, needle@, i as int)) by {
            if occurs_at(hay@, needle@, i as int) {
                assert(hay@.subrange(i as int, i + needle@.len())[j as int] == h@[i + j]);
            }
        }
        if i == last {
            assert forall|p: int| !occurs_at(hay@, needle@, p) by {
                if 0 <= p && p < i {
                } else if p == i {
                } else {
                }
            }
            return false;
        }
        i += 1;
    }
    false
}

/// The lines of `s`, as `str::lines` yields them.
pub fn lines(s: &str) -> (r: Vec<String>)
    ensures
        r@.len() == lines_of(s@).len(),
        forall|i: int| 0 <= i < r@.len() ==> #[trigger] r@[i]@ == lines_of(s@)[i],
{
    let v = chars_of(s);
    let mut out: Vec<String> = Vec::new();
    let mut start: usize = 0;
    assert(v@.skip(0) =~= v@);
    while start < v.len()
        invariant
            v@ == s@,
            start <= v@.len(),
            lines_of(s@) == out@.map_values(|x: String| x@) + lines_of(v@.skip(start as int)),
        decreases v@.len() - start,
    {
        let ghost rest = v@.skip(start as int);
        let nl = find_char(&v, '\n', start, v.len());
        proof {
            assert forall|k: int| 0 <= k < nl - start implies rest[k] != '\n' by {
                assert(rest[k] == v@[start + k]);
            }
            if nl < v.len() {
                assert(rest[nl - start] == v@[nl as int]);
            }
            lemma_first_index(rest, '\n', nl - start);
        }
        let mut end = nl;
        if end > start && v[end - 1] == '\r' && nl < v.len() {
            end = end - 1;
        }
        let line = string_from_range(&v, start, end);
        let ghost old_out = out@;
        out.push(line);
        if nl < v.len() {
            proof {
                assert(rest.take(nl - start) =~= v@.subrange(start as int, nl as int));
                assert(strip_cr(rest.take(nl - start)) =~= v@.subrange(start as int, end as int));
                assert(rest.skip(nl - start + 1) =~= v@.skip(nl + 1));
                assert(out@.map_values(|x: String| x@) =~= old_out.map_values(|x: String| x@).push(line@));
                assert(lines_of(rest) == seq![v@.subrange(start as int, end as int)] + lines_of(v@.skip(nl + 1)));
                assert(lines_of(s@) =~= out@.map_values(|x: String| x@) + lines_of(v@.skip(nl + 1)));
            }
            start = nl + 1;
        } else {
            proof {
                assert(rest =~= v@.subrange(start as int, end as int));
                assert(lines_of(rest) == seq![rest]);
                assert(v@.skip(v@.len() as int) =~= Seq::<char>::empty());
                assert(out@.map_values(|x: String| x@) =~= old_out.map_values(|x: String| x@).push(line@));
                assert(lines_of(s@) =~= out@.map_values(|x: String| x@) + lines_of(v@.skip(nl as int)));
            }
            start = nl;
        }
    }
    proof {
        assert(v@.skip(start as int) =~= Seq::<char>::empty());
        assert(lines_of(s@) =~= out@.map_values(|x: String| x@));
    }
    out
}

/// The ASCII digit for `d < 10`.
pub fn digit(d: u8) -> (c: char)
    requires
        d < 10,
    ensures
        c == digit_char(d as nat),
{
    if d == 0 { '0' }
    else if d == 1 { '1' }
    else if d == 2 { '2' }
    else if d == 3 { '3' }
    else if d == 4 { '4' }
    else if d == 5 { '5' }
    else if d == 6 { '6' }
    else if d == 7 { '7' }
    else if d == 8 { '8' }
    else { '9' }
}

/// Appends the decimal representation of `n` to `s`.
pub fn push_decimal(s: &mut String, n: u128)
    ensures
        final(s)@ == old(s)@ + decimal(n as nat),
    decreases n,
{
    if n < 10 {
        push_char(s, digit(n as u8));
    } else {
        push_decimal(s, n / 10);
        push_char(s, digit((n % 10) as u8));
        proof {
            assert(old(s)@ + decimal(n as nat) =~= old(s)@ + decimal((n / 10) as nat) + seq![
                digit_char((n % 10) as nat),
            ]);
        }
    }
}

/// The upper-case hexadecimal digit for `d < 16`.
pub fn hex_digit_char(d: u8) -> (c: char)
    requires
        d < 16,
    ensures
        c == hex_digit(d as nat),
{
    if d < 10 { digit(d) }
    else if d == 10 { 'A' }
    else if d == 11 { 'B' }
    else if d == 12 { 'C' }
    else if d == 13 { 'D' }
    else if d == 14 { 'E' }
    else { 'F' }
}

/// Appends `b` as two upper-case hexadecimal digits.
pub fn push_hex_byte(s: &mut String, b: u8)
    ensures
        final(s)@ == old(s)@ + hex_byte(b),
{
    push_char(s, hex_digit_char(b / 16));
    push_char(s, hex_digit_char(b % 16));
    assert(old(s)@.push(hex_digit((b / 16) as nat)).push(hex_digit((b % 16) as nat)) =~= old(s)@
        + hex_byte(b));
}

/// The number of bytes of the UTF-8 encoding of `c` (`char::len_utf8`).
pub fn utf8_width(c: char) -> (r: usize)
    ensures
        r == vstd::utf8::encode_scalar(c as u32).len(),
        1 <= r <= 4,
{
    let u = c as u32;
    if u <= 0x7F {
        1
    } else if u <= 0x7FF {
        2
    } else if u <= 0xFFFF {
        proof {
            vstd::utf8::char_is_scalar(c);
        }
        3
    } else {
        4
    }
}

/// Appending one character adds the bytes of its encoding.
proof fn lemma_push_bytes(s: Seq<char>, k: int)
    requires
        0 <= k < s.len(),
    ensures
        byte_len(s.take(k + 1)) == byte_len(s.take(k)) + vstd::utf8::encode_scalar(
            s[k] as u32,
        ).len(),
{
    let one = seq![s[k]];
    assert(s.take(k + 1) =~= s.take(k) + one);
    lemma_encode_concat(s.take(k), one);
    assert(one.drop_first() =~= Seq::<char>::empty());
    assert(encode_utf8(one.drop_first()) =~= Seq::<u8>::empty());
    assert(encode_utf8(one) == vstd::utf8::encode_scalar(one[0] as u32) + encode_utf8(
        one.drop_first(),
    ));
}

/// The byte offset where the character holding the byte just before `pos`
/// starts.
pub fn char_start_before(s: &str, pos: usize) -> (r: usize)
    requires
        0 < pos <= byte_len(s@),
    ensures
        0 <= char_before(s@, pos as int) < s@.len(),
        byte_len(s@.take(char_before(s@, pos as int))) < pos <= byte_len(
            s@.take(char_before(s@, pos as int) + 1),
        ),
        r == byte_len(s@.take(char_before(s@, pos as int))),
{
    let v = chars_of(s);
    let total = str_byte_len(s);
    let mut acc: usize = 0;
    let mut k: usize = 0;
    assert(v@.take(0) =~= Seq::<char>::empty());
    assert(encode_utf8(Seq::<char>::empty()) =~= Seq::<u8>::empty());
    assert(v@.take(v@.len() as int) =~= v@);
    assert(v@.len() > 0) by {
        if v@.len() == 0 {
            assert(v@ =~= Seq::<char>::empty());
        }
    }
    loop
        invariant
            v@ == s@,
            v@.take(v@.len() as int) == v@,
            total == byte_len(s@),
            0 < pos <= byte_len(s@),
            k < v.len(),
            acc == byte_len(v@.take(k as int)),
            acc < pos,
        decreases v@.len() - k,
    {
        proof {
            lemma_push_bytes(v@, k as int);
            lemma_prefix_bytes_mono(v@, k + 1, v@.len() as int);
        }
        let next = acc + utf8_width(v[k]);
        if next >= pos {
            proof {
                lemma_char_before_unique(s@, pos as int, k as int);
            }
            return acc;
        }
        assert(k + 1 < v@.len());
        acc = next;
        k += 1;
    }
}

/// Whether byte offset `pos` of `s` falls between two characters
/// (`str::is_char_boundary`).
pub fn is_char_boundary_at(s: &str, pos: usize) -> (r: bool)
    ensures
        r == is_boundary(s@, pos as int),
{
    let v = chars_of(s);
    let total = str_byte_len(s);
    let mut acc: usize = 0;
    let mut k: usize = 0;
    assert(v@.take(0) =~= Seq::<char>::empty());
    assert(encode_utf8(Seq::<char>::empty()) =~= Seq::<u8>::empty());
    assert(v@.take(v@.len() as int) =~= v@);
    loop
        invariant
            v@ == s@,
            total == byte_len(s@),
            k <= v@.len(),
            acc == byte_len(v@.take(k as int)),
            forall|j: int| 0 <= j < k ==> byte_len(#[trigger] v@.take(j)) != pos,
        decreases v@.len() - k,
    {
        if acc == pos {
            assert(byte_len(s@.take(k as int)) == pos);
            return true;
        }
        if k == v.len() {
            assert forall|j: int| 0 <= j <= s@.len() implies byte_len(#[trigger] s@.take(j)) != pos by {
                if j == k {
                } else {
                    assert(byte_len(v@.take(j)) != pos);
                }
            }
            return false;
        }
        proof {
            lemma_push_bytes(v@, k as int);
            assert(v@.take(v@.len() as int) =~= v@);
            if k + 1 < v@.len() {
                lemma_prefix_bytes_strict(v@, k + 1, v@.len() as int);
            }
            assert(byte_len(v@.take(k + 1)) <= total);
        }
        acc = acc + utf8_width(v[k]);
        k += 1;
    }
}

} // verus!
