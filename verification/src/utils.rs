//! Parsing of `"Key: Value"` header lines.

use vstd::prelude::*;

use crate::headers::{
    insert_entry, law_get_after_insert, law_insert_other_unchanged, lemma_insert_distinct, lookup,
    names_distinct, HeaderList, HeaderSeq,
};
use crate::text::{
    chars_of, find_char, first_index, lemma_first_index, string_from_range, trim, trim_bounds,
};

verus! {

/// What `parse_header` gives for `raw`: the text before the first `':'`
/// and the text after it, each trimmed; nothing when there is no `':'`.
pub open spec fn header_parts(raw: Seq<char>) -> Option<(Seq<char>, Seq<char>)> {
    let i = first_index(raw, ':');
    if i < 0 {
        None
    } else {
        Some((trim(raw.take(i)), trim(raw.skip(i + 1))))
    }
}

/// Parse a "Key: Value" header string into a (String, String) tuple.
pub fn parse_header(raw: &str) -> (r: Option<(String, String)>)
    ensures
        match r {
            Some((k, v)) => header_parts(raw@) == Some((k@, v@)),
            None => header_parts(raw@) is None,
        },
{
    let v = chars_of(raw);
    let n = v.len();
    let colon = find_char(&v, ':', 0, n);
    proof {
        lemma_first_index(raw@, ':', colon as int);
    }
    if colon == n {
        return None;
    }
    let (a, b) = trim_bounds(&v, 0, colon);
    let (c, d) = trim_bounds(&v, colon + 1, n);
    let key = string_from_range(&v, a, b);
    let value = string_from_range(&v, c, d);
    proof {
        assert(v@.subrange(0, colon as int) =~= raw@.take(colon as int));
        assert(v@.subrange(colon + 1, n as int) =~= raw@.skip(colon + 1));
    }
    Some((key, value))
}

/// The table built from raw header lines by parsing each in turn and
/// storing the well-formed ones (later lines win on a repeated name).
pub open spec fn headers_from_lines(lines: Seq<Seq<char>>, start: HeaderSeq) -> HeaderSeq
    decreases lines.len(),
{
    if lines.len() == 0 {
        start
    } else {
        let prev = headers_from_lines(lines.drop_last(), start);
        match header_parts(lines.last()) {
            Some((k, v)) => insert_entry(prev, k, v),
            None => prev,
        }
    }
}

/// The raw lines among `lines` that `parse_header` rejects, in order.
pub open spec fn malformed_lines(lines: Seq<Seq<char>>) -> Seq<Seq<char>>
    decreases lines.len(),
{
    if lines.len() == 0 {
        seq![]
    } else {
        let prev = malformed_lines(lines.drop_last());
        if header_parts(lines.last()) is None {
            prev.push(lines.last())
        } else {
            prev
        }
    }
}

/// Parses each raw header and stores the well-formed ones in `headers`;
/// returns the raw headers that were skipped as malformed.
pub fn add_raw_headers(headers: &mut HeaderList, raw: &Vec<String>) -> (skipped: Vec<String>)
    ensures
        final(headers)@ == headers_from_lines(raw@.map_values(|s: String| s@), old(headers)@),
        skipped@.map_values(|s: String| s@) == malformed_lines(raw@.map_values(|s: String| s@)),
{
    let ghost lines = raw@.map_values(|s: String| s@);
    let mut skipped: Vec<String> = Vec::new();
    let mut i: usize = 0;
    assert(lines.take(0) =~= Seq::<Seq<char>>::empty());
    while i < raw.len()
        invariant
            i <= raw@.len(),
            lines == raw@.map_values(|s: String| s@),
            headers@ == headers_from_lines(lines.take(i as int), old(headers)@),
            skipped@.map_values(|s: String| s@) == malformed_lines(lines.take(i as int)),
        decreases raw@.len() - i,
    {
        let ghost prev_skipped = skipped@;
        assert(lines.take(i + 1).drop_last() =~= lines.take(i as int));
        assert(lines.take(i + 1).last() == raw@[i as int]@);
        match parse_header(raw[i].as_str()) {
            Some((k, v)) => {
                headers.insert(k, v);
            },
            None => {
                skipped.push(raw[i].clone());
                assert(skipped@.map_values(|s: String| s@) =~= prev_skipped.map_values(
                    |s: String| s@,
                ).push(raw@[i as int]@));
            },
        }
        i += 1;
    }
    assert(lines.take(raw@.len() as int) =~= lines);
    skipped
}

/// Building a table from lines keeps its names distinct.
proof fn lemma_lines_distinct(lines: Seq<Seq<char>>, start: HeaderSeq)
    requires
        names_distinct(start),
    ensures
        names_distinct(headers_from_lines(lines, start)),
    decreases lines.len(),
{
    if lines.len() > 0 {
        lemma_lines_distinct(lines.drop_last(), start);
        let prev = headers_from_lines(lines.drop_last(), start);
        if let Some((k, v)) = header_parts(lines.last()) {
            lemma_insert_distinct(prev, k, v);
        }
    }
}

/// Later header lines win: when line `i` parses to `k` and `v` and no
/// later line parses to the name `k`, the table built from the lines holds
/// `v` under `k`, whatever it held before.
pub proof fn law_last_header_line_wins(
    lines: Seq<Seq<char>>,
    start: HeaderSeq,
    i: int,
    k: Seq<char>,
    v: Seq<char>,
)
    requires
        names_distinct(start),
        0 <= i < lines.len(),
        header_parts(lines[i]) == Some((k, v)),
        forall|j: int|
            i < j < lines.len() ==> !(#[trigger] header_parts(lines[j]) matches Some(p) && p.0
                == k),
    ensures
        lookup(headers_from_lines(lines, start), k) == Some(v),
    decreases lines.len(),
{
    let init = lines.drop_last();
    lemma_lines_distinct(init, start);
    let prev = headers_from_lines(init, start);
    if i == lines.len() - 1 {
        law_get_after_insert(prev, k, v);
    } else {
        assert forall|j: int| i < j < init.len() implies !(#[trigger] header_parts(init[j]) matches Some(
            p,
        ) && p.0 == k) by {
            assert(init[j] == lines[j]);
        }
        assert(init[i] == lines[i]);
        law_last_header_line_wins(init, start, i, k, v);
        let last = header_parts(lines[lines.len() - 1]);
        assert(lines.last() == lines[lines.len() - 1]);
        if let Some((k2, v2)) = last {
            law_insert_other_unchanged(prev, k2, v2, k);
        }
    }
}

/// A name that no line parses to keeps the value it had before the lines
/// were added (or stays absent).
pub proof fn law_untouched_header_kept(lines: Seq<Seq<char>>, start: HeaderSeq, k: Seq<char>)
    requires
        names_distinct(start),
        forall|j: int|
            0 <= j < lines.len() ==> !(#[trigger] header_parts(lines[j]) matches Some(p) && p.0
                == k),
    ensures
        lookup(headers_from_lines(lines, start), k) == lookup(start, k),
    decreases lines.len(),
{
    if lines.len() > 0 {
        let init = lines.drop_last();
        assert forall|j: int| 0 <= j < init.len() implies !(#[trigger] header_parts(init[j]) matches Some(
            p,
        ) && p.0 == k) by {
            assert(init[j] == lines[j]);
        }
        law_untouched_header_kept(init, start, k);
        lemma_lines_distinct(init, start);
        let prev = headers_from_lines(init, start);
        assert(lines.last() == lines[lines.len() - 1]);
        if let Some((k2, v2)) = header_parts(lines.last()) {
            law_insert_other_unchanged(prev, k2, v2, k);
        }
    }
}

/// A header written as `key:value`, with no `:` in the key, parses back
/// to the key and the value, each trimmed.
pub proof fn law_parse_formatted_header(key: Seq<char>, value: Seq<char>)
    requires
        !key.contains(':'),
    ensures
        header_parts(key + ":"@ + value) == Some((trim(key), trim(value))),
{
    reveal_strlit(":");
    let s = key + ":"@ + value;
    let i = key.len() as int;
    assert forall|k: int| 0 <= k < i implies s[k] != ':' by {
        assert(s[k] == key[k]);
    }
    assert(s[i] == ':');
    lemma_first_index(s, ':', i);
    assert(s.take(i) =~= key);
    assert(s.skip(i + 1) =~= value);
}

} // verus!
