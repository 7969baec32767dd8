//! Verified character-level string utilities.
//!
//! The engine's protocols compare, search and assemble strings; these
//! helpers state each operation over the `Seq<char>` view.

use vstd::prelude::*;

verus! {

/// `prefix` is an initial segment of `s`.
pub open spec fn spec_starts_with(s: Seq<char>, prefix: Seq<char>) -> bool {
    prefix.len() <= s.len() && s.subrange(0, prefix.len() as int) == prefix
}

/// `sub` occurs contiguously somewhere in `s`.
pub open spec fn spec_contains(s: Seq<char>, sub: Seq<char>) -> bool {
    exists|i: int|
        0 <= i && i + sub.len() <= s.len() && #[trigger] s.subrange(i, i + sub.len() as int) == sub
}

/// The two strings have the same characters.
pub fn str_eq(a: &str, b: &str) -> (r: bool)
    ensures
        r == (a@ == b@),
{
    let alen = a.unicode_len();
    let blen = b.unicode_len();
    if alen != blen {
        return false;
    }
    let mut i: usize = 0;
    while i < alen
        invariant
            i <= alen,
            alen == a@.len(),
            blen == b@.len(),
            alen == blen,
            forall|j: int| 0 <= j < i ==> a@[j] == b@[j],
        decreases alen - i,
    {
        if a.get_char(i) != b.get_char(i) {
            return false;
        }
        i = i + 1;
    }
    proof {
        assert(a@ =~= b@);
    }
    true
}

/// Whether `s` begins with `prefix`.
pub fn starts_with_str(s: &str, prefix: &str) -> (r: bool)
    ensures
        r == spec_starts_with(s@, prefix@),
{
    let slen = s.unicode_len();
    let plen = prefix.unicode_len();
    if plen > slen {
        return false;
    }
    let mut i: usize = 0;
    while i < plen
        invariant
            i <= plen,
            plen <= slen,
            slen == s@.len(),
            plen == prefix@.len(),
            forall|j: int| 0 <= j < i ==> s@[j] == prefix@[j],
        decreases plen - i,
    {
        if s.get_char(i) != prefix.get_char(i) {
            proof {
                assert(s@.subrange(0, prefix@.len() as int)[i as int] != prefix@[i as int]);
            }
            return false;
        }
        i = i + 1;
    }
    proof {
        assert(s@.subrange(0, prefix@.len() as int) =~= prefix@);
    }
    true
}

/// Whether `sub` occurs anywhere in `s`.
pub fn contains_str(s: &str, sub: &str) -> (r: bool)
    ensures
        r == spec_contains(s@, sub@),
{
    let slen = s.unicode_len();
    let sublen = sub.unicode_len();
    if sublen == 0 {
        proof {
            assert(s@.subrange(0, 0 + sub@.len() as int) =~= sub@);
            assert(spec_contains(s@, sub@));
        }
        return true;
    }
    if sublen > slen {
        return false;
    }
    let mut i: usize = 0;
    while i <= slen - sublen
        invariant
            1 <= sublen <= slen,
            slen == s@.len(),
            sublen == sub@.len(),
            i <= slen - sublen + 1,
            forall|k: int| 0 <= k < i ==> #[trigger] s@.subrange(k, k + sub@.len() as int) != sub@,
        decreases slen - sublen + 1 - i,
    {
        let mut j: usize = 0;
        let mut matched = true;
        while j < sublen
            invariant
                j <= sublen,
                i + sublen <= slen,
                slen == s@.len(),
                sublen == sub@.len(),
                matched ==> forall|j2: int| 0 <= j2 < j ==> s@[i + j2] == sub@[j2],
                !matched ==> s@.subrange(i as int, i + sub@.len() as int) != sub@,
            decreases sublen - j,
        {
            if s.get_char(i + j) != sub.get_char(j) {
                proof {
                    assert(s@.subrange(i as int, i + sub@.len() as int)[j as int] == s@[i + j]);
                }
                matched = false;
                j = sublen;
            } else {
                j = j + 1;
            }
        }
        if matched {
            proof {
                assert(s@.subrange(i as int, i as int + sub@.len() as int) =~= sub@);
                assert(spec_contains(s@, sub@));
            }
            return true;
        }
        i = i + 1;
    }
    proof {
        assert forall|k: int| 0 <= k && k + sub@.len() <= s@.len() implies #[trigger] s@.subrange(
            k,
            k + sub@.len() as int,
        ) != sub@ by {
            assert(k < i);
        }
    }
    false
}

/// The index of the first occurrence of `c` in `s`, if any.
pub fn find_char(s: &str, c: char) -> (r: Option<usize>)
    ensures
        match r {
            Some(i) => i < s@.len() && s@[i as int] == c && forall|j: int|
                0 <= j < i ==> s@[j] != c,
            None => forall|j: int| 0 <= j < s@.len() ==> s@[j] != c,
        },
{
    let slen = s.unicode_len();
    let mut i: usize = 0;
    while i < slen
        invariant
            i <= slen,
            slen == s@.len(),
            forall|j: int| 0 <= j < i ==> s@[j] != c,
        decreases slen - i,
    {
        if s.get_char(i) == c {
            return Some(i);
        }
        i = i + 1;
    }
    None
}

/// The index of the last occurrence of `c` in `s`, if any.
pub fn rfind_char(s: &str, c: char) -> (r: Option<usize>)
    ensures
        match r {
            Some(i) => i < s@.len() && s@[i as int] == c && forall|j: int|
                i < j < s@.len() ==> s@[j] != c,
            None => forall|j: int| 0 <= j < s@.len() ==> s@[j] != c,
        },
{
    let slen = s.unicode_len();
    let mut i: usize = slen;
    while i > 0
        invariant
            i <= slen,
            slen == s@.len(),
            forall|j: int| i <= j < s@.len() ==> s@[j] != c,
        decreases i,
    {
        i = i - 1;
        if s.get_char(i) == c {
            return Some(i);
        }
    }
    None
}

/// The characters of `parts` joined with `sep` between consecutive parts.
pub open spec fn seq_join(parts: Seq<Seq<char>>, sep: Seq<char>) -> Seq<char>
    decreases parts.len(),
{
    if parts.len() == 0 {
        Seq::empty()
    } else if parts.len() == 1 {
        parts[0]
    } else {
        seq_join(parts.drop_last(), sep) + sep + parts.last()
    }
}

/// Join the parts with the separator, as `seq_join` describes.
pub fn join_with(parts: &Vec<String>, sep: &str) -> (r: String)
    ensures
        r@ == seq_join(parts.deep_view(), sep@),
{
    let mut acc = String::new();
    let mut i: usize = 0;
    while i < parts.len()
        invariant
            i <= parts.len(),
            acc@ == seq_join(parts.deep_view().take(i as int), sep@),
        decreases parts.len() - i,
    {
        if i > 0 {
            acc.append(sep);
        }
        acc.append(parts[i].as_str());
        proof {
            let dv = parts.deep_view();
            assert(dv.take(i + 1).drop_last() =~= dv.take(i as int));
            assert(dv.take(i + 1).last() == dv[i as int]);
        }
        i = i + 1;
    }
    proof {
        assert(parts.deep_view().take(parts.deep_view().len() as int) =~= parts.deep_view());
    }
    acc
}

/// Each line followed by a newline, concatenated in order.
pub open spec fn lines_text(lines: Seq<Seq<char>>) -> Seq<char>
    decreases lines.len(),
{
    if lines.len() == 0 {
        Seq::empty()
    } else {
        lines_text(lines.drop_last()) + lines.last() + seq!['\n']
    }
}

/// `line` with a newline appended: the chunk one output line is forwarded as.
pub fn line_with_newline(line: &str) -> (r: String)
    ensures
        r@ == line@ + seq!['\n'],
{
    let mut out = String::from_str(line);
    out.append("\n");
    proof {
        reveal_strlit("\n");
        assert(line@ + "\n"@ =~= line@ + seq!['\n']);
    }
    out
}

/// `s` without its longest prefix of characters satisfying `pred`.
pub open spec fn spec_drop_start(s: Seq<char>, pred: spec_fn(char) -> bool) -> Seq<char>
    decreases s.len(),
{
    if s.len() > 0 && pred(s[0]) {
        spec_drop_start(s.drop_first(), pred)
    } else {
        s
    }
}

/// `s` without its longest suffix of characters satisfying `pred`.
pub open spec fn spec_drop_end(s: Seq<char>, pred: spec_fn(char) -> bool) -> Seq<char>
    decreases s.len(),
{
    if s.len() > 0 && pred(s.last()) {
        spec_drop_end(s.drop_last(), pred)
    } else {
        s
    }
}

/// Dropping the longest satisfying prefix is taking the suffix from the
/// first index that does not satisfy `pred`.
pub proof fn lemma_drop_start_skip(s: Seq<char>, pred: spec_fn(char) -> bool, i: int)
    requires
        0 <= i <= s.len(),
        forall|k: int| 0 <= k < i ==> pred(#[trigger] s[k]),
        i == s.len() || !pred(s[i]),
    ensures
        spec_drop_start(s, pred) == s.skip(i),
    decreases i,
{
    if i == 0 {
        assert(s.skip(0) =~= s);
    } else {
        assert(pred(s[0]));
        lemma_drop_start_skip(s.drop_first(), pred, i - 1);
        assert(s.drop_first().skip(i - 1) =~= s.skip(i));
    }
}

/// Dropping the longest satisfying suffix is taking the prefix up to one
/// past the last index that does not satisfy `pred`.
pub proof fn lemma_drop_end_take(s: Seq<char>, pred: spec_fn(char) -> bool, j: int)
    requires
        0 <= j <= s.len(),
        forall|k: int| j <= k < s.len() ==> pred(#[trigger] s[k]),
        j == 0 || !pred(s[j - 1]),
    ensures
        spec_drop_end(s, pred) == s.take(j),
    decreases s.len() - j,
{
    if j == s.len() {
        assert(s.take(j) =~= s);
    } else {
        assert(pred(s.last()));
        lemma_drop_end_take(s.drop_last(), pred, j);
        assert(s.drop_last().take(j) =~= s.take(j));
    }
}

/// An ASCII whitespace character.
pub open spec fn spec_is_ws(c: char) -> bool {
    c == ' ' || c == '\t' || c == '\r' || c == '\n'
}

fn is_ws(c: char) -> (r: bool)
    ensures
        r == spec_is_ws(c),
{
    c == ' ' || c == '\t' || c == '\r' || c == '\n'
}

/// `s` without leading and trailing ASCII whitespace.
pub open spec fn spec_trim_ws(s: Seq<char>) -> Seq<char> {
    spec_drop_end(spec_drop_start(s, |c: char| spec_is_ws(c)), |c: char| spec_is_ws(c))
}

/// Trim leading and trailing ASCII whitespace.
pub fn trim_ws(s: &str) -> (r: String)
    ensures
        r@ == spec_trim_ws(s@),
{
    let slen = s.unicode_len();
    let mut i: usize = 0;
    while i < slen && is_ws(s.get_char(i))
        invariant
            i <= slen,
            slen == s@.len(),
            forall|k: int| 0 <= k < i ==> spec_is_ws(#[trigger] s@[k]),
        decreases slen - i,
    {
        i = i + 1;
    }
    let mut j: usize = slen;
    while j > i && is_ws(s.get_char(j - 1))
        invariant
            i <= j <= slen,
            slen == s@.len(),
            forall|k: int| j <= k < s@.len() ==> spec_is_ws(#[trigger] s@[k]),
        decreases j,
    {
        j = j - 1;
    }
    let out = s.substring_char(i, j);
    proof {
        let pred = |c: char| spec_is_ws(c);
        lemma_drop_start_skip(s@, pred, i as int);
        let t = s@.skip(i as int);
        if j == i {
            lemma_drop_end_take(t, pred, 0);
        } else {
            lemma_drop_end_take(t, pred, j - i);
        }
        assert(t.take(j - i) =~= s@.subrange(i as int, j as int));
    }
    String::from_str(out)
}

/// A double-quote character.
pub open spec fn spec_is_quote(c: char) -> bool {
    c == '"'
}

/// `s` without leading and trailing double quotes.
pub open spec fn spec_trim_quotes(s: Seq<char>) -> Seq<char> {
    spec_drop_end(spec_drop_start(s, |c: char| spec_is_quote(c)), |c: char| spec_is_quote(c))
}

/// Trim leading and trailing double quotes.
pub fn trim_quotes(s: &str) -> (r: String)
    ensures
        r@ == spec_trim_quotes(s@),
{
    let slen = s.unicode_len();
    let mut i: usize = 0;
    while i < slen && s.get_char(i) == '"'
        invariant
            i <= slen,
            slen == s@.len(),
            forall|k: int| 0 <= k < i ==> spec_is_quote(#[trigger] s@[k]),
        decreases slen - i,
    {
        i = i + 1;
    }
    let mut j: usize = slen;
    while j > i && s.get_char(j - 1) == '"'
        invariant
            i <= j <= slen,
            slen == s@.len(),
            forall|k: int| j <= k < s@.len() ==> spec_is_quote(#[trigger] s@[k]),
        decreases j,
    {
        j = j - 1;
    }
    let out = s.substring_char(i, j);
    proof {
        let pred = |c: char| spec_is_quote(c);
        lemma_drop_start_skip(s@, pred, i as int);
        let t = s@.skip(i as int);
        if j == i {
            lemma_drop_end_take(t, pred, 0);
        } else {
            lemma_drop_end_take(t, pred, j - i);
        }
        assert(t.take(j - i) =~= s@.subrange(i as int, j as int));
    }
    String::from_str(out)
}

/// The first `n` characters of `s`, or all of it when shorter.
pub fn take_chars(s: &str, n: usize) -> (r: String)
    ensures
        r@ == (if s@.len() <= n {
            s@
        } else {
            s@.take(n as int)
        }),
{
    let slen = s.unicode_len();
    if slen <= n {
        String::from_str(s)
    } else {
        let out = s.substring_char(0, n);
        proof {
            assert(s@.subrange(0, n as int) =~= s@.take(n as int));
        }
        String::from_str(out)
    }
}

/// `i` is the first index of `c` in `s`.
pub open spec fn spec_is_first(s: Seq<char>, c: char, i: int) -> bool {
    0 <= i < s.len() && s[i] == c && forall|k: int| 0 <= k < i ==> s[k] != c
}

/// `j` is the last index of `c` in `s`.
pub open spec fn spec_is_last(s: Seq<char>, c: char, j: int) -> bool {
    0 <= j < s.len() && s[j] == c && forall|k: int| j < k < s.len() ==> s[k] != c
}

/// The first index of `c` is unique, so `choose` picks it.
pub proof fn lemma_first_unique(s: Seq<char>, c: char, i: int)
    requires
        spec_is_first(s, c, i),
    ensures
        (choose|x: int| spec_is_first(s, c, x)) == i,
{
    assert(exists|x: int| spec_is_first(s, c, x));
    let w = choose|x: int| spec_is_first(s, c, x);
    if w < i {
        assert(s[w] != c);
    }
    if i < w {
        assert(s[i] != c);
    }
}

/// The last index of `c` is unique, so `choose` picks it.
pub proof fn lemma_last_unique(s: Seq<char>, c: char, j: int)
    requires
        spec_is_last(s, c, j),
    ensures
        (choose|x: int| spec_is_last(s, c, x)) == j,
{
    assert(exists|x: int| spec_is_last(s, c, x));
    let w = choose|x: int| spec_is_last(s, c, x);
    if w < j {
        assert(s[j] != c);
    }
    if j < w {
        assert(s[w] != c);
    }
}

/// A line without the carriage return a CRLF ending left behind.
pub open spec fn spec_strip_cr(l: Seq<char>) -> Seq<char> {
    if l.len() > 0 && l.last() == '\r' {
        l.drop_last()
    } else {
        l
    }
}

/// The lines of `s`, split at newlines, each stripped of a trailing
/// carriage return; a final line ending is optional, and a text without a
/// final newline keeps its last line as it stands.
pub open spec fn spec_lines(s: Seq<char>) -> Seq<Seq<char>>
    decreases s.len(),
{
    if s.len() == 0 {
        Seq::empty()
    } else if exists|i: int| spec_is_first(s, '\n', i) {
        let f = choose|i: int| spec_is_first(s, '\n', i);
        seq![spec_strip_cr(s.take(f))] + spec_lines(s.skip(f + 1))
    } else {
        seq![s]
    }
}

/// Split into lines, as `spec_lines` describes.
pub fn split_lines(s: &str) -> (r: Vec<String>)
    ensures
        r.deep_view() == spec_lines(s@),
{
    let mut out: Vec<String> = Vec::new();
    let mut rest = String::from_str(s);
    proof {
        assert(out.deep_view() + spec_lines(rest@) =~= spec_lines(s@));
    }
    loop
        invariant
            spec_lines(s@) == out.deep_view() + spec_lines(rest@),
        decreases rest@.len(),
    {
        let rlen = rest.as_str().unicode_len();
        if rlen == 0 {
            proof {
                assert(out.deep_view() + spec_lines(rest@) =~= out.deep_view());
            }
            return out;
        }
        let ghost pre = out.deep_view();
        match find_char(rest.as_str(), '\n') {
            Some(f) => {
                proof {
                    lemma_first_unique(rest@, '\n', f as int);
                }
                let line = if f > 0 && rest.as_str().get_char(f - 1) == '\r' {
                    rest.as_str().substring_char(0, f - 1)
                } else {
                    rest.as_str().substring_char(0, f)
                };
                proof {
                    assert(rest@.subrange(0, f as int) =~= rest@.take(f as int));
                    if f > 0 && rest@[f - 1] == '\r' {
                        assert(rest@.subrange(0, f - 1) =~= rest@.take(f as int).drop_last());
                    }
                }
                out.push(String::from_str(line));
                let tail = rest.as_str().substring_char(f + 1, rlen);
                let next = String::from_str(tail);
                proof {
                    assert(rest@.subrange(f + 1, rest@.len() as int) =~= rest@.skip(f + 1));
                    assert(out.deep_view() =~~= pre + seq![spec_strip_cr(rest@.take(f as int))]);
                    assert(pre + (seq![spec_strip_cr(rest@.take(f as int))] + spec_lines(
                        rest@.skip(f + 1),
                    )) =~= out.deep_view() + spec_lines(next@));
                }
                rest = next;
            },
            None => {
                proof {
                    if exists|i: int| spec_is_first(rest@, '\n', i) {
                        let w = choose|i: int| spec_is_first(rest@, '\n', i);
                        assert(rest@[w] != '\n');
                    }
                }
                out.push(String::from_str(rest.as_str()));
                proof {
                    assert(out.deep_view() =~~= pre + seq![rest@]);
                    assert(pre + seq![rest@] =~= out.deep_view());
                }
                return out;
            },
        }
    }
}

/// `s` without its leading run of `#` characters.
pub fn trim_leading_hashes(s: &str) -> (r: String)
    ensures
        r@ == spec_drop_start(s@, |c: char| c == '#'),
{
    let slen = s.unicode_len();
    let mut i: usize = 0;
    while i < slen && s.get_char(i) == '#'
        invariant
            i <= slen,
            slen == s@.len(),
            forall|k: int| 0 <= k < i ==> (#[trigger] s@[k]) == '#',
        decreases slen - i,
    {
        i = i + 1;
    }
    let out = s.substring_char(i, slen);
    proof {
        lemma_drop_start_skip(s@, |c: char| c == '#', i as int);
        assert(s@.subrange(i as int, s@.len() as int) =~= s@.skip(i as int));
    }
    String::from_str(out)
}

} // verus!
