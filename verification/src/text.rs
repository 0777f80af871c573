//! Character-level utilities shared by the schema resolver: ASCII case
//! folding, substring searching, trimming and substitution over character
//! sequences.
//!
//! The documentation this library consumes is generated from ASCII
//! identifiers and ASCII marker phrases, so case folding and whitespace
//! handling are defined on the ASCII range; characters outside it pass
//! through unchanged.

use vstd::prelude::*;

verus! {

/// ASCII lowercase mapping for a single character; anything outside
/// `'A'..='Z'` is unchanged.
pub open spec fn lower_char(c: char) -> char {
    if 'A' <= c && c <= 'Z' {
        (((c as u8) + 32) as char)
    } else {
        c
    }
}

/// ASCII uppercase mapping for a single character; anything outside
/// `'a'..='z'` is unchanged.
pub open spec fn upper_char(c: char) -> char {
    if 'a' <= c && c <= 'z' {
        (((c as u8) - 32) as char)
    } else {
        c
    }
}

/// A whole sequence, lowercased character by character.
pub open spec fn lower_seq(s: Seq<char>) -> Seq<char> {
    s.map_values(|c: char| lower_char(c))
}

/// `p` occurs somewhere inside `s`.
pub open spec fn has_sub(s: Seq<char>, p: Seq<char>) -> bool {
    exists|i: int| 0 <= i && i + p.len() <= s.len() && #[trigger] s.subrange(i, i + p.len()) == p
}

/// `s` begins with `p`.
pub open spec fn has_prefix(s: Seq<char>, p: Seq<char>) -> bool {
    p.len() <= s.len() && s.subrange(0, p.len() as int) == p
}

/// `s` ends with `p`.
pub open spec fn has_suffix(s: Seq<char>, p: Seq<char>) -> bool {
    p.len() <= s.len() && s.subrange(s.len() - p.len(), s.len() as int) == p
}

/// The ASCII whitespace characters stripped by trimming.
pub open spec fn is_space(c: char) -> bool {
    c == ' ' || c == '\t' || c == '\n' || c == '\r'
}

/// `s` with leading whitespace removed.
pub open spec fn trim_front(s: Seq<char>) -> Seq<char>
    decreases s.len(),
{
    if s.len() > 0 && is_space(s[0]) {
        trim_front(s.skip(1))
    } else {
        s
    }
}

/// `s` with trailing whitespace removed.
pub open spec fn trim_back(s: Seq<char>) -> Seq<char>
    decreases s.len(),
{
    if s.len() > 0 && is_space(s[s.len() - 1]) {
        trim_back(s.take(s.len() - 1))
    } else {
        s
    }
}

/// `s` with whitespace removed from both ends.
pub open spec fn trim_seq(s: Seq<char>) -> Seq<char> {
    trim_back(trim_front(s))
}

/// Every occurrence of `pat` in `s` replaced by `sub`, scanning left to
/// right without overlap.
pub open spec fn replace_seq(s: Seq<char>, pat: Seq<char>, sub: Seq<char>) -> Seq<char>
    decreases s.len(),
{
    if pat.len() == 0 || s.len() < pat.len() {
        s
    } else if s.subrange(0, pat.len() as int) == pat {
        sub + replace_seq(s.skip(pat.len() as int), pat, sub)
    } else {
        seq![s[0]] + replace_seq(s.skip(1), pat, sub)
    }
}

/// `s` with its first character uppercased.
pub open spec fn capitalize_seq(s: Seq<char>) -> Seq<char> {
    if s.len() == 0 {
        s
    } else {
        seq![upper_char(s[0])] + s.skip(1)
    }
}

pub fn to_lower_char(c: char) -> (r: char)
    ensures
        r == lower_char(c),
{
    if 'A' <= c && c <= 'Z' {
        (((c as u8) + 32) as char)
    } else {
        c
    }
}

pub fn to_upper_char(c: char) -> (r: char)
    ensures
        r == upper_char(c),
{
    if 'a' <= c && c <= 'z' {
        (((c as u8) - 32) as char)
    } else {
        c
    }
}

/// Lowercase a whole character vector.
pub fn lower_chars(s: &Vec<char>) -> (r: Vec<char>)
    ensures
        r@ == lower_seq(s@),
{
    let mut out: Vec<char> = Vec::new();
    let mut i: usize = 0;
    while i < s.len()
        invariant
            i <= s.len(),
            out@ == lower_seq(s@.take(i as int)),
        decreases s.len() - i,
    {
        out.push(to_lower_char(s[i]));
        i = i + 1;
        assert(s@.take(i as int) == s@.take(i - 1).push(s@[i - 1]));
    }
    assert(s@.take(s.len() as int) == s@);
    out
}

/// The characters of a string slice, in order.
pub fn str_to_chars(s: &str) -> (r: Vec<char>)
    ensures
        r@ == s@,
{
    let n: usize = s.unicode_len();
    let mut out: Vec<char> = Vec::new();
    let mut i: usize = 0;
    while i < n
        invariant
            i <= n,
            n == s@.len(),
            out@ == s@.take(i as int),
        decreases n - i,
    {
        out.push(s.get_char(i));
        i = i + 1;
        assert(s@.take(i as int) == s@.take(i - 1).push(s@[i - 1]));
    }
    assert(s@.take(n as int) == s@);
    out
}

/// Relies on `String::push`: appending a character appends exactly that
/// character to the string's contents.
pub assume_specification[ std::string::String::push ](s: &mut std::string::String, ch: char)
    ensures
        final(s)@ == old(s)@.push(ch),
;

/// Collects a character vector back into an owned string.
pub fn chars_to_string(s: &Vec<char>) -> (r: String)
    ensures
        r@ == s@,
{
    let mut out = String::new();
    let mut i: usize = 0;
    while i < s.len()
        invariant
            i <= s.len(),
            out@ == s@.take(i as int),
        decreases s.len() - i,
    {
        out.push(s[i]);
        i = i + 1;
        assert(s@.take(i as int) == s@.take(i as int - 1).push(s@[i as int - 1]));
    }
    assert(s@.take(s.len() as int) == s@);
    out
}

/// Character vectors are equal exactly when their contents are.
pub fn eq_chars(a: &Vec<char>, b: &Vec<char>) -> (r: bool)
    ensures
        r == (a@ == b@),
{
    if a.len() != b.len() {
        assert(a@.len() != b@.len());
        return false;
    }
    let mut i: usize = 0;
    while i < a.len()
        invariant
            i <= a.len(),
            a@.len() == b@.len(),
            forall|j: int| 0 <= j < i ==> a@[j] == b@[j],
        decreases a.len() - i,
    {
        if a[i] != b[i] {
            return false;
        }
        i = i + 1;
    }
    assert(a@ =~= b@);
    true
}

/// `p` matches `s` starting at position `at`.
pub fn matches_at(s: &Vec<char>, p: &Vec<char>, at: usize) -> (r: bool)
    requires
        at + p@.len() <= s@.len(),
    ensures
        r == (s@.subrange(at as int, at + p@.len()) == p@),
{
    let n: usize = s.len();
    let mut i: usize = 0;
    while i < p.len()
        invariant
            i <= p.len(),
            n == s@.len(),
            at + p@.len() <= s@.len(),
            forall|j: int| 0 <= j < i ==> s@[at + j] == p@[j],
        decreases p.len() - i,
    {
        if s[at + i] != p[i] {
            assert(s@.subrange(at as int, at + p@.len())[i as int] != p@[i as int]);
            return false;
        }
        i = i + 1;
    }
    assert(s@.subrange(at as int, at + p@.len()) =~= p@);
    true
}

/// Substring search.
pub fn contains_chars(s: &Vec<char>, p: &Vec<char>) -> (r: bool)
    ensures
        r == has_sub(s@, p@),
{
    if p.len() == 0 {
        assert(has_sub(s@, p@)) by {
            assert(0 + p@.len() <= s@.len() && s@.subrange(0, 0 + p@.len() as int) =~= p@);
        }
        return true;
    }
    if p.len() > s.len() {
        return false;
    }
    let count: usize = s.len() - p.len() + 1;
    let mut i: usize = 0;
    while i < count
        invariant
            i <= count,
            count == s@.len() - p@.len() + 1,
            forall|j: int| 0 <= j < i ==> #[trigger] s@.subrange(j, j + p@.len()) != p@,
        decreases count - i,
    {
        if matches_at(s, p, i) {
            return true;
        }
        i = i + 1;
    }
    false
}

/// Prefix test.
pub fn starts_with_chars(s: &Vec<char>, p: &Vec<char>) -> (r: bool)
    ensures
        r == has_prefix(s@, p@),
{
    if p.len() > s.len() {
        return false;
    }
    matches_at(s, p, 0)
}

/// Suffix test.
pub fn ends_with_chars(s: &Vec<char>, p: &Vec<char>) -> (r: bool)
    ensures
        r == has_suffix(s@, p@),
{
    if p.len() > s.len() {
        return false;
    }
    matches_at(s, p, s.len() - p.len())
}

fn is_space_char(c: char) -> (r: bool)
    ensures
        r == is_space(c),
{
    c == ' ' || c == '\t' || c == '\n' || c == '\r'
}

/// Whitespace trimmed from both ends.
pub fn trim_chars(s: &Vec<char>) -> (r: Vec<char>)
    ensures
        r@ == trim_seq(s@),
{
    let mut start: usize = 0;
    assert(s@.skip(0) =~= s@);
    while start < s.len() && is_space_char(s[start])
        invariant
            start <= s.len(),
            trim_front(s@) == trim_front(s@.skip(start as int)),
        decreases s.len() - start,
    {
        assert(s@.skip(start as int).skip(1) =~= s@.skip(start as int + 1));
        start = start + 1;
    }
    proof {
        if start == s.len() {
            assert(s@.skip(start as int) =~= Seq::<char>::empty());
        }
        assert(trim_front(s@) == s@.skip(start as int));
        assert(s@.subrange(start as int, s@.len() as int) =~= s@.skip(start as int));
    }
    let mut end: usize = s.len();
    while end > start && is_space_char(s[end - 1])
        invariant
            start <= end <= s.len(),
            trim_seq(s@) == trim_back(s@.subrange(start as int, end as int)),
        decreases end,
    {
        assert(s@.subrange(start as int, end as int).take(end - start - 1) =~= s@.subrange(
            start as int,
            end as int - 1,
        ));
        end = end - 1;
    }
    proof {
        let t = s@.subrange(start as int, end as int);
        if end == start {
            assert(t =~= Seq::<char>::empty());
        } else {
            assert(t[t.len() - 1] == s@[end as int - 1]);
        }
        assert(trim_back(t) == t);
    }
    let mut out: Vec<char> = Vec::new();
    let mut i: usize = start;
    while i < end
        invariant
            start <= i <= end <= s.len(),
            out@ == s@.subrange(start as int, i as int),
        decreases end - i,
    {
        out.push(s[i]);
        i = i + 1;
        assert(s@.subrange(start as int, i as int) == s@.subrange(start as int, i as int - 1).push(
            s@[i as int - 1],
        ));
    }
    assert(out@ =~= s@.subrange(start as int, end as int));
    out
}

/// Every occurrence of `pat` replaced by `sub`.
pub fn replace_chars(s: &Vec<char>, pat: &Vec<char>, sub: &Vec<char>) -> (r: Vec<char>)
    ensures
        r@ == replace_seq(s@, pat@, sub@),
{
    if pat.len() == 0 {
        let mut out: Vec<char> = Vec::new();
        let mut i: usize = 0;
        while i < s.len()
            invariant
                i <= s.len(),
                out@ == s@.take(i as int),
            decreases s.len() - i,
        {
            out.push(s[i]);
            i = i + 1;
            assert(s@.take(i as int) == s@.take(i - 1).push(s@[i - 1]));
        }
        assert(s@.take(s.len() as int) == s@);
        return out;
    }
    let mut out: Vec<char> = Vec::new();
    assert(s@.skip(0) =~= s@);
    assert(out@ + replace_seq(s@, pat@, sub@) =~= replace_seq(s@, pat@, sub@));
    let mut i: usize = 0;
    while i < s.len()
        invariant
            i <= s.len(),
            pat@.len() > 0,
            replace_seq(s@, pat@, sub@) == out@ + replace_seq(s@.skip(i as int), pat@, sub@),
        decreases s.len() - i,
    {
        let ghost rest = s@.skip(i as int);
        if s.len() - i >= pat.len() && matches_at(s, pat, i) {
            proof {
                assert(rest.subrange(0, pat@.len() as int) =~= s@.subrange(
                    i as int,
                    i + pat@.len(),
                ));
                assert(rest.skip(pat@.len() as int) =~= s@.skip(i + pat@.len()));
            }
            let ghost out0 = out@;
            let mut k: usize = 0;
            while k < sub.len()
                invariant
                    k <= sub.len(),
                    out@ == out0 + sub@.take(k as int),
                decreases sub.len() - k,
            {
                out.push(sub[k]);
                k = k + 1;
                assert(sub@.take(k as int) == sub@.take(k as int - 1).push(sub@[k as int - 1]));
            }
            assert(sub@.take(sub@.len() as int) == sub@);
            i = i + pat.len();
        } else {
            proof {
                if rest.len() >= pat@.len() {
                    assert(rest.subrange(0, pat@.len() as int) =~= s@.subrange(
                        i as int,
                        i + pat@.len(),
                    ));
                }
                assert(rest.skip(1) =~= s@.skip(i + 1));
                assert(seq![rest[0]] =~= seq![s@[i as int]]);
            }
            out.push(s[i]);
            i = i + 1;
        }
    }
    assert(s@.skip(s.len() as int) =~= Seq::<char>::empty());
    assert(out@ + Seq::<char>::empty() =~= out@);
    out
}

/// First character uppercased.
pub fn capitalize_chars(s: &Vec<char>) -> (r: Vec<char>)
    ensures
        r@ == capitalize_seq(s@),
{
    let mut out: Vec<char> = Vec::new();
    if s.len() == 0 {
        assert(out@ =~= capitalize_seq(s@));
        return out;
    }
    out.push(to_upper_char(s[0]));
    let mut i: usize = 1;
    while i < s.len()
        invariant
            1 <= i <= s.len(),
            s@.len() > 0,
            out@ == seq![upper_char(s@[0])] + s@.subrange(1, i as int),
        decreases s.len() - i,
    {
        out.push(s[i]);
        i = i + 1;
        assert(s@.subrange(1, i as int) == s@.subrange(1, i - 1).push(s@[i - 1]));
    }
    assert(s@.subrange(1, s.len() as int) =~= s@.skip(1));
    out
}

/// The concatenation of a sequence of character sequences, in order.
pub open spec fn concat_seqs(ps: Seq<Seq<char>>) -> Seq<char>
    decreases ps.len(),
{
    if ps.len() == 0 {
        Seq::empty()
    } else {
        concat_seqs(ps.drop_last()) + ps.last()
    }
}

/// Text-node parts assembled into one piece of element text: concatenated,
/// trimmed, and with the `&quot;` entity restored to a literal quote.
pub open spec fn cleaned_text(ps: Seq<Seq<char>>) -> Seq<char> {
    replace_seq(trim_seq(concat_seqs(ps)), "&quot;"@, "\""@)
}

/// Assembles the text parts of one element.
pub fn clean_text(parts: &Vec<String>) -> (r: String)
    ensures
        r@ == cleaned_text(parts.deep_view()),
{
    let mut acc: Vec<char> = Vec::new();
    let mut i: usize = 0;
    assert(parts.deep_view().take(0) =~= Seq::<Seq<char>>::empty());
    while i < parts.len()
        invariant
            i <= parts.len(),
            acc@ == concat_seqs(parts.deep_view().take(i as int)),
        decreases parts.len() - i,
    {
        let cs = str_to_chars(parts[i].as_str());
        let ghost acc0 = acc@;
        let mut j: usize = 0;
        while j < cs.len()
            invariant
                j <= cs.len(),
                acc@ == acc0 + cs@.take(j as int),
            decreases cs.len() - j,
        {
            acc.push(cs[j]);
            j = j + 1;
            assert(cs@.take(j as int) == cs@.take(j as int - 1).push(cs@[j as int - 1]));
        }
        i = i + 1;
        proof {
            let dv = parts.deep_view();
            assert(cs@.take(cs@.len() as int) == cs@);
            assert(dv.take(i as int).drop_last() =~= dv.take(i as int - 1));
            assert(dv.take(i as int).last() == dv[i as int - 1]);
            assert(dv[i as int - 1] == parts@[i as int - 1]@);
        }
    }
    assert(parts.deep_view().take(parts@.len() as int) =~= parts.deep_view());
    let trimmed = trim_chars(&acc);
    let pat = str_to_chars("&quot;");
    let sub = str_to_chars("\"");
    let replaced = replace_chars(&trimmed, &pat, &sub);
    chars_to_string(&replaced)
}

/// Lowercasing is idempotent.
pub proof fn lemma_lower_idempotent(s: Seq<char>)
    ensures
        lower_seq(lower_seq(s)) == lower_seq(s),
{
    assert(lower_seq(lower_seq(s)) =~= lower_seq(s)) by {
        assert forall|i: int| 0 <= i < s.len() implies lower_char(lower_char(s[i])) == lower_char(
            s[i],
        ) by {
            let c = s[i];
            if 'A' <= c && c <= 'Z' {
                assert(lower_char(c) == (((c as u8) + 32) as char));
            }
        }
    }
}

} // verus!
