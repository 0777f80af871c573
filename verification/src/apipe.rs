//! The schema resolver: builds a queryable metadata model of an API's type
//! hierarchy from per-class HTML documentation fragments.
//!
//! Construction runs a fixed sequence of passes over the class list —
//! documents, descriptions, trait flags, parent links, subclasses, fields —
//! filling one cache per pass; afterwards the resolver is immutable and all
//! queries are pure lookups keyed by lowercased class name.

use vstd::prelude::*;

use crate::html::{attr_of, parse_fragment, select_in_doc, select_in_element, text_parts};
use crate::text::{
    capitalize_chars, capitalize_seq, chars_to_string, clean_text, cleaned_text, contains_chars,
    eq_chars, has_prefix, has_sub, lower_chars, lower_seq, replace_seq, starts_with_chars, str_to_chars,
    to_upper_char, upper_char,
};

verus! {

/// One extracted field of a documented class: identifier, resolved type
/// spelling, description text, and whether the type refers to a trait
/// (abstract base) class.
pub struct TdTypeField {
    pub name: String,
    pub description: String,
    pub is_trait: bool,
    pub class: String,
}

/// Mathematical image of a [`TdTypeField`].
pub struct FieldModel {
    pub name: Seq<char>,
    pub description: Seq<char>,
    pub is_trait: bool,
    pub class: Seq<char>,
}

impl DeepView for TdTypeField {
    type V = FieldModel;

    open spec fn deep_view(&self) -> FieldModel {
        FieldModel {
            name: self.name@,
            description: self.description@,
            is_trait: self.is_trait,
            class: self.class@,
        }
    }
}

impl Clone for TdTypeField {
    fn clone(&self) -> (r: Self)
        ensures
            r == *self,
    {
        TdTypeField {
            name: self.name.clone(),
            description: self.description.clone(),
            is_trait: self.is_trait,
            class: self.class.clone(),
        }
    }
}

/// One `.contents` paragraph of a class document: its assembled text and
/// the texts of the inheritance-link elements inside it.
pub struct DocParagraph {
    pub text: String,
    pub links: Vec<String>,
}

pub struct ParagraphModel {
    pub text: Seq<char>,
    pub links: Seq<Seq<char>>,
}

impl DeepView for DocParagraph {
    type V = ParagraphModel;

    open spec fn deep_view(&self) -> ParagraphModel {
        ParagraphModel { text: self.text@, links: self.links.deep_view() }
    }
}

/// One table row of a member-declaration block: its `class` attribute and
/// the assembled texts of its left, right and description cells.
pub struct DocRow {
    pub kind: Option<String>,
    pub left: String,
    pub right: String,
    pub desc: String,
}

pub struct RowModel {
    pub kind: Option<Seq<char>>,
    pub left: Seq<char>,
    pub right: Seq<char>,
    pub desc: Seq<char>,
}

impl DeepView for DocRow {
    type V = RowModel;

    open spec fn deep_view(&self) -> RowModel {
        RowModel {
            kind: self.kind.deep_view(),
            left: self.left@,
            right: self.right@,
            desc: self.desc@,
        }
    }
}

/// One member-declaration block: its heading's first text node and its
/// table rows.
pub struct DocBlock {
    pub heading: Option<String>,
    pub rows: Vec<DocRow>,
}

pub struct BlockModel {
    pub heading: Option<Seq<char>>,
    pub rows: Seq<RowModel>,
}

impl DeepView for DocBlock {
    type V = BlockModel;

    open spec fn deep_view(&self) -> BlockModel {
        BlockModel { heading: self.heading.deep_view(), rows: self.rows.deep_view() }
    }
}

/// Everything the resolver reads from one class's parsed document: the
/// first brief-description text node, the first text node of each
/// inheritance-diagram link, the contents paragraphs, and the
/// member-declaration blocks.
pub struct ClassDoc {
    pub brief: Option<String>,
    pub inherit_heads: Vec<Option<String>>,
    pub paragraphs: Vec<DocParagraph>,
    pub blocks: Vec<DocBlock>,
}

pub struct ClassDocModel {
    pub brief: Option<Seq<char>>,
    pub inherit_heads: Seq<Option<Seq<char>>>,
    pub paragraphs: Seq<ParagraphModel>,
    pub blocks: Seq<BlockModel>,
}

impl DeepView for ClassDoc {
    type V = ClassDocModel;

    open spec fn deep_view(&self) -> ClassDocModel {
        ClassDocModel {
            brief: self.brief.deep_view(),
            inherit_heads: self.inherit_heads.deep_view(),
            paragraphs: self.paragraphs.deep_view(),
            blocks: self.blocks.deep_view(),
        }
    }
}

/// The map a cache's entry list denotes: entries are inserted in order, so
/// a later entry with the same key wins.
pub open spec fn entries_deep<V: DeepView>(s: Seq<(Vec<char>, V)>) -> Map<
    Seq<char>,
    V::V,
>
    decreases s.len(),
{
    if s.len() == 0 {
        Map::empty()
    } else {
        entries_deep(s.drop_last()).insert(s.last().0@, s.last().1.deep_view())
    }
}

proof fn lemma_entries_deep_found<V: DeepView>(s: Seq<(Vec<char>, V)>, k: Seq<char>, i: int)
    requires
        0 <= i < s.len(),
        s[i].0@ == k,
        forall|j: int| i < j < s.len() ==> s[j].0@ != k,
    ensures
        entries_deep(s).contains_key(k),
        entries_deep(s)[k] == s[i].1.deep_view(),
    decreases s.len(),
{
    if i == s.len() - 1 {
    } else {
        lemma_entries_deep_found(s.drop_last(), k, i);
    }
}

proof fn lemma_entries_deep_absent<V: DeepView>(s: Seq<(Vec<char>, V)>, k: Seq<char>)
    requires
        forall|j: int| 0 <= j < s.len() ==> s[j].0@ != k,
    ensures
        !entries_deep(s).contains_key(k),
    decreases s.len(),
{
    if s.len() > 0 {
        lemma_entries_deep_absent(s.drop_last(), k);
    }
}

/// An insertion-ordered cache keyed by lowercased class name. Lookups see
/// the most recently inserted value for a key, like the hash maps the
/// construction passes fill.
pub struct NameCache<V> {
    entries: Vec<(Vec<char>, V)>,
}

impl<V: DeepView> View for NameCache<V> {
    type V = Map<Seq<char>, V::V>;

    closed spec fn view(&self) -> Map<Seq<char>, V::V> {
        entries_deep(self.entries@)
    }
}

impl<V: DeepView> NameCache<V> {
    pub fn new() -> (r: Self)
        ensures
            r@ == Map::<Seq<char>, V::V>::empty(),
    {
        let r = NameCache { entries: Vec::new() };
        proof {
            assert(r.entries@.len() == 0);
        }
        r
    }

    pub fn insert(&mut self, key: Vec<char>, val: V)
        ensures
            final(self)@ == old(self)@.insert(key@, val.deep_view()),
    {
        let ghost k = key@;
        let ghost old_entries = self.entries@;
        self.entries.push((key, val));
        proof {
            assert(self.entries@.drop_last() =~= old_entries);
        }
    }

    pub fn get(&self, key: &Vec<char>) -> (r: Option<&V>)
        ensures
            match r {
                Some(v) => self@.contains_key(key@) && v.deep_view() == self@[key@],
                None => !self@.contains_key(key@),
            },
    {
        let n: usize = self.entries.len();
        let mut i: usize = n;
        while i > 0
            invariant
                i <= n,
                n == self.entries@.len(),
                forall|j: int| i <= j < n ==> self.entries@[j].0@ != key@,
            decreases i,
        {
            i = i - 1;
            if eq_chars(&self.entries[i].0, key) {
                proof {
                    lemma_entries_deep_found(self.entries@, key@, i as int);
                }
                return Some(&self.entries[i].1);
            }
        }
        proof {
            lemma_entries_deep_absent(self.entries@, key@);
        }
        None
    }
}

/// A documentation-artifact name that must be excluded from subclass and
/// member lists: JSON helper entries and the log-event helper, which the
/// generator emits but which are not real API types.
pub open spec fn is_skip_model(name: Seq<char>) -> bool {
    let low = lower_seq(name);
    ||| has_prefix(low, "json"@)
    ||| has_sub(low, "getjsonstring"@)
    ||| has_sub(low, "saveapplicationlogevent"@)
    ||| has_sub(low, "getjsonvalue"@)
}

/// The schema resolver: an immutable set of caches over a class list,
/// built once by a fixed sequence of construction passes and then queried
/// by lowercased class name.
pub struct Apipe {
    czs: Vec<String>,
    cache_document: NameCache<ClassDoc>,
    cache_description: NameCache<String>,
    cache_is_trait: NameCache<bool>,
    cache_subclasses: NameCache<Vec<String>>,
    cache_fatherclass: NameCache<String>,
    cache_fields: NameCache<Vec<TdTypeField>>,
}

impl Apipe {
    /// True for names that are documentation noise rather than API types.
    pub fn is_skip(name: &str) -> (r: bool)
        ensures
            r == is_skip_model(name@),
    {
        let chars = str_to_chars(name);
        let low = lower_chars(&chars);
        let p = str_to_chars("json");
        if starts_with_chars(&low, &p) {
            return true;
        }
        let p = str_to_chars("getjsonstring");
        if contains_chars(&low, &p) {
            return true;
        }
        let p = str_to_chars("saveapplicationlogevent");
        if contains_chars(&low, &p) {
            return true;
        }
        let p = str_to_chars("getjsonvalue");
        contains_chars(&low, &p)
    }
}

/// A generic-boundary character.
pub open spec fn is_bracket(c: char) -> bool {
    c == '<' || c == '>'
}

/// Position of the first generic boundary in `s`, or `s.len()` if there is
/// none.
pub open spec fn find_bracket(s: Seq<char>) -> nat
    decreases s.len(),
{
    if s.len() == 0 {
        0
    } else if is_bracket(s[0]) {
        0
    } else {
        1 + find_bracket(s.skip(1))
    }
}

proof fn lemma_find_bracket_found(s: Seq<char>, i: int)
    requires
        0 <= i < s.len(),
        is_bracket(s[i]),
        forall|j: int| 0 <= j < i ==> !is_bracket(s[j]),
    ensures
        find_bracket(s) == i,
    decreases s.len(),
{
    if i > 0 {
        assert(forall|j: int| 0 <= j < i - 1 ==> s.skip(1)[j] == s[j + 1]);
        lemma_find_bracket_found(s.skip(1), i - 1);
    }
}

proof fn lemma_find_bracket_absent(s: Seq<char>)
    requires
        forall|j: int| 0 <= j < s.len() ==> !is_bracket(s[j]),
    ensures
        find_bracket(s) == s.len(),
    decreases s.len(),
{
    if s.len() > 0 {
        assert(forall|j: int| 0 <= j < s.len() - 1 ==> s.skip(1)[j] == s[j + 1]);
        lemma_find_bracket_absent(s.skip(1));
    }
}

/// The token sequence a raw type spelling splits into: the literal segment
/// before each `<` or `>` boundary (possibly empty), then the boundary
/// itself, repeated; a trailing segment after the last boundary is not a
/// token.
pub open spec fn tokens_model(s: Seq<char>) -> Seq<Seq<char>>
    decreases s.len(),
{
    let i = find_bracket(s);
    if i >= s.len() {
        Seq::empty()
    } else {
        seq![s.take(i as int), seq![s[i as int]]] + tokens_model(s.skip(i as int + 1))
    }
}

/// Splits a raw type spelling at every `<`/`>` boundary.
pub fn type_items(field_type: &str) -> (r: Vec<String>)
    ensures
        r.deep_view() == tokens_model(field_type@),
{
        let s = str_to_chars(field_type);
        let mut out: Vec<String> = Vec::new();
        let mut seg: Vec<char> = Vec::new();
        let ghost mut seg_start: int = 0;
        let mut i: usize = 0;
        assert(s@.skip(0) =~= s@);
        assert(seg@ =~= s@.subrange(0, 0));
        while i < s.len()
            invariant
                0 <= seg_start <= i <= s@.len(),
                s@ == field_type@,
                seg@ == s@.subrange(seg_start, i as int),
                forall|j: int| seg_start <= j < i ==> !is_bracket(s@[j]),
                tokens_model(s@) == out.deep_view() + tokens_model(s@.skip(seg_start)),
            decreases s@.len() - i,
        {
            let c = s[i];
            if c == '<' || c == '>' {
                proof {
                    let rest = s@.skip(seg_start);
                    assert(forall|j: int| 0 <= j < rest.len() ==> rest[j] == s@[seg_start + j]);
                    lemma_find_bracket_found(rest, i - seg_start);
                    assert(rest.take(i - seg_start) =~= seg@);
                    assert(rest[i - seg_start] == s@[i as int]);
                    assert(rest.skip(i - seg_start + 1) =~= s@.skip(i as int + 1));
                }
                let ghost out0 = out.deep_view();
                let tok = chars_to_string(&seg);
                out.push(tok);
                assert(out.deep_view() =~= out0.push(seg@));
                let mut b: Vec<char> = Vec::new();
                b.push(c);
                let ghost out1 = out.deep_view();
                let btok = chars_to_string(&b);
                out.push(btok);
                proof {
                    assert(out.deep_view() =~= out1.push(seq![s@[i as int]]));
                    assert(out.deep_view() =~= out0 + seq![seg@, seq![s@[i as int]]]);
                    assert(out0 + tokens_model(s@.skip(seg_start)) == out.deep_view()
                        + tokens_model(s@.skip(i as int + 1)));
                }
                seg = Vec::new();
                proof {
                    seg_start = i as int + 1;
                    assert(seg@ =~= s@.subrange(seg_start, i as int + 1));
                }
            } else {
                seg.push(c);
                assert(seg@ =~= s@.subrange(seg_start, i as int + 1));
            }
            i = i + 1;
        }
        proof {
            let rest = s@.skip(seg_start);
            assert(forall|j: int| 0 <= j < rest.len() ==> rest[j] == s@[seg_start + j]);
            lemma_find_bracket_absent(rest);
            assert(out.deep_view() + Seq::<Seq<char>>::empty() =~= out.deep_view());
        }
        out
}

/// Position of the first occurrence of `p` in `s`, or `s.len()` if there is
/// none (for non-empty `p`).
pub open spec fn find_sub(s: Seq<char>, p: Seq<char>) -> nat
    decreases s.len(),
{
    if s.len() < p.len() {
        s.len()
    } else if s.subrange(0, p.len() as int) == p {
        0
    } else if s.len() == 0 {
        0
    } else {
        1 + find_sub(s.skip(1), p)
    }
}

proof fn lemma_find_sub_found(s: Seq<char>, p: Seq<char>, i: int)
    requires
        p.len() > 0,
        0 <= i,
        i + p.len() <= s.len(),
        s.subrange(i, i + p.len()) == p,
        forall|j: int| 0 <= j < i ==> #[trigger] s.subrange(j, j + p.len()) != p,
    ensures
        find_sub(s, p) == i,
    decreases s.len(),
{
    if i == 0 {
    } else {
        assert(s.subrange(0, p.len() as int) == s.subrange(0, 0 + p.len() as int));
        let t = s.skip(1);
        assert(t.subrange(i - 1, i - 1 + p.len()) =~= s.subrange(i, i + p.len()));
        assert forall|j: int| 0 <= j < i - 1 implies #[trigger] t.subrange(j, j + p.len())
            != p by {
            assert(t.subrange(j, j + p.len()) =~= s.subrange(j + 1, j + 1 + p.len()));
        }
        lemma_find_sub_found(t, p, i - 1);
    }
}

proof fn lemma_find_sub_absent(s: Seq<char>, p: Seq<char>)
    requires
        p.len() > 0,
        forall|j: int| 0 <= j && j + p.len() <= s.len() ==> #[trigger] s.subrange(j, j + p.len())
            != p,
    ensures
        find_sub(s, p) == s.len(),
    decreases s.len(),
{
    if s.len() < p.len() {
    } else {
        assert(s.subrange(0, p.len() as int) == s.subrange(0, 0 + p.len() as int));
        let t = s.skip(1);
        assert forall|j: int| 0 <= j && j + p.len() <= t.len() implies #[trigger] t.subrange(
            j,
            j + p.len(),
        ) != p by {
            assert(t.subrange(j, j + p.len()) =~= s.subrange(j + 1, j + 1 + p.len()));
        }
        lemma_find_sub_absent(t, p);
    }
}

/// Position of the first occurrence of `p`, as executable code.
fn find_first(s: &Vec<char>, p: &Vec<char>) -> (r: usize)
    requires
        p@.len() > 0,
    ensures
        r == find_sub(s@, p@),
        r <= s@.len(),
{
    if p.len() > s.len() {
        proof {
            lemma_find_sub_absent(s@, p@);
        }
        return s.len();
    }
    let count: usize = s.len() - p.len() + 1;
    let mut i: usize = 0;
    while i < count
        invariant
            i <= count,
            count == s@.len() - p@.len() + 1,
            p@.len() > 0,
            forall|j: int| 0 <= j < i ==> #[trigger] s@.subrange(j, j + p@.len()) != p@,
        decreases count - i,
    {
        if crate::text::matches_at(s, p, i) {
            proof {
                lemma_find_sub_found(s@, p@, i as int);
            }
            return i;
        }
        i = i + 1;
    }
    proof {
        lemma_find_sub_absent(s@, p@);
    }
    s.len()
}

proof fn lemma_find_sub_props(s: Seq<char>, p: Seq<char>)
    requires
        p.len() > 0,
    ensures
        find_sub(s, p) <= s.len(),
        find_sub(s, p) < s.len() ==> find_sub(s, p) + p.len() <= s.len() && s.subrange(
            find_sub(s, p) as int,
            find_sub(s, p) as int + p.len() as int,
        ) == p,
    decreases s.len(),
{
    if s.len() < p.len() {
    } else if s.subrange(0, p.len() as int) == p {
        assert(s.subrange(0, 0 + p.len() as int) == p);
    } else {
        lemma_find_sub_props(s.skip(1), p);
        let t = s.skip(1);
        let i = find_sub(t, p) as int;
        if i < t.len() {
            assert(t.subrange(i, i + p.len()) =~= s.subrange(i + 1, i + 1 + p.len()));
        }
    }
}

/// The scan that rewrites one wrapper occurrence: up to the first `>`,
/// characters are copied with `<` and spaces dropped and the first kept
/// character uppercased; everything after that `>` is copied verbatim.
pub open spec fn cap_inner(rest: Seq<char>, first: bool) -> Seq<char>
    decreases rest.len(),
{
    if rest.len() == 0 {
        Seq::empty()
    } else if rest[0] == '>' {
        rest.skip(1)
    } else if rest[0] == '<' || rest[0] == ' ' {
        cap_inner(rest.skip(1), first)
    } else if first {
        seq![upper_char(rest[0])] + cap_inner(rest.skip(1), false)
    } else {
        seq![rest[0]] + cap_inner(rest.skip(1), false)
    }
}

/// The first `object_ptr<name>` wrapper collapsed to `Name`: the wrapper
/// spelling is dropped, the wrapped name's first character is uppercased,
/// and the surrounding text is kept.
pub open spec fn unwrap_object_ptr(t: Seq<char>) -> Seq<char> {
    let i = find_sub(t, "object_ptr"@) as int;
    if i >= t.len() {
        t
    } else {
        t.take(i) + cap_inner(t.skip(i + "object_ptr"@.len()), true)
    }
}

/// A raw native type spelling rewritten to the binding spelling: fixed
/// substitutions of the primitive and container spellings, the
/// `object_ptr` wrapper collapsed, and spaces stripped.
pub open spec fn rs_type_model(s: Seq<char>) -> Seq<char> {
    let t1 = replace_seq(s, "std::int32_t"@, "i32"@);
    let t2 = replace_seq(t1, "std::int64_t"@, "i64"@);
    let t3 = replace_seq(t2, "std::string"@, "String"@);
    let t4 = replace_seq(t3, "std::vector"@, "Vec"@);
    let t5 = replace_seq(t4, "double"@, "f64"@);
    let t6 = if has_sub(t5, "object_ptr"@) {
        unwrap_object_ptr(t5)
    } else {
        t5
    };
    replace_seq(t6, " "@, ""@)
}

fn copy_chars(t: &Vec<char>) -> (r: Vec<char>)
    ensures
        r@ == t@,
{
    let mut out: Vec<char> = Vec::new();
    let mut i: usize = 0;
    while i < t.len()
        invariant
            i <= t.len(),
            out@ == t@.take(i as int),
        decreases t.len() - i,
    {
        out.push(t[i]);
        i = i + 1;
        assert(t@.take(i as int) == t@.take(i as int - 1).push(t@[i as int - 1]));
    }
    assert(t@.take(t.len() as int) == t@);
    out
}

fn unwrap_optr_chars(t: &Vec<char>) -> (r: Vec<char>)
    ensures
        r@ == unwrap_object_ptr(t@),
{
    let pat = str_to_chars("object_ptr");
    proof {
        reveal_strlit("object_ptr");
    }
    let i = find_first(t, &pat);
    if i >= t.len() {
        return copy_chars(t);
    }
    proof {
        lemma_find_sub_props(t@, pat@);
    }
    let mut out: Vec<char> = Vec::new();
    let mut k: usize = 0;
    while k < i
        invariant
            k <= i <= t@.len(),
            out@ == t@.take(k as int),
        decreases i - k,
    {
        out.push(t[k]);
        k = k + 1;
        assert(t@.take(k as int) == t@.take(k as int - 1).push(t@[k as int - 1]));
    }
    let mut j: usize = i + pat.len();
    let mut first: bool = true;
    proof {
        assert(out@ == t@.take(i as int));
    }
    while j < t.len() && t[j] != '>'
        invariant
            i + pat@.len() <= j <= t@.len(),
            unwrap_object_ptr(t@) == out@ + cap_inner(t@.skip(j as int), first),
        decreases t@.len() - j,
    {
        let c = t[j];
        let ghost rest = t@.skip(j as int);
        proof {
            assert(rest[0] == t@[j as int]);
            assert(rest.skip(1) =~= t@.skip(j as int + 1));
        }
        if c == '<' || c == ' ' {
        } else if first {
            out.push(to_upper_char(c));
            first = false;
            assert(out@ + cap_inner(t@.skip(j as int + 1), false) =~= out@.drop_last() + (seq![
                upper_char(rest[0]),
            ] + cap_inner(rest.skip(1), false)));
        } else {
            out.push(c);
            assert(out@ + cap_inner(t@.skip(j as int + 1), false) =~= out@.drop_last() + (seq![
                rest[0],
            ] + cap_inner(rest.skip(1), false)));
        }
        j = j + 1;
    }
    if j < t.len() {
        let ghost rest = t@.skip(j as int);
        proof {
            assert(rest[0] == t@[j as int]);
            assert(rest.skip(1) =~= t@.skip(j as int + 1));
        }
        j = j + 1;
        while j < t.len()
            invariant
                j <= t@.len(),
                unwrap_object_ptr(t@) == out@ + t@.skip(j as int),
            decreases t@.len() - j,
        {
            let ghost rest2 = t@.skip(j as int);
            proof {
                assert(rest2[0] == t@[j as int]);
                assert(rest2.skip(1) =~= t@.skip(j as int + 1));
                assert(out@.push(t@[j as int]) + t@.skip(j as int + 1) =~= out@ + rest2);
            }
            out.push(t[j]);
            j = j + 1;
        }
        assert(t@.skip(j as int) =~= Seq::<char>::empty());
        assert(out@ + Seq::<char>::empty() =~= out@);
    } else {
        assert(t@.skip(j as int) =~= Seq::<char>::empty());
        assert(out@ + Seq::<char>::empty() =~= out@);
    }
    out
}

fn replace_lit(s: &Vec<char>, pat: &str, sub: &str) -> (r: Vec<char>)
    ensures
        r@ == replace_seq(s@, pat@, sub@),
{
    let p = str_to_chars(pat);
    let q = str_to_chars(sub);
    crate::text::replace_chars(s, &p, &q)
}

/// Rewrites a raw native type spelling into the binding spelling.
pub fn rs_type(type_: String) -> (r: String)
    ensures
        r@ == rs_type_model(type_@),
{
    let s0 = str_to_chars(type_.as_str());
    let t1 = replace_lit(&s0, "std::int32_t", "i32");
    let t2 = replace_lit(&t1, "std::int64_t", "i64");
    let t3 = replace_lit(&t2, "std::string", "String");
    let t4 = replace_lit(&t3, "std::vector", "Vec");
    let t5 = replace_lit(&t4, "double", "f64");
    let optr = str_to_chars("object_ptr");
    let t6 = if contains_chars(&t5, &optr) {
        unwrap_optr_chars(&t5)
    } else {
        copy_chars(&t5)
    };
    let t7 = replace_lit(&t6, " ", "");
    chars_to_string(&t7)
}

/// A field identifier normalized: the single reserved-word-escaping
/// trailing underscore is stripped, except for the one name `type_`, which
/// is kept as written.
pub open spec fn field_name_model(s: Seq<char>) -> Seq<char> {
    if s == "type_"@ {
        s
    } else if s.len() > 0 && s.last() == '_' {
        s.drop_last()
    } else {
        s
    }
}

/// Normalizes a field identifier.
pub fn rs_field_name(name: String) -> (r: String)
    ensures
        r@ == field_name_model(name@),
{
    let chars = str_to_chars(name.as_str());
    let tp = str_to_chars("type_");
    if eq_chars(&chars, &tp) {
        return name;
    }
    if chars.len() == 0 || chars[chars.len() - 1] != '_' {
        return name;
    }
    let end: usize = chars.len() - 1;
    let mut out: Vec<char> = Vec::new();
    let mut k: usize = 0;
    while k < end
        invariant
            k <= end <= chars@.len(),
            out@ == chars@.take(k as int),
        decreases end - k,
    {
        out.push(chars[k]);
        k = k + 1;
        assert(chars@.take(k as int) == chars@.take(k as int - 1).push(chars@[k as int - 1]));
    }
    assert(out@ =~= chars@.drop_last());
    chars_to_string(&out)
}

/// Some entry of the class list lowers to this cache key.
pub open spec fn exists_key(ns: Seq<Seq<char>>, k: Seq<char>) -> bool {
    exists|i: int| 0 <= i < ns.len() && #[trigger] lower_seq(ns[i]) == k
}

/// Some class in the list has this name, compared case-insensitively.
pub open spec fn exists_model(ns: Seq<Seq<char>>, q: Seq<char>) -> bool {
    exists_key(ns, lower_seq(q))
}

/// The class list with skip-listed names removed, in order.
pub open spec fn keep_names(ns: Seq<Seq<char>>) -> Seq<Seq<char>>
    decreases ns.len(),
{
    if ns.len() == 0 {
        Seq::empty()
    } else if is_skip_model(ns.last()) {
        keep_names(ns.drop_last())
    } else {
        keep_names(ns.drop_last()) + seq![ns.last()]
    }
}

/// The brief description a class's document yields, if any: the first
/// text node of the first description block, trimmed and with the
/// `&quot;` entity restored.
pub open spec fn desc_of(ds: Map<Seq<char>, ClassDocModel>, k: Seq<char>) -> Option<Seq<char>> {
    if ds.contains_key(k) {
        match ds[k].brief {
            Some(b) => Some(cleaned_text(seq![b])),
            None => None,
        }
    } else {
        None
    }
}

/// The case-folded description contains one of the two fixed phrases that
/// mark an abstract base class.
pub open spec fn trait_phrase(d: Seq<char>) -> bool {
    let low = lower_seq(d);
    has_sub(low, "this class is a base class"@) || has_sub(
        low,
        "this class is an abstract base class"@,
    )
}

/// The trait (abstract-base) flag a class's document yields; a class with
/// no description is not a trait.
pub open spec fn trait_of(ds: Map<Seq<char>, ClassDocModel>, k: Seq<char>) -> bool {
    match desc_of(ds, k) {
        Some(d) => trait_phrase(d),
        None => false,
    }
}

/// The parent class a document yields: the first text node of the second
/// inheritance-diagram link (the first link is the class's own
/// self-reference).
pub open spec fn father_of(ds: Map<Seq<char>, ClassDocModel>, k: Seq<char>) -> Option<Seq<char>> {
    if ds.contains_key(k) && ds[k].inherit_heads.len() > 1 {
        ds[k].inherit_heads[1]
    } else {
        None
    }
}

/// Index of the first paragraph whose case-folded text begins with the
/// inherited-by marker, or the paragraph count if none does.
pub open spec fn find_inherited(ps: Seq<ParagraphModel>) -> nat
    decreases ps.len(),
{
    if ps.len() == 0 {
        0
    } else if has_prefix(lower_seq(ps[0].text), "inherited by"@) {
        0
    } else {
        1 + find_inherited(ps.skip(1))
    }
}

/// The link texts of one paragraph, skip-listed names removed and each
/// remaining name's first character uppercased, in order.
pub open spec fn subs_links(links: Seq<Seq<char>>) -> Seq<Seq<char>>
    decreases links.len(),
{
    if links.len() == 0 {
        Seq::empty()
    } else if is_skip_model(links.last()) {
        subs_links(links.drop_last())
    } else {
        subs_links(links.drop_last()) + seq![capitalize_seq(links.last())]
    }
}

/// The subclass list a document yields, if it has an inherited-by
/// paragraph.
pub open spec fn subs_of(ds: Map<Seq<char>, ClassDocModel>, k: Seq<char>) -> Option<
    Seq<Seq<char>>,
> {
    if ds.contains_key(k) {
        let ps = ds[k].paragraphs;
        let i = find_inherited(ps);
        if i < ps.len() {
            Some(subs_links(ps[i as int].links))
        } else {
            None
        }
    } else {
        None
    }
}

/// A member-declaration block whose heading marks the public-fields table.
pub open spec fn heading_matches(b: BlockModel) -> bool {
    match b.heading {
        Some(h) => has_sub(lower_seq(h), "public fields"@),
        None => false,
    }
}

/// Index of the first public-fields block, or the block count if none.
pub open spec fn find_fields_block(bs: Seq<BlockModel>) -> nat
    decreases bs.len(),
{
    if bs.len() == 0 {
        0
    } else if heading_matches(bs[0]) {
        0
    } else {
        1 + find_fields_block(bs.skip(1))
    }
}

/// The resolver's answer to `is_trait`: the name must be known and its
/// document's trait flag set.
pub open spec fn is_trait_model(
    ns: Seq<Seq<char>>,
    ds: Map<Seq<char>, ClassDocModel>,
    q: Seq<char>,
) -> bool {
    exists_model(ns, q) && trait_of(ds, lower_seq(q))
}

/// A token the trait scan passes over: a bracket or the container keyword.
pub open spec fn token_skipped(t: Seq<char>) -> bool {
    t == "<"@ || t == ">"@ || lower_seq(t) == "vec"@
}

/// Some non-bracket, non-container token names a known trait class.
pub open spec fn any_trait_token(
    ns: Seq<Seq<char>>,
    ds: Map<Seq<char>, ClassDocModel>,
    toks: Seq<Seq<char>>,
) -> bool
    decreases toks.len(),
{
    if toks.len() == 0 {
        false
    } else if token_skipped(toks[0]) {
        any_trait_token(ns, ds, toks.skip(1))
    } else if is_trait_model(ns, ds, toks[0]) {
        true
    } else {
        any_trait_token(ns, ds, toks.skip(1))
    }
}

/// Whether a normalized field type refers to a trait class: the whole name
/// for a flat type, any inner token for a generic one.
pub open spec fn field_type_trait_model(
    ns: Seq<Seq<char>>,
    ds: Map<Seq<char>, ClassDocModel>,
    ftype: Seq<char>,
) -> bool {
    if !has_sub(ftype, "<"@) {
        is_trait_model(ns, ds, ftype)
    } else {
        any_trait_token(ns, ds, tokens_model(ftype))
    }
}

/// One token of a generic spelling, boxed if it names a trait class.
pub open spec fn boxed_token(
    ns: Seq<Seq<char>>,
    ds: Map<Seq<char>, ClassDocModel>,
    t: Seq<char>,
) -> Seq<char> {
    if is_trait_model(ns, ds, t) {
        "Box<"@ + t + ">"@
    } else {
        t
    }
}

/// All tokens rejoined with trait tokens boxed.
pub open spec fn join_boxed(
    ns: Seq<Seq<char>>,
    ds: Map<Seq<char>, ClassDocModel>,
    toks: Seq<Seq<char>>,
) -> Seq<char>
    decreases toks.len(),
{
    if toks.len() == 0 {
        Seq::empty()
    } else {
        boxed_token(ns, ds, toks[0]) + join_boxed(ns, ds, toks.skip(1))
    }
}

/// The emitted spelling of a field type: unchanged when no trait is
/// involved, wrapped whole when flat, or rejoined with the trait tokens
/// boxed when generic.
pub open spec fn box_model(
    ns: Seq<Seq<char>>,
    ds: Map<Seq<char>, ClassDocModel>,
    ftype: Seq<char>,
    tr: bool,
) -> Seq<char> {
    if !tr {
        ftype
    } else if !has_sub(ftype, "<"@) {
        "Box<"@ + ftype + ">"@
    } else {
        join_boxed(ns, ds, tokens_model(ftype))
    }
}

/// The staging slot a field table walk starts from.
pub open spec fn empty_staged() -> FieldModel {
    FieldModel {
        name: Seq::empty(),
        description: Seq::empty(),
        is_trait: false,
        class: Seq::empty(),
    }
}

/// The fields a member table yields, walked in row order: a member-item
/// row stages a field's name, type and boxing; the member-description row
/// that follows completes and emits it. A staged field with no description
/// row never emits.
pub open spec fn walk_rows(
    ns: Seq<Seq<char>>,
    ds: Map<Seq<char>, ClassDocModel>,
    rows: Seq<RowModel>,
    staged: FieldModel,
) -> Seq<FieldModel>
    decreases rows.len(),
{
    if rows.len() == 0 {
        Seq::empty()
    } else {
        let row = rows[0];
        let rest = rows.skip(1);
        match row.kind {
            None => walk_rows(ns, ds, rest, staged),
            Some(k) => if k == "heading"@ {
                walk_rows(ns, ds, rest, staged)
            } else if has_prefix(k, "memitem"@) {
                let ftype = rs_type_model(row.left);
                let tr = field_type_trait_model(ns, ds, ftype);
                let staged2 = FieldModel {
                    name: field_name_model(row.right),
                    description: staged.description,
                    is_trait: tr,
                    class: box_model(ns, ds, ftype, tr),
                };
                walk_rows(ns, ds, rest, staged2)
            } else if has_prefix(k, "memdesc"@) {
                let done = FieldModel {
                    name: staged.name,
                    description: row.desc,
                    is_trait: staged.is_trait,
                    class: staged.class,
                };
                seq![done] + walk_rows(ns, ds, rest, done)
            } else {
                walk_rows(ns, ds, rest, staged)
            },
        }
    }
}

/// The field list a document yields, if it has a public-fields block.
pub open spec fn fields_of(
    ns: Seq<Seq<char>>,
    ds: Map<Seq<char>, ClassDocModel>,
    k: Seq<char>,
) -> Option<Seq<FieldModel>> {
    if ds.contains_key(k) {
        let bs = ds[k].blocks;
        let i = find_fields_block(bs);
        if i < bs.len() {
            Some(walk_rows(ns, ds, bs[i as int].rows, empty_staged()))
        } else {
            None
        }
    } else {
        None
    }
}

/// The document cache the first construction pass builds: each pair's
/// document under the lowercased name, a later pair winning.
pub open spec fn docs_map(pairs: Seq<(Seq<char>, ClassDocModel)>) -> Map<
    Seq<char>,
    ClassDocModel,
>
    decreases pairs.len(),
{
    if pairs.len() == 0 {
        Map::empty()
    } else {
        docs_map(pairs.drop_last()).insert(lower_seq(pairs.last().0), pairs.last().1)
    }
}

/// The description cache after a pass over the class list.
pub open spec fn desc_map(ns: Seq<Seq<char>>, ds: Map<Seq<char>, ClassDocModel>) -> Map<
    Seq<char>,
    Seq<char>,
>
    decreases ns.len(),
{
    if ns.len() == 0 {
        Map::empty()
    } else {
        let m = desc_map(ns.drop_last(), ds);
        let k = lower_seq(ns.last());
        match desc_of(ds, k) {
            Some(d) => m.insert(k, d),
            None => m,
        }
    }
}

/// The trait-flag cache after a pass over the class list: every listed
/// name gets an entry.
pub open spec fn trait_map(ns: Seq<Seq<char>>, ds: Map<Seq<char>, ClassDocModel>) -> Map<
    Seq<char>,
    bool,
>
    decreases ns.len(),
{
    if ns.len() == 0 {
        Map::empty()
    } else {
        let k = lower_seq(ns.last());
        trait_map(ns.drop_last(), ds).insert(k, trait_of(ds, k))
    }
}

/// The parent-class cache after a pass over the class list.
pub open spec fn father_map(ns: Seq<Seq<char>>, ds: Map<Seq<char>, ClassDocModel>) -> Map<
    Seq<char>,
    Seq<char>,
>
    decreases ns.len(),
{
    if ns.len() == 0 {
        Map::empty()
    } else {
        let m = father_map(ns.drop_last(), ds);
        let k = lower_seq(ns.last());
        match father_of(ds, k) {
            Some(f) => m.insert(k, f),
            None => m,
        }
    }
}

/// The subclass cache after a pass over the class list.
pub open spec fn subs_map(ns: Seq<Seq<char>>, ds: Map<Seq<char>, ClassDocModel>) -> Map<
    Seq<char>,
    Seq<Seq<char>>,
>
    decreases ns.len(),
{
    if ns.len() == 0 {
        Map::empty()
    } else {
        let m = subs_map(ns.drop_last(), ds);
        let k = lower_seq(ns.last());
        match subs_of(ds, k) {
            Some(s) => m.insert(k, s),
            None => m,
        }
    }
}

/// The field cache after the final pass has walked a prefix `ns` of the
/// class list; trait lookups always see the full list `ns0`, since the
/// trait pass has already completed.
pub open spec fn fields_map_at(
    ns0: Seq<Seq<char>>,
    ns: Seq<Seq<char>>,
    ds: Map<Seq<char>, ClassDocModel>,
) -> Map<Seq<char>, Seq<FieldModel>>
    decreases ns.len(),
{
    if ns.len() == 0 {
        Map::empty()
    } else {
        let m = fields_map_at(ns0, ns.drop_last(), ds);
        let k = lower_seq(ns.last());
        match fields_of(ns0, ds, k) {
            Some(f) => m.insert(k, f),
            None => m,
        }
    }
}

/// The field cache after the final pass over the whole class list.
pub open spec fn fields_map(ns: Seq<Seq<char>>, ds: Map<Seq<char>, ClassDocModel>) -> Map<
    Seq<char>,
    Seq<FieldModel>,
> {
    fields_map_at(ns, ns, ds)
}

proof fn lemma_exists_key_step(ns: Seq<Seq<char>>, k: Seq<char>)
    requires
        ns.len() > 0,
    ensures
        exists_key(ns, k) <==> (exists_key(ns.drop_last(), k) || lower_seq(ns.last()) == k),
{
    if exists_key(ns, k) {
        let i = choose|i: int| 0 <= i < ns.len() && #[trigger] lower_seq(ns[i]) == k;
        if i < ns.len() - 1 {
            assert(ns.drop_last()[i] == ns[i]);
            assert(exists_key(ns.drop_last(), k));
        }
    }
    if exists_key(ns.drop_last(), k) {
        let i = choose|i: int|
            0 <= i < ns.drop_last().len() && #[trigger] lower_seq(ns.drop_last()[i]) == k;
        assert(ns.drop_last()[i] == ns[i]);
        assert(exists_key(ns, k));
    }
}

proof fn lemma_desc_map_props(ns: Seq<Seq<char>>, ds: Map<Seq<char>, ClassDocModel>, k: Seq<char>)
    ensures
        desc_map(ns, ds).contains_key(k) <==> (exists_key(ns, k) && desc_of(ds, k) is Some),
        desc_map(ns, ds).contains_key(k) ==> Some(desc_map(ns, ds)[k]) == desc_of(ds, k),
    decreases ns.len(),
{
    if ns.len() > 0 {
        lemma_desc_map_props(ns.drop_last(), ds, k);
        lemma_exists_key_step(ns, k);
    }
}

proof fn lemma_trait_map_props(ns: Seq<Seq<char>>, ds: Map<Seq<char>, ClassDocModel>, k: Seq<char>)
    ensures
        trait_map(ns, ds).contains_key(k) <==> exists_key(ns, k),
        trait_map(ns, ds).contains_key(k) ==> trait_map(ns, ds)[k] == trait_of(ds, k),
    decreases ns.len(),
{
    if ns.len() > 0 {
        lemma_trait_map_props(ns.drop_last(), ds, k);
        lemma_exists_key_step(ns, k);
    }
}

proof fn lemma_father_map_props(ns: Seq<Seq<char>>, ds: Map<Seq<char>, ClassDocModel>, k: Seq<char>)
    ensures
        father_map(ns, ds).contains_key(k) <==> (exists_key(ns, k) && father_of(ds, k) is Some),
        father_map(ns, ds).contains_key(k) ==> Some(father_map(ns, ds)[k]) == father_of(ds, k),
    decreases ns.len(),
{
    if ns.len() > 0 {
        lemma_father_map_props(ns.drop_last(), ds, k);
        lemma_exists_key_step(ns, k);
    }
}

proof fn lemma_subs_map_props(ns: Seq<Seq<char>>, ds: Map<Seq<char>, ClassDocModel>, k: Seq<char>)
    ensures
        subs_map(ns, ds).contains_key(k) <==> (exists_key(ns, k) && subs_of(ds, k) is Some),
        subs_map(ns, ds).contains_key(k) ==> Some(subs_map(ns, ds)[k]) == subs_of(ds, k),
    decreases ns.len(),
{
    if ns.len() > 0 {
        lemma_subs_map_props(ns.drop_last(), ds, k);
        lemma_exists_key_step(ns, k);
    }
}

proof fn lemma_fields_map_props(
    ns0: Seq<Seq<char>>,
    ns: Seq<Seq<char>>,
    ds: Map<Seq<char>, ClassDocModel>,
    k: Seq<char>,
)
    ensures
        fields_map_at(ns0, ns, ds).contains_key(k) <==> (exists_key(ns, k) && fields_of(
            ns0,
            ds,
            k,
        ) is Some),
        fields_map_at(ns0, ns, ds).contains_key(k) ==> Some(fields_map_at(ns0, ns, ds)[k])
            == fields_of(ns0, ds, k),
    decreases ns.len(),
{
    if ns.len() > 0 {
        lemma_fields_map_props(ns0, ns.drop_last(), ds, k);
        lemma_exists_key_step(ns, k);
    }
}

/// The resolver's answer to `description`.
pub open spec fn description_model(
    ns: Seq<Seq<char>>,
    ds: Map<Seq<char>, ClassDocModel>,
    q: Seq<char>,
) -> Option<Seq<char>> {
    if exists_model(ns, q) {
        desc_of(ds, lower_seq(q))
    } else {
        None
    }
}

/// The resolver's answer to `father_class`.
pub open spec fn father_model(
    ns: Seq<Seq<char>>,
    ds: Map<Seq<char>, ClassDocModel>,
    q: Seq<char>,
) -> Option<Seq<char>> {
    if exists_model(ns, q) {
        father_of(ds, lower_seq(q))
    } else {
        None
    }
}

/// The resolver's answer to `sub_classes`.
pub open spec fn subs_model(
    ns: Seq<Seq<char>>,
    ds: Map<Seq<char>, ClassDocModel>,
    q: Seq<char>,
) -> Option<Seq<Seq<char>>> {
    if exists_model(ns, q) {
        subs_of(ds, lower_seq(q))
    } else {
        None
    }
}

/// The resolver's answer to `fields`.
pub open spec fn fields_model(
    ns: Seq<Seq<char>>,
    ds: Map<Seq<char>, ClassDocModel>,
    q: Seq<char>,
) -> Option<Seq<FieldModel>> {
    if exists_model(ns, q) {
        fields_of(ns, ds, lower_seq(q))
    } else {
        None
    }
}

/// A cache key: the lowercased characters of a name.
fn key_for(name: &str) -> (r: Vec<char>)
    ensures
        r@ == lower_seq(name@),
{
    let chars = str_to_chars(name);
    lower_chars(&chars)
}

impl Apipe {
    /// The class names the resolver was built over, in order.
    pub closed spec fn spec_names(&self) -> Seq<Seq<char>> {
        self.czs.deep_view()
    }

    /// The cached documents, keyed by lowercased class name.
    pub closed spec fn spec_docs(&self) -> Map<Seq<char>, ClassDocModel> {
        self.cache_document@
    }

    /// The trait pass is complete: the trait cache is exactly the trait
    /// map of the class list and document cache.
    pub closed spec fn traits_wf(&self) -> bool {
        self.cache_is_trait@ == trait_map(self.spec_names(), self.spec_docs())
    }

    /// Every cache holds exactly what its construction pass computes from
    /// the class list and the document cache.
    pub closed spec fn wf(&self) -> bool {
        &&& self.traits_wf()
        &&& self.cache_description@ == desc_map(self.spec_names(), self.spec_docs())
        &&& self.cache_fatherclass@ == father_map(self.spec_names(), self.spec_docs())
        &&& self.cache_subclasses@ == subs_map(self.spec_names(), self.spec_docs())
        &&& self.cache_fields@ == fields_map(self.spec_names(), self.spec_docs())
    }

    fn exists_name(&self, name: &str) -> (r: bool)
        ensures
            r == exists_model(self.spec_names(), name@),
    {
        let q = key_for(name);
        let n: usize = self.czs.len();
        let mut i: usize = 0;
        while i < n
            invariant
                i <= n,
                n == self.czs@.len(),
                q@ == lower_seq(name@),
                forall|j: int| 0 <= j < i ==> #[trigger] lower_seq(self.spec_names()[j])
                    != lower_seq(name@),
            decreases n - i,
        {
            let c = key_for(self.czs[i].as_str());
            if eq_chars(&c, &q) {
                assert(lower_seq(self.spec_names()[i as int]) == lower_seq(name@));
                return true;
            }
            i = i + 1;
        }
        false
    }

    /// All known class names, in construction order, with documentation
    /// artifacts skipped.
    pub fn names(&self) -> (r: Vec<String>)
        ensures
            r.deep_view() == keep_names(self.spec_names()),
    {
        let mut out: Vec<String> = Vec::new();
        let n: usize = self.czs.len();
        let mut i: usize = 0;
        assert(self.spec_names().take(0) =~= Seq::<Seq<char>>::empty());
        while i < n
            invariant
                i <= n,
                n == self.czs@.len(),
                out.deep_view() == keep_names(self.spec_names().take(i as int)),
            decreases n - i,
        {
            proof {
                assert(self.spec_names().take(i as int + 1).drop_last() =~= self.spec_names().take(
                    i as int,
                ));
                assert(self.spec_names().take(i as int + 1).last() == self.spec_names()[i as int]);
            }
            if !Apipe::is_skip(self.czs[i].as_str()) {
                let ghost out0 = out.deep_view();
                let cloned = self.czs[i].clone();
                out.push(cloned);
                assert(out.deep_view() =~= out0.push(self.spec_names()[i as int]));
            }
            i = i + 1;
        }
        assert(self.spec_names().take(n as int) =~= self.spec_names());
        out
    }

    /// Whether a known class is documented as an abstract base type.
    pub fn is_trait(&self, name: &str) -> (r: bool)
        requires
            self.traits_wf(),
        ensures
            r == is_trait_model(self.spec_names(), self.spec_docs(), name@),
    {
        if !self.exists_name(name) {
            return false;
        }
        let key = key_for(name);
        proof {
            lemma_trait_map_props(self.spec_names(), self.spec_docs(), key@);
        }
        match self.cache_is_trait.get(&key) {
            Some(v) => *v,
            None => false,
        }
    }

    /// The brief description of a known class, if its documentation has
    /// one.
    pub fn description(&self, name: &str) -> (r: Option<&String>)
        requires
            self.wf(),
        ensures
            match r {
                Some(d) => description_model(self.spec_names(), self.spec_docs(), name@) == Some(
                    d@,
                ),
                None => description_model(self.spec_names(), self.spec_docs(), name@) is None,
            },
    {
        if !self.exists_name(name) {
            return None;
        }
        let key = key_for(name);
        proof {
            lemma_desc_map_props(self.spec_names(), self.spec_docs(), key@);
        }
        self.cache_description.get(&key)
    }

    /// The immediate superclass of a known class, if its documentation
    /// names one.
    pub fn father_class(&self, name: &str) -> (r: Option<&String>)
        requires
            self.wf(),
        ensures
            match r {
                Some(f) => father_model(self.spec_names(), self.spec_docs(), name@) == Some(f@),
                None => father_model(self.spec_names(), self.spec_docs(), name@) is None,
            },
    {
        if !self.exists_name(name) {
            return None;
        }
        let key = key_for(name);
        proof {
            lemma_father_map_props(self.spec_names(), self.spec_docs(), key@);
        }
        self.cache_fatherclass.get(&key)
    }

    /// The direct subclasses of a known class, if its documentation lists
    /// any.
    pub fn sub_classes(&self, name: &str) -> (r: Option<&Vec<String>>)
        requires
            self.wf(),
        ensures
            match r {
                Some(s) => subs_model(self.spec_names(), self.spec_docs(), name@) == Some(
                    s.deep_view(),
                ),
                None => subs_model(self.spec_names(), self.spec_docs(), name@) is None,
            },
    {
        if !self.exists_name(name) {
            return None;
        }
        let key = key_for(name);
        proof {
            lemma_subs_map_props(self.spec_names(), self.spec_docs(), key@);
        }
        self.cache_subclasses.get(&key)
    }

    /// The extracted fields of a known class, if its documentation has a
    /// public-fields table.
    pub fn fields(&self, name: &str) -> (r: Option<&Vec<TdTypeField>>)
        requires
            self.wf(),
        ensures
            match r {
                Some(f) => fields_model(self.spec_names(), self.spec_docs(), name@) == Some(
                    f.deep_view(),
                ),
                None => fields_model(self.spec_names(), self.spec_docs(), name@) is None,
            },
    {
        if !self.exists_name(name) {
            return None;
        }
        let key = key_for(name);
        proof {
            lemma_fields_map_props(
                self.spec_names(),
                self.spec_names(),
                self.spec_docs(),
                key@,
            );
        }
        self.cache_fields.get(&key)
    }
}

/// Whether a normalized field type refers to a known trait class: the
/// whole spelling for a flat type, any non-bracket, non-container token
/// for a generic one.
pub fn field_is_trait(apipe: &Apipe, field_type: &str) -> (r: bool)
    requires
        apipe.traits_wf(),
    ensures
        r == field_type_trait_model(apipe.spec_names(), apipe.spec_docs(), field_type@),
{
    let chars = str_to_chars(field_type);
    let lt = str_to_chars("<");
    if !contains_chars(&chars, &lt) {
        return apipe.is_trait(field_type);
    }
    let chs = type_items(field_type);
    let ghost toks = tokens_model(field_type@);
    let n: usize = chs.len();
    let mut i: usize = 0;
    assert(toks.skip(0) =~= toks);
    while i < n
        invariant
            i <= n,
            n == chs@.len(),
            chs.deep_view() == toks,
            toks == tokens_model(field_type@),
            has_sub(field_type@, "<"@),
            apipe.traits_wf(),
            any_trait_token(apipe.spec_names(), apipe.spec_docs(), toks) == any_trait_token(
                apipe.spec_names(),
                apipe.spec_docs(),
                toks.skip(i as int),
            ),
        decreases n - i,
    {
        let ghost rest = toks.skip(i as int);
        proof {
            assert(rest[0] == toks[i as int]);
            assert(rest.skip(1) =~= toks.skip(i as int + 1));
            assert(toks[i as int] == chs@[i as int]@);
        }
        let tc = str_to_chars(chs[i].as_str());
        let ltc = str_to_chars("<");
        let gtc = str_to_chars(">");
        let vec_kw = str_to_chars("vec");
        let low = lower_chars(&tc);
        if eq_chars(&tc, &ltc) || eq_chars(&tc, &gtc) || eq_chars(&low, &vec_kw) {
        } else {
            assert(!token_skipped(rest[0]));
            if apipe.is_trait(chs[i].as_str()) {
                assert(is_trait_model(apipe.spec_names(), apipe.spec_docs(), rest[0]));
                assert(any_trait_token(apipe.spec_names(), apipe.spec_docs(), rest));
                return true;
            }
        }
        i = i + 1;
    }
    assert(toks.skip(n as int) =~= Seq::<Seq<char>>::empty());
    false
}

/// The emitted spelling of a field type: unchanged when no trait is
/// involved, wrapped whole when flat, or rejoined token by token with the
/// trait tokens boxed when generic.
pub fn box_trait_field_type(apipe: &Apipe, field_type: &str, is_trait: bool) -> (r: String)
    requires
        apipe.traits_wf(),
    ensures
        r@ == box_model(apipe.spec_names(), apipe.spec_docs(), field_type@, is_trait),
{
    let chars = str_to_chars(field_type);
    if !is_trait {
        return chars_to_string(&chars);
    }
    let lt = str_to_chars("<");
    if !contains_chars(&chars, &lt) {
        let mut out = str_to_chars("Box<");
        let ghost head = out@;
        let mut k: usize = 0;
        while k < chars.len()
            invariant
                k <= chars@.len(),
                out@ == head + chars@.take(k as int),
            decreases chars@.len() - k,
        {
            out.push(chars[k]);
            k = k + 1;
            assert(head + chars@.take(k as int) =~= (head + chars@.take(k as int - 1)).push(
                chars@[k as int - 1],
            ));
        }
        assert(chars@.take(chars@.len() as int) == chars@);
        out.push('>');
        proof {
            reveal_strlit(">");
            assert(out@ =~= "Box<"@ + field_type@ + ">"@);
        }
        return chars_to_string(&out);
    }
    let chs = type_items(field_type);
    let ghost toks = tokens_model(field_type@);
    let ghost ns = apipe.spec_names();
    let ghost ds = apipe.spec_docs();
    let n: usize = chs.len();
    let mut out: Vec<char> = Vec::new();
    let mut i: usize = 0;
    assert(toks.skip(0) =~= toks);
    assert(out@ + join_boxed(ns, ds, toks) =~= join_boxed(ns, ds, toks));
    while i < n
        invariant
            i <= n,
            n == chs@.len(),
            chs.deep_view() == toks,
            toks == tokens_model(field_type@),
            has_sub(field_type@, "<"@),
            is_trait,
            ns == apipe.spec_names(),
            ds == apipe.spec_docs(),
            apipe.traits_wf(),
            join_boxed(ns, ds, toks) == out@ + join_boxed(ns, ds, toks.skip(i as int)),
        decreases n - i,
    {
        let ghost rest = toks.skip(i as int);
        proof {
            assert(rest[0] == toks[i as int]);
            assert(rest.skip(1) =~= toks.skip(i as int + 1));
            assert(toks[i as int] == chs@[i as int]@);
        }
        let tc = str_to_chars(chs[i].as_str());
        let ghost out0 = out@;
        if apipe.is_trait(chs[i].as_str()) {
            let mut piece = str_to_chars("Box<");
            let ghost head = piece@;
            let mut k: usize = 0;
            while k < tc.len()
                invariant
                    k <= tc@.len(),
                    piece@ == head + tc@.take(k as int),
                decreases tc@.len() - k,
            {
                piece.push(tc[k]);
                k = k + 1;
                assert(head + tc@.take(k as int) =~= (head + tc@.take(k as int - 1)).push(
                    tc@[k as int - 1],
                ));
            }
            assert(tc@.take(tc@.len() as int) == tc@);
            piece.push('>');
            proof {
                reveal_strlit(">");
                assert(piece@ =~= "Box<"@ + toks[i as int] + ">"@);
            }
            let mut k2: usize = 0;
            while k2 < piece.len()
                invariant
                    k2 <= piece@.len(),
                    out@ == out0 + piece@.take(k2 as int),
                decreases piece@.len() - k2,
            {
                out.push(piece[k2]);
                k2 = k2 + 1;
                assert(out0 + piece@.take(k2 as int) =~= (out0 + piece@.take(k2 as int - 1)).push(
                    piece@[k2 as int - 1],
                ));
            }
            assert(piece@.take(piece@.len() as int) == piece@);
            proof {
                assert(out@ =~= out0 + boxed_token(ns, ds, toks[i as int]));
            }
        } else {
            let mut k: usize = 0;
            while k < tc.len()
                invariant
                    k <= tc@.len(),
                    out@ == out0 + tc@.take(k as int),
                decreases tc@.len() - k,
            {
                out.push(tc[k]);
                k = k + 1;
                assert(out0 + tc@.take(k as int) =~= (out0 + tc@.take(k as int - 1)).push(
                    tc@[k as int - 1],
                ));
            }
            assert(tc@.take(tc@.len() as int) == tc@);
            proof {
                assert(out@ =~= out0 + boxed_token(ns, ds, toks[i as int]));
            }
        }
        proof {
            assert(out0 + (boxed_token(ns, ds, rest[0]) + join_boxed(ns, ds, rest.skip(1))) =~= out@
                + join_boxed(ns, ds, toks.skip(i as int + 1)));
        }
        i = i + 1;
    }
    assert(toks.skip(n as int) =~= Seq::<Seq<char>>::empty());
    assert(out@ + Seq::<char>::empty() =~= out@);
    chars_to_string(&out)
}

proof fn lemma_find_inherited_found(ps: Seq<ParagraphModel>, i: int)
    requires
        0 <= i < ps.len(),
        has_prefix(lower_seq(ps[i].text), "inherited by"@),
        forall|j: int| 0 <= j < i ==> !has_prefix(lower_seq(#[trigger] ps[j].text), "inherited by"@),
    ensures
        find_inherited(ps) == i,
    decreases ps.len(),
{
    if i > 0 {
        assert(forall|j: int| 0 <= j < ps.len() - 1 ==> ps.skip(1)[j] == ps[j + 1]);
        lemma_find_inherited_found(ps.skip(1), i - 1);
    }
}

proof fn lemma_find_inherited_absent(ps: Seq<ParagraphModel>)
    requires
        forall|j: int|
            0 <= j < ps.len() ==> !has_prefix(lower_seq(#[trigger] ps[j].text), "inherited by"@),
    ensures
        find_inherited(ps) == ps.len(),
    decreases ps.len(),
{
    if ps.len() > 0 {
        assert(forall|j: int| 0 <= j < ps.len() - 1 ==> ps.skip(1)[j] == ps[j + 1]);
        lemma_find_inherited_absent(ps.skip(1));
    }
}

proof fn lemma_find_fields_block_found(bs: Seq<BlockModel>, i: int)
    requires
        0 <= i < bs.len(),
        heading_matches(bs[i]),
        forall|j: int| 0 <= j < i ==> !heading_matches(#[trigger] bs[j]),
    ensures
        find_fields_block(bs) == i,
    decreases bs.len(),
{
    if i > 0 {
        assert(forall|j: int| 0 <= j < bs.len() - 1 ==> bs.skip(1)[j] == bs[j + 1]);
        lemma_find_fields_block_found(bs.skip(1), i - 1);
    }
}

proof fn lemma_find_fields_block_absent(bs: Seq<BlockModel>)
    requires
        forall|j: int| 0 <= j < bs.len() ==> !heading_matches(#[trigger] bs[j]),
    ensures
        find_fields_block(bs) == bs.len(),
    decreases bs.len(),
{
    if bs.len() > 0 {
        assert(forall|j: int| 0 <= j < bs.len() - 1 ==> bs.skip(1)[j] == bs[j + 1]);
        lemma_find_fields_block_absent(bs.skip(1));
    }
}

impl Apipe {
    /// The field records one known class's member table yields, or `None`
    /// when its document has no public-fields block.
    fn fields_for(&self, name: &str) -> (r: Option<Vec<TdTypeField>>)
        requires
            self.traits_wf(),
            exists_model(self.spec_names(), name@),
        ensures
            match r {
                Some(v) => fields_of(self.spec_names(), self.spec_docs(), lower_seq(name@))
                    == Some(v.deep_view()),
                None => fields_of(self.spec_names(), self.spec_docs(), lower_seq(name@)) is None,
            },
    {
        let key = key_for(name);
        let doc = match self.cache_document.get(&key) {
            Some(d) => d,
            None => {
                return None;
            },
        };
        let ghost ns = self.spec_names();
        let ghost ds = self.spec_docs();
        let ghost dm = doc.deep_view();
        let pf = str_to_chars("public fields");
        let nb: usize = doc.blocks.len();
        let mut found: Option<usize> = None;
        let mut bi: usize = 0;
        while bi < nb
            invariant
                bi <= nb,
                nb == doc.blocks@.len(),
                dm == doc.deep_view(),
                pf@ == "public fields"@,
                match found {
                    None => forall|j: int|
                        0 <= j < bi ==> !heading_matches(#[trigger] dm.blocks[j]),
                    Some(f) => 0 <= f < nb && heading_matches(dm.blocks[f as int]) && forall|
                        j: int,
                    | 0 <= j < f ==> !heading_matches(#[trigger] dm.blocks[j]),
                },
            decreases nb - bi,
        {
            if found.is_none() {
                let matched = match &doc.blocks[bi].heading {
                    Some(h) => {
                        let low = lower_chars(&str_to_chars(h.as_str()));
                        contains_chars(&low, &pf)
                    },
                    None => false,
                };
                proof {
                    assert(dm.blocks[bi as int] == doc.blocks@[bi as int].deep_view());
                }
                if matched {
                    found = Some(bi);
                }
            }
            bi = bi + 1;
        }
        let f: usize = match found {
            Some(f) => f,
            None => {
                proof {
                    lemma_find_fields_block_absent(dm.blocks);
                }
                return None;
            },
        };
        proof {
            lemma_find_fields_block_found(dm.blocks, f as int);
        }
        let rows_ref = &doc.blocks[f].rows;
        let ghost rowsd = dm.blocks[f as int].rows;
        proof {
            assert(rowsd == rows_ref.deep_view());
        }
        let nr: usize = rows_ref.len();
        let mut staged = TdTypeField {
            name: String::new(),
            description: String::new(),
            is_trait: false,
            class: String::new(),
        };
        let mut out: Vec<TdTypeField> = Vec::new();
        let mut ri: usize = 0;
        proof {
            assert(staged.deep_view() == empty_staged());
            assert(rowsd.skip(0) =~= rowsd);
        }
        while ri < nr
            invariant
                ri <= nr,
                nr == rows_ref@.len(),
                rowsd == rows_ref.deep_view(),
                ns == self.spec_names(),
                ds == self.spec_docs(),
                self.traits_wf(),
                walk_rows(ns, ds, rowsd, empty_staged()) == out.deep_view() + walk_rows(
                    ns,
                    ds,
                    rowsd.skip(ri as int),
                    staged.deep_view(),
                ),
            decreases nr - ri,
        {
            let ghost rrest = rowsd.skip(ri as int);
            proof {
                assert(rrest[0] == rowsd[ri as int]);
                assert(rrest.skip(1) =~= rowsd.skip(ri as int + 1));
                assert(rowsd[ri as int] == rows_ref@[ri as int].deep_view());
            }
            let row = &rows_ref[ri];
            match &row.kind {
                None => {},
                Some(k) => {
                    let kc = str_to_chars(k.as_str());
                    let hpat = str_to_chars("heading");
                    let mipat = str_to_chars("memitem");
                    let mdpat = str_to_chars("memdesc");
                    if eq_chars(&kc, &hpat) {
                    } else if starts_with_chars(&kc, &mipat) {
                        let ftype = rs_type(row.left.clone());
                        let ft = field_is_trait(self, ftype.as_str());
                        let boxed = box_trait_field_type(self, ftype.as_str(), ft);
                        let fname = rs_field_name(row.right.clone());
                        staged.name = fname;
                        staged.is_trait = ft;
                        staged.class = boxed;
                    } else if starts_with_chars(&kc, &mdpat) {
                        staged.description = row.desc.clone();
                        let ghost out0 = out.deep_view();
                        let emitted = staged.clone();
                        out.push(emitted);
                        proof {
                            assert(out.deep_view() =~= out0.push(staged.deep_view()));
                            assert(out0 + (seq![staged.deep_view()] + walk_rows(
                                ns,
                                ds,
                                rrest.skip(1),
                                staged.deep_view(),
                            )) =~= out.deep_view() + walk_rows(
                                ns,
                                ds,
                                rrest.skip(1),
                                staged.deep_view(),
                            ));
                        }
                    } else {
                    }
                },
            }
            ri = ri + 1;
        }
        proof {
            assert(rowsd.skip(nr as int) =~= Seq::<RowModel>::empty());
            assert(out.deep_view() + Seq::<FieldModel>::empty() =~= out.deep_view());
        }
        Some(out)
    }
}

/// The names of a (name, document) list, in order.
pub open spec fn pair_names(pairs: Seq<(Seq<char>, ClassDocModel)>) -> Seq<Seq<char>> {
    pairs.map_values(|p: (Seq<char>, ClassDocModel)| p.0)
}

/// The names of a (name, document text) list, in order.
pub open spec fn content_names(pairs: Seq<(Seq<char>, Seq<char>)>) -> Seq<Seq<char>> {
    pairs.map_values(|p: (Seq<char>, Seq<char>)| p.0)
}

proof fn lemma_docs_map_covers(pairs: Seq<(Seq<char>, ClassDocModel)>, i: int)
    requires
        0 <= i < pairs.len(),
    ensures
        docs_map(pairs).contains_key(lower_seq(pairs[i].0)),
    decreases pairs.len(),
{
    if i < pairs.len() - 1 {
        lemma_docs_map_covers(pairs.drop_last(), i);
        assert(pairs.drop_last()[i] == pairs[i]);
    }
}

impl Apipe {
    /// Builds the resolver from already-read documents, running the full
    /// sequence of construction passes.
    pub fn from_docs(czs: Vec<(String, ClassDoc)>) -> (r: Apipe)
        ensures
            r.wf(),
            r.traits_wf(),
            r.spec_names() == pair_names(czs.deep_view()),
            r.spec_docs() == docs_map(czs.deep_view()),
            forall|i: int|
                0 <= i < czs.deep_view().len() ==> r.spec_docs().contains_key(
                    lower_seq(#[trigger] czs.deep_view()[i].0),
                ),
    {
        let ghost pairs0 = czs.deep_view();
        let mut rest = czs;
        let mut names: Vec<String> = Vec::new();
        let mut docs: NameCache<ClassDoc> = NameCache::new();
        let ghost mut done: int = 0;
        proof {
            assert(rest.deep_view() =~= pairs0.skip(0));
            assert(names.deep_view() =~= pair_names(pairs0.take(0)));
            assert(docs@ =~= docs_map(pairs0.take(0)));
        }
        while rest.len() > 0
            invariant
                0 <= done <= pairs0.len(),
                rest.deep_view() == pairs0.skip(done),
                names.deep_view() == pair_names(pairs0.take(done)),
                docs@ == docs_map(pairs0.take(done)),
            decreases rest@.len(),
        {
            let ghost rest_sh = rest@;
            let ghost rest_dv = rest.deep_view();
            let pair = rest.remove(0);
            let (nm, doc) = pair;
            proof {
                assert(rest_sh.remove(0) =~= rest_sh.skip(1));
                assert(rest_dv == pairs0.skip(done));
                assert(rest_dv.len() > 0);
                assert(done < pairs0.len());
                assert(pairs0.skip(done)[0] == pairs0[done]);
                assert(rest_dv[0] == rest_sh[0].deep_view());
                assert((nm@, doc.deep_view()) == pairs0[done]);
                assert forall|jj: int| 0 <= jj < rest@.len() implies rest.deep_view()[jj]
                    == pairs0.skip(done + 1)[jj] by {
                    assert(rest_sh.skip(1)[jj] == rest_sh[jj + 1]);
                    assert(rest@[jj] == rest_sh[jj + 1]);
                    assert(rest_dv[jj + 1] == rest_sh[jj + 1].deep_view());
                    assert(rest_dv[jj + 1] == pairs0.skip(done)[jj + 1]);
                    assert(pairs0.skip(done)[jj + 1] == pairs0[done + 1 + jj]);
                    assert(pairs0.skip(done + 1)[jj] == pairs0[done + 1 + jj]);
                }
                assert(rest.deep_view() =~= pairs0.skip(done + 1));
            }
            let key = key_for(nm.as_str());
            let ghost names_before = names.deep_view();
            let ghost names_sh = names@;
            names.push(nm);
            docs.insert(key, doc);
            proof {
                done = done + 1;
                assert(pairs0.take(done).drop_last() =~= pairs0.take(done - 1));
                assert(pairs0.take(done).last() == pairs0[done - 1]);
                assert(names_before.len() == pair_names(pairs0.take(done - 1)).len());
                assert(names_sh.len() == done - 1);
                assert(names@.len() == done);
                assert(pairs0.take(done).len() == done);
                assert forall|j2: int| 0 <= j2 < names@.len() implies names.deep_view()[j2]
                    == pair_names(pairs0.take(done))[j2] by {
                    assert(pairs0.take(done)[j2] == pairs0[j2]);
                    if j2 < names_sh.len() {
                        assert(names@[j2] == names_sh[j2]);
                        assert(names_before[j2] == names_sh[j2].deep_view());
                        assert(pair_names(pairs0.take(done - 1))[j2] == pairs0.take(done - 1)[j2].0);
                        assert(pairs0.take(done - 1)[j2] == pairs0[j2]);
                    } else {
                        assert(names@[j2] == nm);
                    }
                }
                assert(names.deep_view() =~= pair_names(pairs0.take(done)));
                assert(docs@ =~= docs_map(pairs0.take(done)));
            }
        }
        proof {
            assert(pairs0.take(pairs0.len() as int) =~= pairs0);
        }
        let ghost ns = pair_names(pairs0);
        let ghost ds = docs_map(pairs0);
        // description pass
        let nn: usize = names.len();
        let mut cache_description: NameCache<String> = NameCache::new();
        let mut i: usize = 0;
        proof {
            assert(ns.take(0) =~= Seq::<Seq<char>>::empty());
            assert(cache_description@ =~= desc_map(ns.take(0), ds));
        }
        while i < nn
            invariant
                i <= nn,
                nn == names@.len(),
                names.deep_view() == ns,
                docs@ == ds,
                cache_description@ == desc_map(ns.take(i as int), ds),
            decreases nn - i,
        {
            proof {
                assert(ns.take(i as int + 1).drop_last() =~= ns.take(i as int));
                assert(ns.take(i as int + 1).last() == ns[i as int]);
            }
            let key = key_for(names[i].as_str());
            match docs.get(&key) {
                Some(d) => {
                    match &d.brief {
                        Some(b) => {
                            let mut parts: Vec<String> = Vec::new();
                            parts.push(b.clone());
                            assert(parts.deep_view() =~= seq![b@]);
                            let bc = clean_text(&parts);
                            cache_description.insert(key, bc);
                        },
                        None => {
                            assert(desc_of(ds, lower_seq(ns[i as int])) is None);
                        },
                    }
                },
                None => {
                    assert(desc_of(ds, lower_seq(ns[i as int])) is None);
                },
            }
            i = i + 1;
        }
        proof {
            assert(ns.take(nn as int) =~= ns);
        }
        // trait-flag pass
        let p1 = str_to_chars("this class is a base class");
        let p2 = str_to_chars("this class is an abstract base class");
        let mut cache_is_trait: NameCache<bool> = NameCache::new();
        let mut i2: usize = 0;
        proof {
            assert(cache_is_trait@ =~= trait_map(ns.take(0), ds));
        }
        while i2 < nn
            invariant
                i2 <= nn,
                nn == names@.len(),
                names.deep_view() == ns,
                docs@ == ds,
                p1@ == "this class is a base class"@,
                p2@ == "this class is an abstract base class"@,
                cache_description@ == desc_map(ns, ds),
                cache_is_trait@ == trait_map(ns.take(i2 as int), ds),
            decreases nn - i2,
        {
            proof {
                assert(ns.take(i2 as int + 1).drop_last() =~= ns.take(i2 as int));
                assert(ns.take(i2 as int + 1).last() == ns[i2 as int]);
            }
            let key = key_for(names[i2].as_str());
            proof {
                lemma_desc_map_props(ns, ds, key@);
                assert(lower_seq(ns[i2 as int]) == key@);
                assert(exists_key(ns, key@));
            }
            let tval = match cache_description.get(&key) {
                Some(text) => {
                    let low = lower_chars(&str_to_chars(text.as_str()));
                    contains_chars(&low, &p1) || contains_chars(&low, &p2)
                },
                None => false,
            };
            assert(tval == trait_of(ds, key@));
            cache_is_trait.insert(key, tval);
            i2 = i2 + 1;
        }
        proof {
            assert(ns.take(nn as int) =~= ns);
        }
        // parent-class pass
        let mut cache_fatherclass: NameCache<String> = NameCache::new();
        let mut i3: usize = 0;
        proof {
            assert(cache_fatherclass@ =~= father_map(ns.take(0), ds));
        }
        while i3 < nn
            invariant
                i3 <= nn,
                nn == names@.len(),
                names.deep_view() == ns,
                docs@ == ds,
                cache_fatherclass@ == father_map(ns.take(i3 as int), ds),
            decreases nn - i3,
        {
            proof {
                assert(ns.take(i3 as int + 1).drop_last() =~= ns.take(i3 as int));
                assert(ns.take(i3 as int + 1).last() == ns[i3 as int]);
            }
            let key = key_for(names[i3].as_str());
            match docs.get(&key) {
                Some(d) => {
                    if d.inherit_heads.len() > 1 {
                        proof {
                            assert(d.deep_view().inherit_heads[1] == d.inherit_heads@[1].deep_view());
                        }
                        match &d.inherit_heads[1] {
                            Some(fa) => {
                                let fc = fa.clone();
                                cache_fatherclass.insert(key, fc);
                            },
                            None => {
                                assert(father_of(ds, lower_seq(ns[i3 as int])) is None);
                            },
                        }
                    } else {
                        assert(father_of(ds, lower_seq(ns[i3 as int])) is None);
                    }
                },
                None => {
                    assert(father_of(ds, lower_seq(ns[i3 as int])) is None);
                },
            }
            i3 = i3 + 1;
        }
        proof {
            assert(ns.take(nn as int) =~= ns);
        }
        // subclass pass
        let ib = str_to_chars("inherited by");
        let mut cache_subclasses: NameCache<Vec<String>> = NameCache::new();
        let mut i4: usize = 0;
        proof {
            assert(cache_subclasses@ =~= subs_map(ns.take(0), ds));
        }
        while i4 < nn
            invariant
                i4 <= nn,
                nn == names@.len(),
                names.deep_view() == ns,
                docs@ == ds,
                ib@ == "inherited by"@,
                cache_subclasses@ == subs_map(ns.take(i4 as int), ds),
            decreases nn - i4,
        {
            proof {
                assert(ns.take(i4 as int + 1).drop_last() =~= ns.take(i4 as int));
                assert(ns.take(i4 as int + 1).last() == ns[i4 as int]);
            }
            let key = key_for(names[i4].as_str());
            match docs.get(&key) {
                Some(d) => {
                    let ghost dm = d.deep_view();
                    let np: usize = d.paragraphs.len();
                    let mut pfound: Option<usize> = None;
                    let mut pi: usize = 0;
                    while pi < np
                        invariant
                            pi <= np,
                            np == d.paragraphs@.len(),
                            dm == d.deep_view(),
                            ib@ == "inherited by"@,
                            match pfound {
                                None => forall|j: int|
                                    0 <= j < pi ==> !has_prefix(
                                        lower_seq(#[trigger] dm.paragraphs[j].text),
                                        "inherited by"@,
                                    ),
                                Some(p) => 0 <= p < np && has_prefix(
                                    lower_seq(dm.paragraphs[p as int].text),
                                    "inherited by"@,
                                ) && forall|j: int|
                                    0 <= j < p ==> !has_prefix(
                                        lower_seq(#[trigger] dm.paragraphs[j].text),
                                        "inherited by"@,
                                    ),
                            },
                        decreases np - pi,
                    {
                        if pfound.is_none() {
                            proof {
                                assert(dm.paragraphs[pi as int] == d.paragraphs@[pi as int].deep_view());
                            }
                            let low = lower_chars(&str_to_chars(d.paragraphs[pi].text.as_str()));
                            if starts_with_chars(&low, &ib) {
                                pfound = Some(pi);
                            }
                        }
                        pi = pi + 1;
                    }
                    match pfound {
                        Some(p) => {
                            proof {
                                lemma_find_inherited_found(dm.paragraphs, p as int);
                            }
                            let links_ref = &d.paragraphs[p].links;
                            let ghost linksd = dm.paragraphs[p as int].links;
                            proof {
                                assert(linksd == links_ref.deep_view());
                            }
                            let nl: usize = links_ref.len();
                            let mut subsv: Vec<String> = Vec::new();
                            let mut li: usize = 0;
                            proof {
                                assert(subsv.deep_view() =~= subs_links(linksd.take(0)));
                            }
                            while li < nl
                                invariant
                                    li <= nl,
                                    nl == links_ref@.len(),
                                    linksd == links_ref.deep_view(),
                                    subsv.deep_view() == subs_links(linksd.take(li as int)),
                                decreases nl - li,
                            {
                                proof {
                                    assert(linksd.take(li as int + 1).drop_last() =~= linksd.take(
                                        li as int,
                                    ));
                                    assert(linksd.take(li as int + 1).last() == linksd[li as int]);
                                    assert(linksd[li as int] == links_ref@[li as int]@);
                                }
                                if !Apipe::is_skip(links_ref[li].as_str()) {
                                    let c = capitalize_chars(&str_to_chars(links_ref[li].as_str()));
                                    let s = chars_to_string(&c);
                                    let ghost subs0 = subsv.deep_view();
                                    subsv.push(s);
                                    assert(subsv.deep_view() =~= subs0.push(
                                        capitalize_seq(linksd[li as int]),
                                    ));
                                }
                                li = li + 1;
                            }
                            proof {
                                assert(linksd.take(nl as int) =~= linksd);
                            }
                            cache_subclasses.insert(key, subsv);
                        },
                        None => {
                            proof {
                                lemma_find_inherited_absent(dm.paragraphs);
                                assert(subs_of(ds, lower_seq(ns[i4 as int])) is None);
                            }
                        },
                    }
                },
                None => {
                    assert(subs_of(ds, lower_seq(ns[i4 as int])) is None);
                },
            }
            i4 = i4 + 1;
        }
        proof {
            assert(ns.take(nn as int) =~= ns);
        }
        // field pass, strictly last: it reads every class's trait flag
        let mut apipe = Apipe {
            czs: names,
            cache_document: docs,
            cache_description,
            cache_is_trait,
            cache_fatherclass,
            cache_subclasses,
            cache_fields: NameCache::new(),
        };
        proof {
            assert(apipe.spec_names() == ns);
            assert(apipe.spec_docs() == ds);
            assert(apipe.cache_fields@ =~= fields_map_at(ns, ns.take(0), ds));
        }
        let nn2: usize = apipe.czs.len();
        let mut i5: usize = 0;
        while i5 < nn2
            invariant
                i5 <= nn2,
                nn2 == apipe.czs@.len(),
                apipe.spec_names() == ns,
                apipe.spec_docs() == ds,
                apipe.traits_wf(),
                apipe.cache_description@ == desc_map(ns, ds),
                apipe.cache_fatherclass@ == father_map(ns, ds),
                apipe.cache_subclasses@ == subs_map(ns, ds),
                apipe.cache_fields@ == fields_map_at(ns, ns.take(i5 as int), ds),
            decreases nn2 - i5,
        {
            proof {
                assert(ns.take(i5 as int + 1).drop_last() =~= ns.take(i5 as int));
                assert(ns.take(i5 as int + 1).last() == ns[i5 as int]);
            }
            let nm = apipe.czs[i5].clone();
            proof {
                assert(lower_seq(ns[i5 as int]) == lower_seq(nm@));
                assert(exists_key(ns, lower_seq(nm@)));
            }
            let fv = apipe.fields_for(nm.as_str());
            let key = key_for(nm.as_str());
            match fv {
                Some(v) => {
                    apipe.cache_fields.insert(key, v);
                },
                None => {},
            }
            i5 = i5 + 1;
        }
        proof {
            assert(ns.take(nn2 as int) =~= ns);
            assert forall|i: int| 0 <= i < pairs0.len() implies apipe.spec_docs().contains_key(
                lower_seq(#[trigger] pairs0[i].0),
            ) by {
                lemma_docs_map_covers(pairs0, i);
            }
        }
        apipe
    }

    /// Builds the resolver from (class name, document text) pairs: each
    /// text is parsed as an HTML fragment, read into its extraction model,
    /// and the construction passes are run over the result.
    pub fn new(czs: Vec<(String, String)>) -> (r: Apipe)
        ensures
            r.wf(),
            r.traits_wf(),
            r.spec_names() == content_names(czs.deep_view()),
            forall|i: int|
                0 <= i < czs.deep_view().len() ==> r.spec_docs().contains_key(
                    lower_seq(#[trigger] czs.deep_view()[i].0),
                ),
    {
        let ghost src0 = czs.deep_view();
        let mut rest = czs;
        let mut pairs: Vec<(String, ClassDoc)> = Vec::new();
        let ghost mut done: int = 0;
        proof {
            assert(rest.deep_view() =~= src0.skip(0));
            assert(pair_names(pairs.deep_view()) =~= content_names(src0.take(0)));
        }
        while rest.len() > 0
            invariant
                0 <= done <= src0.len(),
                rest.deep_view() == src0.skip(done),
                pair_names(pairs.deep_view()) == content_names(src0.take(done)),
            decreases rest@.len(),
        {
            let ghost rest_sh = rest@;
            let ghost rest_dv = rest.deep_view();
            let pair = rest.remove(0);
            let (nm, content) = pair;
            proof {
                assert(rest_sh.remove(0) =~= rest_sh.skip(1));
                assert(rest_dv == src0.skip(done));
                assert(rest_dv.len() > 0);
                assert(done < src0.len());
                assert(src0.skip(done)[0] == src0[done]);
                assert(rest_dv[0] == rest_sh[0].deep_view());
                assert((nm@, content@) == src0[done]);
                assert forall|jj: int| 0 <= jj < rest@.len() implies rest.deep_view()[jj]
                    == src0.skip(done + 1)[jj] by {
                    assert(rest_sh.skip(1)[jj] == rest_sh[jj + 1]);
                    assert(rest@[jj] == rest_sh[jj + 1]);
                    assert(rest_dv[jj + 1] == rest_sh[jj + 1].deep_view());
                    assert(rest_dv[jj + 1] == src0.skip(done)[jj + 1]);
                    assert(src0.skip(done)[jj + 1] == src0[done + 1 + jj]);
                    assert(src0.skip(done + 1)[jj] == src0[done + 1 + jj]);
                }
                assert(rest.deep_view() =~= src0.skip(done + 1));
            }
            let html = parse_fragment(content.as_str());
            let cd = read_class_doc(&html);
            let ghost pairs_dv = pairs.deep_view();
            let ghost pairs_sh = pairs@;
            pairs.push((nm, cd));
            proof {
                done = done + 1;
                assert(src0.take(done)[done - 1] == src0[done - 1]);
                assert(pair_names(pairs_dv).len() == content_names(src0.take(done - 1)).len());
                assert(pairs_sh.len() == done - 1);
                assert(pairs@.len() == done);
                assert(src0.take(done).len() == done);
                assert forall|j2: int| 0 <= j2 < pairs@.len() implies pair_names(
                    pairs.deep_view(),
                )[j2] == content_names(src0.take(done))[j2] by {
                    assert(src0.take(done)[j2] == src0[j2]);
                    if j2 < pairs_sh.len() {
                        assert(pairs@[j2] == pairs_sh[j2]);
                        assert(pairs_dv[j2] == pairs_sh[j2].deep_view());
                        assert(pair_names(pairs_dv)[j2] == pairs_dv[j2].0);
                        assert(content_names(src0.take(done - 1))[j2] == src0.take(done - 1)[j2].0);
                        assert(src0.take(done - 1)[j2] == src0[j2]);
                    } else {
                        assert(pairs@[j2] == (nm, cd));
                    }
                }
                assert(pair_names(pairs.deep_view()) =~= content_names(src0.take(done)));
            }
        }
        proof {
            assert(src0.take(src0.len() as int) =~= src0);
        }
        let r = Apipe::from_docs(pairs);
        proof {
            assert forall|i: int| 0 <= i < src0.len() implies r.spec_docs().contains_key(
                lower_seq(#[trigger] src0[i].0),
            ) by {
                let pd = pairs.deep_view();
                assert(pair_names(pd).len() == content_names(src0).len());
                assert(pair_names(pd)[i] == pd[i].0);
                assert(content_names(src0)[i] == src0[i].0);
                assert(r.spec_docs().contains_key(lower_seq(pd[i].0)));
            }
        }
        r
    }
}

/// Class-name lookup is case-insensitive: two names that agree after ASCII
/// case folding receive the same answer from every accessor, whose
/// contracts are stated over these models.
pub proof fn lemma_lookup_case_insensitive(
    ns: Seq<Seq<char>>,
    ds: Map<Seq<char>, ClassDocModel>,
    n1: Seq<char>,
    n2: Seq<char>,
)
    requires
        lower_seq(n1) == lower_seq(n2),
    ensures
        exists_model(ns, n1) == exists_model(ns, n2),
        is_trait_model(ns, ds, n1) == is_trait_model(ns, ds, n2),
        description_model(ns, ds, n1) == description_model(ns, ds, n2),
        father_model(ns, ds, n1) == father_model(ns, ds, n2),
        subs_model(ns, ds, n1) == subs_model(ns, ds, n2),
        fields_model(ns, ds, n1) == fields_model(ns, ds, n2),
{
}

/// A subclass list holds no documentation artifact: every entry is the
/// capitalization of some inherited-by link that the skip predicate
/// admits, and skip-listed links contribute nothing.
pub proof fn lemma_subclasses_filtered(links: Seq<Seq<char>>)
    ensures
        forall|i: int|
            0 <= i < subs_links(links).len() ==> exists|j: int|
                0 <= j < links.len() && !is_skip_model(#[trigger] links[j]) && #[trigger] subs_links(
                    links,
                )[i] == capitalize_seq(links[j]),
    decreases links.len(),
{
    if links.len() > 0 {
        lemma_subclasses_filtered(links.drop_last());
        let prev = subs_links(links.drop_last());
        assert forall|i: int| 0 <= i < subs_links(links).len() implies exists|j: int|
            0 <= j < links.len() && !is_skip_model(#[trigger] links[j]) && #[trigger] subs_links(
                links,
            )[i] == capitalize_seq(links[j]) by {
            if i < prev.len() {
                let j = choose|j: int|
                    0 <= j < links.drop_last().len() && !is_skip_model(
                        #[trigger] links.drop_last()[j],
                    ) && prev[i] == capitalize_seq(links.drop_last()[j]);
                assert(links.drop_last()[j] == links[j]);
                assert(!is_skip_model(links[j]) && subs_links(links)[i] == capitalize_seq(
                    links[j],
                ));
            } else {
                assert(!is_skip_model(links[links.len() - 1]) && subs_links(links)[i]
                    == capitalize_seq(links[links.len() - 1]));
            }
        }
    }
}

/// The trait flag follows the description: a class with no description is
/// never a trait, and one with a description is a trait exactly when the
/// case-folded text contains one of the two abstract-base marker phrases.
pub proof fn lemma_trait_flag_from_description(
    ns: Seq<Seq<char>>,
    ds: Map<Seq<char>, ClassDocModel>,
    q: Seq<char>,
)
    ensures
        match description_model(ns, ds, q) {
            None => !is_trait_model(ns, ds, q),
            Some(d) => is_trait_model(ns, ds, q) == trait_phrase(d),
        },
{
}

/// Construction is deterministic: two resolvers whose class lists and
/// document caches agree give every query the same specified answer, so
/// building twice from identical inputs yields identical results.
pub proof fn lemma_resolver_deterministic(a: &Apipe, b: &Apipe, q: Seq<char>)
    requires
        a.spec_names() == b.spec_names(),
        a.spec_docs() == b.spec_docs(),
    ensures
        keep_names(a.spec_names()) == keep_names(b.spec_names()),
        exists_model(a.spec_names(), q) == exists_model(b.spec_names(), q),
        is_trait_model(a.spec_names(), a.spec_docs(), q) == is_trait_model(
            b.spec_names(),
            b.spec_docs(),
            q,
        ),
        description_model(a.spec_names(), a.spec_docs(), q) == description_model(
            b.spec_names(),
            b.spec_docs(),
            q,
        ),
        father_model(a.spec_names(), a.spec_docs(), q) == father_model(
            b.spec_names(),
            b.spec_docs(),
            q,
        ),
        subs_model(a.spec_names(), a.spec_docs(), q) == subs_model(
            b.spec_names(),
            b.spec_docs(),
            q,
        ),
        fields_model(a.spec_names(), a.spec_docs(), q) == fields_model(
            b.spec_names(),
            b.spec_docs(),
            q,
        ),
{
}

/// Reads the plain extraction model of one parsed class document: exactly
/// the selections and text reads the construction passes depend on.
pub fn read_class_doc(doc: &scraper::Html) -> ClassDoc {
    let tbs = select_in_doc(doc, ".textblock");
    let brief: Option<String> = if tbs.len() > 0 {
        let parts = text_parts(&tbs[0]);
        if parts.len() > 0 {
            Some(parts[0].clone())
        } else {
            None
        }
    } else {
        None
    };
    let els = select_in_doc(doc, ".el");
    let mut inherit_heads: Vec<Option<String>> = Vec::new();
    let mut i: usize = 0;
    while i < els.len()
        decreases els@.len() - i,
    {
        let parts = text_parts(&els[i]);
        if parts.len() > 0 {
            inherit_heads.push(Some(parts[0].clone()));
        } else {
            inherit_heads.push(None);
        }
        i = i + 1;
    }
    let ps = select_in_doc(doc, ".contents p");
    let mut paragraphs: Vec<DocParagraph> = Vec::new();
    let mut j: usize = 0;
    while j < ps.len()
        decreases ps@.len() - j,
    {
        let text = clean_text(&text_parts(&ps[j]));
        let subs = select_in_element(&ps[j], ".el");
        let mut links: Vec<String> = Vec::new();
        let mut k: usize = 0;
        while k < subs.len()
            decreases subs@.len() - k,
        {
            links.push(clean_text(&text_parts(&subs[k])));
            k = k + 1;
        }
        paragraphs.push(DocParagraph { text, links });
        j = j + 1;
    }
    let ms = select_in_doc(doc, ".memberdecls");
    let mut blocks: Vec<DocBlock> = Vec::new();
    let mut b: usize = 0;
    while b < ms.len()
        decreases ms@.len() - b,
    {
        let hs = select_in_element(&ms[b], ".heading");
        let heading: Option<String> = if hs.len() > 0 {
            let hparts = text_parts(&hs[0]);
            if hparts.len() > 0 {
                Some(hparts[0].clone())
            } else {
                None
            }
        } else {
            None
        };
        let trs = select_in_element(&ms[b], "tr");
        let mut rows: Vec<DocRow> = Vec::new();
        let mut t: usize = 0;
        while t < trs.len()
            decreases trs@.len() - t,
        {
            let kind = attr_of(&trs[t], "class");
            let left = rule_text(&trs[t], ".memItemLeft");
            let right = rule_text(&trs[t], ".memItemRight");
            let desc = rule_text(&trs[t], ".mdescRight");
            rows.push(DocRow { kind, left, right, desc });
            t = t + 1;
        }
        blocks.push(DocBlock { heading, rows });
        b = b + 1;
    }
    ClassDoc { brief, inherit_heads, paragraphs, blocks }
}

/// Concatenated text of every element matching `rule` inside `ele`,
/// assembled as one piece of element text.
fn rule_text(ele: &scraper::ElementRef<'_>, rule: &str) -> String {
    let subs = select_in_element(ele, rule);
    let mut parts: Vec<String> = Vec::new();
    let mut i: usize = 0;
    while i < subs.len()
        decreases subs@.len() - i,
    {
        let ps = text_parts(&subs[i]);
        let mut j: usize = 0;
        while j < ps.len()
            decreases ps@.len() - j,
        {
            parts.push(ps[j].clone());
            j = j + 1;
        }
        i = i + 1;
    }
    clean_text(&parts)
}

} // verus!
