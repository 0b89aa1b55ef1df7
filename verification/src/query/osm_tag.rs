//! OSM tag filtering: parses `osm_tag` tokens into an include / exclude /
//! exclude-value tri-state and assembles the filters into a boolean
//! sub-query.
//!
//! A token is trimmed first. Without a colon, a leading `!` excludes the key,
//! otherwise the whole token is an included key. With a colon, the token
//! splits once into a key and a value half; a leading `!` on a half marks it
//! excluded, every `!` is stripped from both halves, and empty halves become
//! absent. Only a `!` on the value half alone, with both halves non-empty,
//! yields the exclude-value form.

use crate::query::tree::BoolNode;
use crate::query::tree::QueryTree;
use crate::text::chars_to_string;
use crate::text::contains_char;
use crate::text::lemma_find_char;
use crate::text::spec_find_char;
use crate::text::subvec;
use crate::text::str_to_chars;
use vstd::prelude::*;

verus! {

/// The four filter kinds a token can denote.
pub enum OsmTagFilterType {
    Include,
    Exclude,
    ExcludeValue,
    NoFilter,
}

/// A parsed `osm_tag` token.
pub struct OsmTagFilter {
    pub filter_type: OsmTagFilterType,
    pub key: Option<String>,
    pub value: Option<String>,
}

/// The mathematical shape of a parsed token: the kind and the halves as
/// character sequences.
pub struct OsmTagFilterView {
    pub filter_type: OsmTagFilterType,
    pub key: Option<Seq<char>>,
    pub value: Option<Seq<char>>,
}

impl View for OsmTagFilter {
    type V = OsmTagFilterView;

    open spec fn view(&self) -> OsmTagFilterView {
        OsmTagFilterView {
            filter_type: self.filter_type,
            key: self.key.deep_view(),
            value: self.value.deep_view(),
        }
    }
}

/// The whitespace characters that trimming removes.
pub open spec fn is_space(c: char) -> bool {
    c == ' ' || c == '\t' || c == '\n' || c == '\r'
}

/// The sequence without its leading whitespace.
pub open spec fn spec_trim_start(s: Seq<char>) -> Seq<char>
    decreases s.len(),
{
    if s.len() > 0 && is_space(s[0]) {
        spec_trim_start(s.drop_first())
    } else {
        s
    }
}

/// The sequence without its trailing whitespace.
pub open spec fn spec_trim_end(s: Seq<char>) -> Seq<char>
    decreases s.len(),
{
    if s.len() > 0 && is_space(s.last()) {
        spec_trim_end(s.drop_last())
    } else {
        s
    }
}

/// The sequence without leading and trailing whitespace.
pub open spec fn spec_trim(s: Seq<char>) -> Seq<char> {
    spec_trim_end(spec_trim_start(s))
}




/// The sequence with every occurrence of `c` removed.
pub open spec fn remove_all_char(s: Seq<char>, c: char) -> Seq<char>
    decreases s.len(),
{
    if s.len() == 0 {
        s
    } else if s[0] == c {
        remove_all_char(s.drop_first(), c)
    } else {
        seq![s[0]] + remove_all_char(s.drop_first(), c)
    }
}

/// The parse of one trimmed-and-split token, exactly as the module doc
/// states the rules.
pub open spec fn spec_parse_osm_tag(token: Seq<char>) -> OsmTagFilterView {
    let f = spec_trim(token);
    if !contains_char(f, ':') {
        if f.len() > 0 && f[0] == '!' {
            OsmTagFilterView {
                filter_type: OsmTagFilterType::Exclude,
                key: Some(f.drop_first()),
                value: None,
            }
        } else {
            OsmTagFilterView { filter_type: OsmTagFilterType::Include, key: Some(f), value: None }
        }
    } else {
        let ci = spec_find_char(f, ':');
        let rawkey = spec_trim(f.subrange(0, ci));
        let rawval = spec_trim(f.subrange(ci + 1, f.len() as int));
        let exclude_key = rawkey.len() > 0 && rawkey[0] == '!';
        let exclude_val = rawval.len() > 0 && rawval[0] == '!';
        let key = remove_all_char(rawkey, '!');
        let val = remove_all_char(rawval, '!');
        if exclude_val && !(key.len() == 0 || val.len() == 0 || exclude_key) {
            OsmTagFilterView {
                filter_type: OsmTagFilterType::ExcludeValue,
                key: Some(key),
                value: Some(val),
            }
        } else {
            OsmTagFilterView {
                filter_type: if exclude_key {
                    OsmTagFilterType::Exclude
                } else {
                    OsmTagFilterType::Include
                },
                key: if key.len() == 0 {
                    None
                } else {
                    Some(key)
                },
                value: if val.len() == 0 {
                    None
                } else {
                    Some(val)
                },
            }
        }
    }
}

fn is_space_char(c: char) -> (r: bool)
    ensures
        r == is_space(c),
{
    c == ' ' || c == '\t' || c == '\n' || c == '\r'
}

fn trim_chars(v: Vec<char>) -> (r: Vec<char>)
    ensures
        r@ == spec_trim(v@),
{
    let ghost orig = v@;
    let mut v = v;
    while v.len() > 0 && is_space_char(v[0])
        invariant
            spec_trim_start(orig) == spec_trim_start(v@),
        decreases v@.len(),
    {
        let ghost before = v@;
        let _ = v.remove(0);
        proof {
            assert(v@ =~= before.drop_first());
        }
    }
    proof {
        assert(spec_trim_start(orig) == v@);
    }
    while v.len() > 0 && is_space_char(v[v.len() - 1])
        invariant
            v@.len() > 0 ==> !is_space(v@[0]),
            spec_trim_end(spec_trim_start(orig)) == spec_trim_end(v@),
        decreases v@.len(),
    {
        let ghost before = v@;
        let _ = v.pop();
        proof {
            assert(v@ =~= before.drop_last());
        }
    }
    proof {
        assert(spec_trim(orig) == v@);
    }
    v
}

fn find_char(v: &Vec<char>, c: char) -> (r: usize)
    ensures
        r == spec_find_char(v@, c),
{
    let mut i: usize = 0;
    while i < v.len()
        invariant
            i <= v@.len(),
            forall|k: int| 0 <= k < i ==> v@[k] != c,
        decreases v@.len() - i,
    {
        if v[i] == c {
            proof {
                lemma_find_char(v@, c);
                let f = spec_find_char(v@, c);
                if f < i {
                    assert(v@[f] != c);
                }
                assert(f == i);
            }
            return i;
        }
        i = i + 1;
    }
    proof {
        lemma_find_char(v@, c);
        if spec_find_char(v@, c) < v@.len() {
            assert(v@[spec_find_char(v@, c)] != c);
        }
    }
    v.len()
}


fn remove_all_chars(v: &Vec<char>, c: char) -> (r: Vec<char>)
    ensures
        r@ == remove_all_char(v@, c),
{
    let mut r: Vec<char> = Vec::new();
    proof {
        assert(v@.subrange(0, v@.len() as int) =~= v@);
        assert(r@ + remove_all_char(v@, c) =~= remove_all_char(v@, c));
    }
    let mut i: usize = 0;
    while i < v.len()
        invariant
            i <= v@.len(),
            remove_all_char(v@, c) == r@ + remove_all_char(v@.subrange(i as int, v@.len() as int), c),
        decreases v@.len() - i,
    {
        proof {
            let tail = v@.subrange(i as int, v@.len() as int);
            assert(tail.len() > 0 && tail[0] == v@[i as int]);
            assert(tail.drop_first() =~= v@.subrange(i + 1 as int, v@.len() as int));
            if v@[i as int] == c {
                assert(remove_all_char(tail, c) == remove_all_char(tail.drop_first(), c));
            } else {
                assert(remove_all_char(tail, c) == seq![tail[0]] + remove_all_char(
                    tail.drop_first(),
                    c,
                ));
            }
        }
        if v[i] != c {
            r.push(v[i]);
        }
        i = i + 1;
    }
    proof {
        assert(v@.subrange(v@.len() as int, v@.len() as int).len() == 0);
        assert(r@ =~= remove_all_char(v@, c));
    }
    r
}

impl OsmTagFilter {
    /// Parses one `osm_tag` token, as the module doc states the rules.
    pub fn from(value: String) -> (r: OsmTagFilter)
        ensures
            r@ == spec_parse_osm_tag(value@),
    {
        let chars = str_to_chars(value.as_str());
        let f = trim_chars(chars);
        let colon = find_char(&f, ':');
        proof {
            lemma_find_char(f@, ':');
        }
        if colon == f.len() {
            if f.len() > 0 && f[0] == '!' {
                let key = subvec(&f, 1, f.len());
                proof {
                    assert(key@ =~= f@.drop_first());
                }
                return OsmTagFilter {
                    filter_type: OsmTagFilterType::Exclude,
                    key: Some(chars_to_string(&key)),
                    value: None,
                };
            }
            return OsmTagFilter {
                filter_type: OsmTagFilterType::Include,
                key: Some(chars_to_string(&f)),
                value: None,
            };
        }
        let rawkey = trim_chars(subvec(&f, 0, colon));
        let rawval = trim_chars(subvec(&f, colon + 1, f.len()));
        let exclude_key = rawkey.len() > 0 && rawkey[0] == '!';
        let exclude_val = rawval.len() > 0 && rawval[0] == '!';
        let key = remove_all_chars(&rawkey, '!');
        let val = remove_all_chars(&rawval, '!');
        if exclude_val && !(key.len() == 0 || val.len() == 0 || exclude_key) {
            return OsmTagFilter {
                filter_type: OsmTagFilterType::ExcludeValue,
                key: Some(chars_to_string(&key)),
                value: Some(chars_to_string(&val)),
            };
        }
        OsmTagFilter {
            filter_type: if exclude_key {
                OsmTagFilterType::Exclude
            } else {
                OsmTagFilterType::Include
            },
            key: if key.len() == 0 {
                None
            } else {
                Some(chars_to_string(&key))
            },
            value: if val.len() == 0 {
                None
            } else {
                Some(chars_to_string(&val))
            },
        }
    }
}

/// One disjunct of the assembled tag filter.
pub enum TagClause {
    KeyOnly(Seq<char>),
    ValueOnly(Seq<char>),
    KeyValue(Seq<char>, Seq<char>),
    KeyNotValue(Seq<char>, Seq<char>),
}

/// A token counts only when some character is neither `!` nor `:`.
pub open spec fn token_significant(t: Seq<char>) -> bool {
    exists|i: int| 0 <= i < t.len() && t[i] != '!' && t[i] != ':'
}

/// The clause a one-sided or two-sided filter contributes to side `exclude`.
pub open spec fn spec_side_clause(exclude: bool, f: OsmTagFilterView) -> Option<(bool, TagClause)> {
    match (f.key, f.value) {
        (Some(k), Some(v)) => Some((exclude, TagClause::KeyValue(k, v))),
        (Some(k), None) => Some((exclude, TagClause::KeyOnly(k))),
        (None, Some(v)) => Some((exclude, TagClause::ValueOnly(v))),
        (None, None) => None,
    }
}

/// The clause a parsed filter contributes, and whether it goes to the
/// exclude side; `None` when it contributes nothing.
pub open spec fn spec_clause_of(f: OsmTagFilterView) -> Option<(bool, TagClause)> {
    if f.key is None && f.value is None {
        None
    } else {
        match f.filter_type {
            OsmTagFilterType::NoFilter => None,
            OsmTagFilterType::ExcludeValue => match (f.key, f.value) {
                (Some(k), Some(v)) => Some((true, TagClause::KeyNotValue(k, v))),
                _ => None,
            },
            OsmTagFilterType::Include => spec_side_clause(false, f),
            OsmTagFilterType::Exclude => spec_side_clause(true, f),
        }
    }
}

/// The include and exclude disjunctions that a token list assembles to, as a
/// fold over the list: each significant token's parse contributes its clause.
pub open spec fn spec_tag_clauses(tokens: Seq<Seq<char>>) -> (Seq<TagClause>, Seq<TagClause>)
    decreases tokens.len(),
{
    if tokens.len() == 0 {
        (Seq::<TagClause>::empty(), Seq::<TagClause>::empty())
    } else {
        let rest = spec_tag_clauses(tokens.drop_last());
        let t = tokens.last();
        if !token_significant(t) {
            rest
        } else {
            match spec_clause_of(spec_parse_osm_tag(t)) {
                Option::None => rest,
                Option::Some((exclude, c)) => if exclude {
                    (rest.0, rest.1.push(c))
                } else {
                    (rest.0.push(c), rest.1)
                },
            }
        }
    }
}

/// An exact term over one field.
pub open spec fn is_term(t: QueryTree, field: Seq<char>, value: Seq<char>) -> bool {
    &&& t matches QueryTree::Term { field: f, value: v }
    &&& f@ == field
    &&& v@ == value
}

/// The query that realizes one clause: a bare term for one-sided filters, a
/// conjunction of both terms for two-sided ones, and a key term with the
/// value term negated for the exclude-value form.
pub open spec fn is_tag_clause(t: QueryTree, c: TagClause) -> bool {
    match c {
        TagClause::KeyOnly(k) => is_term(t, "osm_key"@, k),
        TagClause::ValueOnly(v) => is_term(t, "osm_value"@, v),
        TagClause::KeyValue(k, v) => {
            &&& t matches QueryTree::Bool(b)
            &&& b.must@.len() == 2
            &&& is_term(b.must@[0], "osm_key"@, k)
            &&& is_term(b.must@[1], "osm_value"@, v)
            &&& b.should@.len() == 0
            &&& b.must_not@.len() == 0
            &&& b.filter@.len() == 0
            &&& b.minimum_should_match is None
        },
        TagClause::KeyNotValue(k, v) => {
            &&& t matches QueryTree::Bool(b)
            &&& b.must@.len() == 1
            &&& is_term(b.must@[0], "osm_key"@, k)
            &&& b.must_not@.len() == 1
            &&& is_term(b.must_not@[0], "osm_value"@, v)
            &&& b.should@.len() == 0
            &&& b.filter@.len() == 0
            &&& b.minimum_should_match is None
        },
    }
}

/// Every query realizes its clause, in order.
pub open spec fn clauses_match(qs: Seq<QueryTree>, cs: Seq<TagClause>) -> bool {
    &&& qs.len() == cs.len()
    &&& forall|i: int| 0 <= i < qs.len() ==> is_tag_clause(qs[i], cs[i])
}

/// A disjunction holding exactly the clauses `cs` as `should` members.
pub open spec fn is_should_group(t: QueryTree, cs: Seq<TagClause>) -> bool {
    &&& t matches QueryTree::Bool(b)
    &&& b.must@.len() == 0
    &&& b.must_not@.len() == 0
    &&& b.filter@.len() == 0
    &&& b.minimum_should_match is None
    &&& clauses_match(b.should@, cs)
}

/// The assembled tag filter for `tokens`: the include disjunction as a `must`
/// member and the exclude disjunction as a `must_not` member, each side
/// omitted when it has no clauses.
pub open spec fn is_osm_tag_filter_query(t: QueryTree, tokens: Seq<Seq<char>>) -> bool {
    let inc = spec_tag_clauses(tokens).0;
    let exc = spec_tag_clauses(tokens).1;
    &&& t matches QueryTree::Bool(b)
    &&& b.should@.len() == 0
    &&& b.filter@.len() == 0
    &&& b.minimum_should_match is None
    &&& if inc.len() > 0 {
        b.must@.len() == 1 && is_should_group(b.must@[0], inc)
    } else {
        b.must@.len() == 0
    }
    &&& if exc.len() > 0 {
        b.must_not@.len() == 1 && is_should_group(b.must_not@[0], exc)
    } else {
        b.must_not@.len() == 0
    }
}

fn token_is_significant(token: &String) -> (r: bool)
    ensures
        r == token_significant(token@),
{
    let s = token.as_str();
    let n = s.unicode_len();
    let mut i: usize = 0;
    while i < n
        invariant
            i <= n,
            n == s@.len(),
            s@ == token@,
            forall|k: int| 0 <= k < i ==> !(s@[k] != '!' && s@[k] != ':'),
        decreases n - i,
    {
        let c = s.get_char(i);
        if c != '!' && c != ':' {
            return true;
        }
        i = i + 1;
    }
    false
}

fn term_query(field: &str, value: String) -> (t: QueryTree)
    ensures
        is_term(t, field@, value@),
{
    QueryTree::Term { field: String::from_str(field), value }
}

/// Assembles the boolean tag filter from the raw tokens, or `None` when no
/// token contributes a clause.
pub fn build_osm_tag_filter_query(filter_strings: &Vec<String>) -> (r: Option<QueryTree>)
    ensures
        match r {
            Option::None => {
                &&& spec_tag_clauses(filter_strings.deep_view()).0.len() == 0
                &&& spec_tag_clauses(filter_strings.deep_view()).1.len() == 0
            },
            Option::Some(t) => {
                &&& is_osm_tag_filter_query(t, filter_strings.deep_view())
                &&& spec_tag_clauses(filter_strings.deep_view()).0.len() > 0 || spec_tag_clauses(
                    filter_strings.deep_view(),
                ).1.len() > 0
            },
        },
{
    let ghost toks = filter_strings.deep_view();
    let mut include_clauses: Vec<QueryTree> = Vec::new();
    let mut exclude_clauses: Vec<QueryTree> = Vec::new();
    proof {
        assert(toks.subrange(0, 0) =~= Seq::<Seq<char>>::empty());
    }
    let mut i: usize = 0;
    while i < filter_strings.len()
        invariant
            i <= filter_strings@.len(),
            toks == filter_strings.deep_view(),
            toks.len() == filter_strings@.len(),
            forall|k: int| 0 <= k < toks.len() ==> toks[k] == filter_strings@[k]@,
            clauses_match(include_clauses@, spec_tag_clauses(toks.subrange(0, i as int)).0),
            clauses_match(exclude_clauses@, spec_tag_clauses(toks.subrange(0, i as int)).1),
        decreases filter_strings@.len() - i,
    {
        let ghost prefix = toks.subrange(0, i as int);
        let ghost prefix1 = toks.subrange(0, i + 1 as int);
        proof {
            assert(prefix1.drop_last() =~= prefix);
            assert(prefix1.last() == toks[i as int]);
        }
        let token = &filter_strings[i];
        if token_is_significant(token) {
            let filter = OsmTagFilter::from(token.clone());
            let ghost fv = spec_parse_osm_tag(toks[i as int]);
            match (filter.filter_type, filter.key, filter.value) {
                (OsmTagFilterType::ExcludeValue, Some(k), Some(v)) => {
                    let mut inner = crate::query::tree::empty_bool();
                    inner.must.push(term_query("osm_key", k));
                    inner.must_not.push(term_query("osm_value", v));
                    exclude_clauses.push(QueryTree::Bool(inner));
                },
                (OsmTagFilterType::Include, Some(k), Some(v)) => {
                    let mut inner = crate::query::tree::empty_bool();
                    inner.must.push(term_query("osm_key", k));
                    inner.must.push(term_query("osm_value", v));
                    include_clauses.push(QueryTree::Bool(inner));
                },
                (OsmTagFilterType::Exclude, Some(k), Some(v)) => {
                    let mut inner = crate::query::tree::empty_bool();
                    inner.must.push(term_query("osm_key", k));
                    inner.must.push(term_query("osm_value", v));
                    exclude_clauses.push(QueryTree::Bool(inner));
                },
                (OsmTagFilterType::Include, Some(k), None) => {
                    include_clauses.push(term_query("osm_key", k));
                },
                (OsmTagFilterType::Include, None, Some(v)) => {
                    include_clauses.push(term_query("osm_value", v));
                },
                (OsmTagFilterType::Exclude, Some(k), None) => {
                    exclude_clauses.push(term_query("osm_key", k));
                },
                (OsmTagFilterType::Exclude, None, Some(v)) => {
                    exclude_clauses.push(term_query("osm_value", v));
                },
                _ => {},
            }
        }
        proof {
            assert(clauses_match(include_clauses@, spec_tag_clauses(prefix1).0));
            assert(clauses_match(exclude_clauses@, spec_tag_clauses(prefix1).1));
        }
        i = i + 1;
    }
    proof {
        assert(toks.subrange(0, toks.len() as int) =~= toks);
    }
    let has_include = include_clauses.len() > 0;
    let has_exclude = exclude_clauses.len() > 0;
    if !has_include && !has_exclude {
        return None;
    }
    let mut outer = crate::query::tree::empty_bool();
    if has_include {
        let mut group = crate::query::tree::empty_bool();
        group.should = include_clauses;
        outer.must.push(QueryTree::Bool(group));
    }
    if has_exclude {
        let mut group = crate::query::tree::empty_bool();
        group.should = exclude_clauses;
        outer.must_not.push(QueryTree::Bool(group));
    }
    Some(QueryTree::Bool(outer))
}

/// Appends the assembled tag filter to the boolean node's `filter` clauses
/// when the tokens contribute anything; otherwise leaves the node unchanged.
pub fn add_osm_tag_filter(filters: &Option<Vec<String>>, query: BoolNode) -> (r: BoolNode)
    ensures
        r.must@ == query.must@,
        r.should@ == query.should@,
        r.must_not@ == query.must_not@,
        r.minimum_should_match == query.minimum_should_match,
        match filters {
            Option::None => r.filter@ == query.filter@,
            Option::Some(fs) => {
                if spec_tag_clauses(fs.deep_view()).0.len() == 0 && spec_tag_clauses(
                    fs.deep_view(),
                ).1.len() == 0 {
                    r.filter@ == query.filter@
                } else {
                    r.filter@.len() == query.filter@.len() + 1 && r.filter@.subrange(
                        0,
                        query.filter@.len() as int,
                    ) == query.filter@ && is_osm_tag_filter_query(
                        r.filter@.last(),
                        fs.deep_view(),
                    )
                }
            },
        },
{
    match filters {
        Some(fs) => {
            match build_osm_tag_filter_query(fs) {
                Some(osm_tag_query) => {
                    let mut r = query;
                    r.filter.push(osm_tag_query);
                    proof {
                        assert(r.filter@.subrange(0, r.filter@.len() - 1) =~= query.filter@);
                    }
                    r
                },
                None => query,
            }
        },
        None => query,
    }
}

/// The halves of a printed token: the key, a colon and the value, either
/// half dropped when absent.
pub open spec fn spec_emit_halves(key: Option<Seq<char>>, value: Option<Seq<char>>) -> Seq<char> {
    match (key, value) {
        (Some(k), Some(v)) => k + seq![':'] + v,
        (Some(k), None) => k,
        (None, Some(v)) => seq![':'] + v,
        (None, None) => Seq::<char>::empty(),
    }
}

/// The token a filter prints back to: the halves joined by a colon, a
/// leading `!` for the exclude kind, and `!` on the value half for the
/// exclude-value kind.
pub open spec fn spec_emit_osm_tag(f: OsmTagFilterView) -> Seq<char> {
    match f.filter_type {
        OsmTagFilterType::NoFilter => Seq::<char>::empty(),
        OsmTagFilterType::Include => spec_emit_halves(f.key, f.value),
        OsmTagFilterType::Exclude => seq!['!'] + spec_emit_halves(f.key, f.value),
        OsmTagFilterType::ExcludeValue => match (f.key, f.value) {
            (Some(k), Some(v)) => k + seq![':', '!'] + v,
            _ => Seq::<char>::empty(),
        },
    }
}

fn push_halves(out: &mut Vec<char>, key: &Option<String>, value: &Option<String>)
    ensures
        final(out)@ == old(out)@ + spec_emit_halves(key.deep_view(), value.deep_view()),
{
    let ghost base = out@;
    match (key, value) {
        (Some(k), Some(v)) => {
            crate::text::push_str_chars(out, k.as_str());
            out.push(':');
            crate::text::push_str_chars(out, v.as_str());
            proof {
                assert(out@ =~= base + (k@ + seq![':'] + v@));
            }
        },
        (Some(k), None) => {
            crate::text::push_str_chars(out, k.as_str());
        },
        (None, Some(v)) => {
            out.push(':');
            crate::text::push_str_chars(out, v.as_str());
            proof {
                assert(out@ =~= base + (seq![':'] + v@));
            }
        },
        (None, None) => {
            proof {
                assert(out@ =~= base + Seq::<char>::empty());
            }
        },
    }
}

impl OsmTagFilter {
    /// Prints the filter back to one token, inverting the parse for filters
    /// whose halves the parse itself produced.
    pub fn emit(&self) -> (r: String)
        ensures
            r@ == spec_emit_osm_tag(self@),
    {
        let mut out: Vec<char> = Vec::new();
        match self.filter_type {
            OsmTagFilterType::NoFilter => {},
            OsmTagFilterType::Include => {
                push_halves(&mut out, &self.key, &self.value);
            },
            OsmTagFilterType::Exclude => {
                out.push('!');
                let ghost base = out@;
                push_halves(&mut out, &self.key, &self.value);
                proof {
                    assert(out@ =~= seq!['!'] + spec_emit_halves(
                        self.key.deep_view(),
                        self.value.deep_view(),
                    ));
                }
            },
            OsmTagFilterType::ExcludeValue => {
                match (&self.key, &self.value) {
                    (Some(k), Some(v)) => {
                        crate::text::push_str_chars(&mut out, k.as_str());
                        out.push(':');
                        out.push('!');
                        crate::text::push_str_chars(&mut out, v.as_str());
                        proof {
                            assert(out@ =~= k@ + seq![':', '!'] + v@);
                        }
                    },
                    _ => {},
                }
            },
        }
        chars_to_string(&out)
    }
}

/// A key half as the parse leaves it: non-empty, trimmed at both ends, and
/// free of `!` and `:`.
pub open spec fn clean_key(s: Seq<char>) -> bool {
    &&& s.len() > 0
    &&& !is_space(s[0])
    &&& !is_space(s.last())
    &&& !contains_char(s, '!')
    &&& !contains_char(s, ':')
}

/// A value half as the parse leaves it: non-empty, trimmed at both ends and
/// free of `!`; later colons may remain.
pub open spec fn clean_value(s: Seq<char>) -> bool {
    &&& s.len() > 0
    &&& !is_space(s[0])
    &&& !is_space(s.last())
    &&& !contains_char(s, '!')
}

/// A bare key of a colon-free token: non-empty, trimmed, without `:` and
/// without a leading `!`; for the exclude kind the leading `!` was consumed,
/// so inner `!` may remain.
pub open spec fn clean_bare_key(s: Seq<char>) -> bool {
    &&& s.len() > 0
    &&& !is_space(s[0])
    &&& !is_space(s.last())
    &&& !contains_char(s, ':')
}

/// The filters whose printed token parses back to the very same filter: the
/// halves are as the parse leaves them.
pub open spec fn emit_roundtrips(f: OsmTagFilterView) -> bool {
    match f.filter_type {
        OsmTagFilterType::NoFilter => false,
        OsmTagFilterType::ExcludeValue => {
            &&& f.key matches Some(k) && clean_key(k)
            &&& f.value matches Some(v) && clean_value(v)
        },
        OsmTagFilterType::Include => match (f.key, f.value) {
            (Some(k), Some(v)) => clean_key(k) && clean_value(v),
            (Some(k), None) => clean_bare_key(k) && k[0] != '!',
            (None, Some(v)) => clean_value(v),
            (None, None) => false,
        },
        OsmTagFilterType::Exclude => match (f.key, f.value) {
            (Some(k), Some(v)) => clean_key(k) && clean_value(v),
            (Some(k), None) => clean_bare_key(k),
            (None, Some(v)) => clean_value(v),
            (None, None) => false,
        },
    }
}

proof fn lemma_trim_noop(s: Seq<char>)
    requires
        s.len() == 0 || (!is_space(s[0]) && !is_space(s.last())),
    ensures
        spec_trim(s) == s,
{
    assert(spec_trim_start(s) == s);
    assert(spec_trim_end(s) == s);
}

proof fn lemma_remove_all_absent(s: Seq<char>, c: char)
    requires
        !contains_char(s, c),
    ensures
        remove_all_char(s, c) == s,
    decreases s.len(),
{
    if s.len() > 0 {
        assert(s[0] != c);
        assert(!contains_char(s.drop_first(), c)) by {
            if contains_char(s.drop_first(), c) {
                let w = choose|i: int|
                    0 <= i < s.drop_first().len() && s.drop_first()[i] == c;
                assert(s[w + 1] == c);
            }
        }
        lemma_remove_all_absent(s.drop_first(), c);
        assert(seq![s[0]] + s.drop_first() =~= s);
    }
}

proof fn lemma_remove_all_concat(a: Seq<char>, b: Seq<char>, c: char)
    ensures
        remove_all_char(a + b, c) == remove_all_char(a, c) + remove_all_char(b, c),
    decreases a.len(),
{
    if a.len() == 0 {
        assert(a + b =~= b);
        assert(remove_all_char(a, c) + remove_all_char(b, c) =~= remove_all_char(b, c));
    } else {
        assert((a + b).len() > 0);
        assert((a + b)[0] == a[0]);
        assert((a + b).drop_first() =~= a.drop_first() + b);
        lemma_remove_all_concat(a.drop_first(), b, c);
        if a[0] == c {
        } else {
            assert(seq![a[0]] + (remove_all_char(a.drop_first(), c) + remove_all_char(b, c))
                =~= (seq![a[0]] + remove_all_char(a.drop_first(), c)) + remove_all_char(b, c));
        }
    }
}

proof fn lemma_remove_all_bang_of_bang()
    ensures
        remove_all_char(seq!['!'], '!') == Seq::<char>::empty(),
{
    let s = seq!['!'];
    assert(s.drop_first() =~= Seq::<char>::empty());
    assert(remove_all_char(Seq::<char>::empty(), '!') == Seq::<char>::empty());
}

/// The printed token splits back at the colon that the printing inserted.
proof fn lemma_split_join(x: Seq<char>, y: Seq<char>)
    requires
        !contains_char(x, ':'),
    ensures
        contains_char(x + seq![':'] + y, ':'),
        spec_find_char(x + seq![':'] + y, ':') == x.len(),
        (x + seq![':'] + y).subrange(0, x.len() as int) == x,
        (x + seq![':'] + y).subrange(x.len() + 1 as int, (x + seq![':'] + y).len() as int) == y,
{
    let e = x + seq![':'] + y;
    assert(e.len() == x.len() + 1 + y.len());
    assert(e[x.len() as int] == ':');
    assert(contains_char(e, ':'));
    lemma_find_char(e, ':');
    let f = spec_find_char(e, ':');
    assert(f < e.len());
    assert forall|j: int| 0 <= j < x.len() implies e[j] != ':' by {
        assert(e[j] == x[j]);
        if x[j] == ':' {
            assert(contains_char(x, ':'));
        }
    }
    if f < x.len() {
        assert(e[f] != ':');
    }
    if f > x.len() {
        assert(e[x.len() as int] != ':');
    }
    assert(f == x.len());
    assert(e.subrange(0, x.len() as int) =~= x);
    assert(e.subrange(x.len() + 1 as int, e.len() as int) =~= y);
}

/// Printing a filter whose halves are as the parse leaves them, then parsing
/// the printed token, yields the same filter again.
pub proof fn lemma_parse_emit_idempotent(f: OsmTagFilterView)
    requires
        emit_roundtrips(f),
    ensures
        spec_parse_osm_tag(spec_emit_osm_tag(f)) == f,
{
    let e = spec_emit_osm_tag(f);
    match f.filter_type {
        OsmTagFilterType::NoFilter => {},
        OsmTagFilterType::Include => {
            match (f.key, f.value) {
                (Some(k), Some(v)) => {
                    lemma_colon_case(k, k, v, seq![':'] + v, false, false);
                    assert(e =~= k + (seq![':'] + v));
                    assert(spec_parse_osm_tag(e) == f);
                },
                (Some(k), None) => {
                    assert(e == k);
                    lemma_trim_noop(k);
                    assert(!contains_char(k, ':'));
                    assert(spec_parse_osm_tag(e) == f);
                },
                (None, Some(v)) => {
                    lemma_colon_case(Seq::<char>::empty(), Seq::<char>::empty(), v, seq![':'] + v, false, false);
                    assert(Seq::<char>::empty() + seq![':'] + v =~= seq![':'] + v);
                    assert(e == seq![':'] + v);
                    assert(spec_parse_osm_tag(e) == f);
                },
                (None, None) => {},
            }
        },
        OsmTagFilterType::Exclude => {
            match (f.key, f.value) {
                (Some(k), Some(v)) => {
                    lemma_colon_case(seq!['!'] + k, k, v, seq![':'] + v, true, false);
                    assert(e =~= (seq!['!'] + k) + (seq![':'] + v));
                    assert(spec_parse_osm_tag(e) == f);
                },
                (Some(k), None) => {
                    assert(e == seq!['!'] + k);
                    assert(e.len() > 0 && e[0] == '!');
                    assert(!is_space(e[0]));
                    assert(e.last() == k.last());
                    lemma_trim_noop(e);
                    assert(!contains_char(e, ':')) by {
                        if contains_char(e, ':') {
                            let w = choose|i: int| 0 <= i < e.len() && e[i] == ':';
                            assert(w != 0);
                            assert(e[w] == k[w - 1]);
                            assert(contains_char(k, ':'));
                        }
                    }
                    assert(e.drop_first() =~= k);
                    assert(spec_parse_osm_tag(e) == f);
                },
                (None, Some(v)) => {
                    assert(e =~= seq!['!'] + seq![':'] + v);
                    lemma_colon_case(seq!['!'], Seq::<char>::empty(), v, seq![':'] + v, true, false);
                    assert(spec_parse_osm_tag(e) == f);
                },
                (None, None) => {},
            }
        },
        OsmTagFilterType::ExcludeValue => {
            let k = f.key->0;
            let v = f.value->0;
            lemma_colon_case(k, k, v, seq![':'] + (seq!['!'] + v), false, true);
            assert(e =~= k + (seq![':'] + (seq!['!'] + v)));
            assert(spec_parse_osm_tag(e) == f);
        },
    }
}

/// The shared argument for every printed token that holds a colon: `x` is
/// the printed key half (`rawk` once the `!` marks are stripped), the value
/// half prints as `v`, marked with `!` when `ev` holds. The parse recovers
/// the kind from the marks and the halves exactly.
proof fn lemma_colon_case(x: Seq<char>, rawk: Seq<char>, v: Seq<char>, tail: Seq<char>, ek: bool, ev: bool)
    requires
        rawk.len() > 0 ==> clean_key(rawk),
        clean_value(v),
        ek ==> x == seq!['!'] + rawk,
        !ek ==> x == rawk,
        !ev ==> tail == seq![':'] + v,
        ev ==> tail == seq![':'] + (seq!['!'] + v),
        ev ==> (rawk.len() > 0 && !ek),
    ensures
        (spec_parse_osm_tag(x + tail) == OsmTagFilterView {
            filter_type: if ev {
                OsmTagFilterType::ExcludeValue
            } else if ek {
                OsmTagFilterType::Exclude
            } else {
                OsmTagFilterType::Include
            },
            key: if rawk.len() == 0 {
                None
            } else {
                Some(rawk)
            },
            value: Some(v),
        }),
{
    let y = if ev {
        seq!['!'] + v
    } else {
        v
    };
    let e = x + tail;
    assert(e =~= x + seq![':'] + y);
    assert(!contains_char(x, ':')) by {
        if contains_char(x, ':') {
            let w = choose|i: int| 0 <= i < x.len() && x[i] == ':';
            if ek {
                assert(w != 0);
                assert(x[w] == rawk[w - 1]);
            }
            assert(contains_char(rawk, ':'));
        }
    }
    lemma_split_join(x, y);
    // The whole token is already trimmed.
    assert(e.len() > 0);
    assert(e[0] == (if x.len() > 0 { x[0] } else { ':' }));
    assert(!is_space(e[0]));
    assert(e.last() == y.last() && !is_space(e.last()));
    lemma_trim_noop(e);
    let ci = spec_find_char(e, ':');
    assert(ci == x.len());
    assert(e.subrange(0, ci) == x);
    assert(e.subrange(ci + 1, e.len() as int) == y);
    // The halves are already trimmed.
    assert(x.len() > 0 ==> (!is_space(x[0]) && !is_space(x.last())));
    lemma_trim_noop(x);
    assert(y[0] == (if ev { '!' } else { v[0] }));
    assert(y.last() == v.last());
    lemma_trim_noop(y);
    // Strip the marks.
    lemma_remove_all_absent(rawk, '!');
    lemma_remove_all_absent(v, '!');
    if ek {
        lemma_remove_all_concat(seq!['!'], rawk, '!');
        lemma_remove_all_bang_of_bang();
        assert(remove_all_char(x, '!') =~= rawk);
    }
    if ev {
        lemma_remove_all_concat(seq!['!'], v, '!');
        lemma_remove_all_bang_of_bang();
        assert(remove_all_char(y, '!') =~= v);
    }
    assert(remove_all_char(x, '!') == rawk);
    assert(remove_all_char(y, '!') == v);
    // The marks sit exactly where the parse looks for them.
    assert((x.len() > 0 && x[0] == '!') == ek);
    assert((y.len() > 0 && y[0] == '!') == ev);
}

/// The assembled clauses of a token list with an insignificant token dropped
/// are the clauses of the whole list: such a token contributes nothing.
pub proof fn lemma_insignificant_token_contributes_nothing(tokens: Seq<Seq<char>>, i: int)
    requires
        0 <= i < tokens.len(),
        !token_significant(tokens[i]),
    ensures
        spec_tag_clauses(tokens.remove(i)) == spec_tag_clauses(tokens),
    decreases tokens.len(),
{
    if i == tokens.len() - 1 {
        assert(tokens.remove(i) =~= tokens.drop_last());
    } else {
        let shorter = tokens.remove(i);
        assert(shorter.drop_last() =~= tokens.drop_last().remove(i));
        assert(shorter.last() == tokens.last());
        lemma_insignificant_token_contributes_nothing(tokens.drop_last(), i);
    }
}

} // verus!
