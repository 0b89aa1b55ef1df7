//! The reverse geocoding query: documents within a radius of a point,
//! optionally restricted by a query string, layers and OSM tags, sorted by
//! distance when asked.

use crate::query::layer::build_layer_filter_query;
use crate::query::layer::is_layer_query;
use crate::query::osm_tag::add_osm_tag_filter;
use crate::query::osm_tag::is_osm_tag_filter_query;
use crate::query::osm_tag::spec_tag_clauses;
use crate::query::osm_tag::spec_trim;
use crate::query::tree::empty_bool;
use crate::query::tree::GeoDistanceSort;
use crate::query::tree::QueryTree;
use crate::query::tree::SearchBody;
use crate::query::tree::SortOrder;
use crate::text::str_to_chars;
use vstd::prelude::*;

verus! {

/// A query-string filter counts only when it is non-blank after trimming.
pub open spec fn query_string_present(filter: Option<Seq<char>>) -> bool {
    filter matches Some(s) && spec_trim(s).len() > 0
}

/// The geo-distance filter around the request point, radius in kilometers.
pub open spec fn is_geo_distance_query(t: QueryTree, lat: i64, lon: i64, radius_km: u64) -> bool {
    &&& t matches QueryTree::GeoDistance { field, lat: qlat, lon: qlon, radius_km: r }
    &&& field@ == "coordinate"@
    &&& qlat == lat
    &&& qlon == lon
    &&& r == radius_km
}

/// The whole reverse body. The boolean query holds, in order, the
/// query-string filter when non-blank and the layer restriction when given as
/// `must` clauses — or a match-all when neither is there — and, as `filter`
/// clauses, the OSM tag filter when it contributes followed by the
/// geo-distance bound. The sort is ascending by distance from the request
/// point exactly when `distance_sort` holds.
pub open spec fn is_reverse_query(
    body: SearchBody,
    lat: i64,
    lon: i64,
    radius_km: u64,
    query_string_filter: Option<Seq<char>>,
    distance_sort: bool,
    layers: Option<Seq<Seq<char>>>,
    tokens: Option<Seq<Seq<char>>>,
) -> bool {
    let has_qsf = query_string_present(query_string_filter);
    let has_layers = layers is Some;
    let tag_filter_present = tokens matches Some(ts) && (spec_tag_clauses(ts).0.len() > 0
        || spec_tag_clauses(ts).1.len() > 0);
    let n_must = (if has_qsf {
        1int
    } else {
        0int
    }) + (if has_layers {
        1int
    } else {
        0int
    });
    &&& body.query matches QueryTree::Bool(b)
    &&& b.should@.len() == 0
    &&& b.must_not@.len() == 0
    &&& b.minimum_should_match is None
    &&& if n_must == 0 {
        b.must@.len() == 1 && b.must@[0] is MatchAll
    } else {
        b.must@.len() == n_must
    }
    &&& (has_qsf ==> (b.must@[0] matches QueryTree::QueryString { query }
        && Some(query@) == query_string_filter))
    &&& (has_layers ==> (layers matches Some(ls) && is_layer_query(b.must@[n_must - 1], ls)))
    &&& if tag_filter_present {
        b.filter@.len() == 2 && (tokens matches Some(ts) && is_osm_tag_filter_query(
            b.filter@[0],
            ts,
        ))
    } else {
        b.filter@.len() == 1
    }
    &&& is_geo_distance_query(b.filter@.last(), lat, lon, radius_km)
    &&& if distance_sort {
        body.sort matches Some(s) && s.field@ == "coordinate"@ && s.lat == lat && s.lon == lon
            && s.order is Asc
    } else {
        body.sort is None
    }
}

fn query_string_filter_is_blank(filter: &String) -> (r: bool)
    ensures
        r == (spec_trim(filter@).len() == 0),
{
    let chars = str_to_chars(filter.as_str());
    let ghost orig = chars@;
    let mut i: usize = 0;
    let n = chars.len();
    // A sequence trims to empty exactly when every character is whitespace.
    while i < n
        invariant
            i <= n,
            n == chars@.len(),
            chars@ == orig,
            orig == filter@,
            forall|k: int| 0 <= k < i ==> crate::query::osm_tag::is_space(orig[k]),
        decreases n - i,
    {
        let c = chars[i];
        if !(c == ' ' || c == '\t' || c == '\n' || c == '\r') {
            proof {
                lemma_trim_keeps_nonspace(orig, i as int);
            }
            return false;
        }
        i = i + 1;
    }
    proof {
        lemma_all_space_trims_empty(orig);
    }
    true
}

/// A sequence of whitespace alone trims to the empty sequence.
proof fn lemma_all_space_trims_empty(s: Seq<char>)
    requires
        forall|k: int| 0 <= k < s.len() ==> crate::query::osm_tag::is_space(s[k]),
    ensures
        spec_trim(s).len() == 0,
    decreases s.len(),
{
    if s.len() > 0 {
        assert(forall|k: int|
            0 <= k < s.drop_first().len() ==> crate::query::osm_tag::is_space(
                s.drop_first()[k],
            ));
        lemma_all_space_trims_empty(s.drop_first());
        assert(crate::query::osm_tag::spec_trim_start(s)
            == crate::query::osm_tag::spec_trim_start(s.drop_first()));
    }
}

/// A sequence holding one non-whitespace character does not trim to empty.
proof fn lemma_trim_keeps_nonspace(s: Seq<char>, i: int)
    requires
        0 <= i < s.len(),
        !crate::query::osm_tag::is_space(s[i]),
    ensures
        spec_trim(s).len() > 0,
    decreases s.len(),
{
    lemma_trim_start_keeps(s, i);
    let st = crate::query::osm_tag::spec_trim_start(s);
    let j = choose|j: int| 0 <= j < st.len() && !crate::query::osm_tag::is_space(st[j]);
    lemma_trim_end_keeps(st, j);
}

/// Trimming the start keeps every non-whitespace character.
proof fn lemma_trim_start_keeps(s: Seq<char>, i: int)
    requires
        0 <= i < s.len(),
        !crate::query::osm_tag::is_space(s[i]),
    ensures
        exists|j: int|
            0 <= j < crate::query::osm_tag::spec_trim_start(s).len()
                && !crate::query::osm_tag::is_space(crate::query::osm_tag::spec_trim_start(s)[j]),
    decreases s.len(),
{
    if s.len() > 0 && crate::query::osm_tag::is_space(s[0]) {
        assert(i > 0);
        assert(s.drop_first()[i - 1] == s[i]);
        lemma_trim_start_keeps(s.drop_first(), i - 1);
        assert(crate::query::osm_tag::spec_trim_start(s) == crate::query::osm_tag::spec_trim_start(
            s.drop_first(),
        ));
    } else {
        assert(crate::query::osm_tag::spec_trim_start(s) == s);
        assert(!crate::query::osm_tag::is_space(crate::query::osm_tag::spec_trim_start(s)[i]));
    }
}

/// Trimming the end keeps every non-whitespace character.
proof fn lemma_trim_end_keeps(s: Seq<char>, i: int)
    requires
        0 <= i < s.len(),
        !crate::query::osm_tag::is_space(s[i]),
    ensures
        crate::query::osm_tag::spec_trim_end(s).len() > 0,
    decreases s.len(),
{
    if s.len() > 0 && crate::query::osm_tag::is_space(s.last()) {
        assert(i < s.len() - 1);
        assert(s.drop_last()[i] == s[i]);
        lemma_trim_end_keeps(s.drop_last(), i);
    }
}

/// Builds the whole reverse body.
pub fn build_reverse_query(
    lat: i64,
    lon: i64,
    radius: u64,
    query_string_filter: &Option<String>,
    distance_sort: bool,
    layers: &Option<Vec<String>>,
    filters: &Option<Vec<String>>,
) -> (body: SearchBody)
    ensures
        is_reverse_query(
            body,
            lat,
            lon,
            radius,
            match query_string_filter {
                Option::Some(s) => Some(s@),
                Option::None => None,
            },
            distance_sort,
            match layers {
                Option::Some(ls) => Some(ls.deep_view()),
                Option::None => None,
            },
            match filters {
                Option::Some(fs) => Some(fs.deep_view()),
                Option::None => None,
            },
        ),
{
    let geo_distance_query = QueryTree::GeoDistance {
        field: String::from_str("coordinate"),
        lat,
        lon,
        radius_km: radius,
    };

    let mut query = empty_bool();
    let mut match_all = true;

    if let Some(filter) = query_string_filter {
        if !query_string_filter_is_blank(filter) {
            query.must.push(QueryTree::QueryString { query: filter.clone() });
            match_all = false;
        }
    }

    if let Some(ls) = layers {
        query.must.push(build_layer_filter_query(ls));
        match_all = false;
    }

    let mut query = add_osm_tag_filter(filters, query);

    if match_all {
        query.must.push(QueryTree::MatchAll);
    }

    query.filter.push(geo_distance_query);

    let sort = if distance_sort {
        Some(
            GeoDistanceSort { field: String::from_str("coordinate"), lat, lon, order: SortOrder::Asc },
        )
    } else {
        None
    };

    SearchBody { query: QueryTree::Bool(query), sort }
}

} // verus!
