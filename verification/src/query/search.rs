//! The free-text search query: the ranked inner query with importance decay
//! and classification weighting, optionally wrapped by a location bias,
//! filtered by housenumber presence, bounding box, layers and OSM tags.

use crate::query::bbox::add_bounding_box_filter;
use crate::query::bbox::is_bbox_query;
use crate::query::bbox::Envelope;
use crate::query::fields::build_fields_query;
use crate::query::fields::is_fields_query;
use crate::query::fields::spec_language_boost_milli;
use crate::query::layer::add_layer_filter;
use crate::query::layer::is_layer_query;
use crate::query::location_bias::add_location_bias;
use crate::query::location_bias::is_location_bias_parts;
use crate::query::location_bias::LocationBias;
use crate::query::name_ngram::build_name_ngram_query;
use crate::query::name_ngram::is_name_ngram_query;
use crate::query::osm_tag::add_osm_tag_filter;
use crate::text::contains_char;
use crate::query::osm_tag::is_osm_tag_filter_query;
use crate::query::osm_tag::spec_tag_clauses;
use crate::query::tree::empty_bool;
use crate::query::tree::BoolNode;
use crate::query::tree::FieldBoost;
use crate::query::tree::Fuzziness;
use crate::query::tree::QueryTree;
use crate::query::tree::ScoreFunction;
use crate::query::tree::ScoreMode;
use crate::query::tree::SearchBody;
use crate::query::tree::TextMatchType;
use vstd::prelude::*;

verus! {

/// A plain text match of `q` against one field, with the standard analyzer
/// when `standard` holds and an optional boost.
pub open spec fn is_match_query(
    t: QueryTree,
    field: Seq<char>,
    q: Seq<char>,
    standard: bool,
    boost: Option<u64>,
) -> bool {
    &&& t matches QueryTree::MatchText { field: f, query, analyzer, fuzziness, boost_milli }
    &&& f@ == field
    &&& query@ == q
    &&& if standard {
        analyzer matches Some(a) && a@ == "standard"@
    } else {
        analyzer is None
    }
    &&& fuzziness is None
    &&& boost_milli == boost
}

/// The housenumber-promoted query: a multi-match over the raw collector
/// fields wrapped in a function score of boost 0.3 whose single function
/// weights housenumber matches tenfold.
pub open spec fn is_house_number_score_query(
    t: QueryTree,
    q: Seq<char>,
    language: Seq<char>,
    languages: Seq<Seq<char>>,
) -> bool {
    &&& t matches QueryTree::FunctionScore { query, functions, score_mode, boost_mode, boost_milli }
    &&& query matches Some(inner)
    &&& is_house_number_multi_match(*inner, q, language, languages)
    &&& functions.len() == 1
    &&& functions[0] matches ScoreFunction::Weight { weight_milli, filter }
    &&& weight_milli == 10000
    &&& filter matches Some(fq) && is_match_query(*fq, "housenumber"@, q, true, None)
    &&& score_mode is None
    &&& boost_mode is None
    &&& boost_milli == Some(300u64)
}

/// The raw-collector multi-match inside the housenumber promotion.
pub open spec fn is_house_number_multi_match(
    t: QueryTree,
    q: Seq<char>,
    language: Seq<char>,
    languages: Seq<Seq<char>>,
) -> bool {
    &&& t matches QueryTree::MultiMatch {
        fields,
        query,
        match_type,
        prefix_length,
        analyzer,
        tie_breaker_milli,
        minimum_should_match,
        fuzziness,
        boost_milli,
    }
    &&& fields@.len() == 1 + languages.len()
    &&& fields@[0].name@ == "collector.default.raw"@
    &&& fields@[0].boost_milli == 1000
    &&& forall|i: int|
        0 <= i < languages.len() ==> {
            &&& (#[trigger] fields@[i + 1]).name@ == "collector."@ + languages[i] + ".raw"@
            &&& fields@[i + 1].boost_milli == spec_language_boost_milli(languages[i], language)
        }
    &&& query@ == q
    &&& match_type == TextMatchType::BestFields
    &&& prefix_length is None
    &&& analyzer is None
    &&& tie_breaker_milli is None
    &&& minimum_should_match is None
    &&& fuzziness is None
    &&& boost_milli is None
}

/// The full-name match: `q` against the request language's raw name field,
/// with automatic fuzziness when lenient, else exact.
pub open spec fn is_full_name_query(
    t: QueryTree,
    q: Seq<char>,
    language: Seq<char>,
    lenient: bool,
) -> bool {
    &&& t matches QueryTree::MatchText { field, query, analyzer, fuzziness, boost_milli }
    &&& field@ == "name."@ + language + ".raw"@
    &&& query@ == q
    &&& analyzer is None
    &&& fuzziness == Some(
        if lenient {
            Fuzziness::Auto
        } else {
            Fuzziness::Distance(0u64)
        },
    )
    &&& boost_milli is None
}

/// The query text is a single bare word: no comma and no space.
pub open spec fn query_is_single_word(q: Seq<char>) -> bool {
    !contains_char(q, ',') && !contains_char(q, ' ')
}

/// The name n-gram query boosted to 2.0, as it stands when the query text is
/// a single word.
pub open spec fn is_boosted_name_ngram(
    t: QueryTree,
    q: Seq<char>,
    language: Seq<char>,
    languages: Seq<Seq<char>>,
    lenient: bool,
) -> bool {
    &&& t matches QueryTree::MultiMatch { boost_milli, .. }
    &&& boost_milli == Some(2000u64)
    &&& is_name_ngram_query(strip_boost(t), q, language, languages, lenient)
}

/// The same multi-match with its boost cleared, for comparing against the
/// unboosted form.
pub open spec fn strip_boost(t: QueryTree) -> QueryTree {
    match t {
        QueryTree::MultiMatch {
            fields,
            query,
            match_type,
            prefix_length,
            analyzer,
            tie_breaker_milli,
            minimum_should_match,
            fuzziness,
            boost_milli: _,
        } => QueryTree::MultiMatch {
            fields,
            query,
            match_type,
            prefix_length,
            analyzer,
            tie_breaker_milli,
            minimum_should_match,
            fuzziness,
            boost_milli: None,
        },
        _ => t,
    }
}

/// The disjunction that takes the n-gram query's place when the query text
/// has several words: the name n-grams, a housenumber match, or a weak
/// classification match, at least one of which must hold.
pub open spec fn is_multi_word_group(
    t: QueryTree,
    q: Seq<char>,
    language: Seq<char>,
    languages: Seq<Seq<char>>,
    lenient: bool,
) -> bool {
    &&& t matches QueryTree::Bool(b)
    &&& b.must@.len() == 0
    &&& b.must_not@.len() == 0
    &&& b.filter@.len() == 0
    &&& b.should@.len() == 3
    &&& is_name_ngram_query(b.should@[0], q, language, languages, lenient)
    &&& is_match_query(b.should@[1], "housenumber"@, q, true, None)
    &&& is_match_query(b.should@[2], "classification"@, q, false, Some(100u64))
    &&& b.minimum_should_match == Some(1i64)
}

/// The inner ranked query: the fields query and the word-count-dependent
/// n-gram side as `must`, the housenumber promotion and the full-name match
/// as `should`, wrapped in a function score that sums a linear importance
/// decay (origin 1.0, scale 0.6) with a 0.1 weight on classification
/// matches.
pub open spec fn is_unfiltered_query(
    t: QueryTree,
    q: Seq<char>,
    language: Seq<char>,
    languages: Seq<Seq<char>>,
    lenient: bool,
) -> bool {
    &&& t matches QueryTree::FunctionScore { query, functions, score_mode, boost_mode, boost_milli }
    &&& query matches Some(inner)
    &&& is_unfiltered_bool(*inner, q, language, languages, lenient)
    &&& functions.len() == 2
    &&& functions[0] matches ScoreFunction::LinearDecay { field, origin_nano, scale_nano }
    &&& field@ == "importance"@
    &&& origin_nano == 1000000000
    &&& scale_nano == 600000000
    &&& functions[1] matches ScoreFunction::Weight { weight_milli, filter }
    &&& weight_milli == 100
    &&& filter matches Some(fq) && is_match_query(*fq, "classification"@, q, false, None)
    &&& score_mode == Some(ScoreMode::Sum)
    &&& boost_mode is None
    &&& boost_milli is None
}

/// The boolean heart of the inner ranked query.
pub open spec fn is_unfiltered_bool(
    t: QueryTree,
    q: Seq<char>,
    language: Seq<char>,
    languages: Seq<Seq<char>>,
    lenient: bool,
) -> bool {
    &&& t matches QueryTree::Bool(b)
    &&& b.must@.len() == 2
    &&& is_fields_query(b.must@[0], q, language, languages, lenient)
    &&& if query_is_single_word(q) {
        is_boosted_name_ngram(b.must@[1], q, language, languages, lenient)
    } else {
        is_multi_word_group(b.must@[1], q, language, languages, lenient)
    }
    &&& b.should@.len() == 2
    &&& is_house_number_score_query(b.should@[0], q, language, languages)
    &&& is_full_name_query(b.should@[1], q, language, lenient)
    &&& b.must_not@.len() == 0
    &&& b.filter@.len() == 0
    &&& b.minimum_should_match is None
}

/// The top-level filter: the document has no housenumber, or its housenumber
/// matches the query, or it has a name in the request language; extended by
/// the bounding-box and layer filters when present.
pub open spec fn is_top_level_filter(
    t: QueryTree,
    q: Seq<char>,
    language: Seq<char>,
    bbox: Option<Envelope>,
    layers: Option<Seq<Seq<char>>>,
) -> bool {
    let extra = (if bbox is Some {
        1int
    } else {
        0int
    }) + (if layers is Some {
        1int
    } else {
        0int
    });
    &&& t matches QueryTree::Bool(b)
    &&& b.should@.len() == 3
    &&& is_no_housenumber_clause(b.should@[0])
    &&& is_match_query(b.should@[1], "housenumber"@, q, true, None)
    &&& (b.should@[2] matches QueryTree::Exists { field } && field@ == "name."@ + language
        + ".raw"@)
    &&& b.must@.len() == 0
    &&& b.must_not@.len() == 0
    &&& b.minimum_should_match is None
    &&& b.filter@.len() == extra
    &&& (bbox matches Some(e) ==> is_bbox_query(b.filter@[0], e))
    &&& (layers matches Some(ls) ==> is_layer_query(b.filter@[extra - 1], ls))
}

/// The clause that accepts documents without a housenumber.
pub open spec fn is_no_housenumber_clause(t: QueryTree) -> bool {
    &&& t matches QueryTree::Bool(b)
    &&& b.must@.len() == 0
    &&& b.should@.len() == 0
    &&& b.filter@.len() == 0
    &&& b.minimum_should_match is None
    &&& b.must_not@.len() == 1
    &&& (b.must_not@[0] matches QueryTree::Exists { field } && field@ == "housenumber"@)
}

/// The whole search body: the (possibly bias-wrapped) ranked query as the
/// single `must`, the OSM tag filter when it contributes, and the top-level
/// filter last; no sort.
pub open spec fn is_search_query(
    body: SearchBody,
    q: Seq<char>,
    language: Seq<char>,
    languages: Seq<Seq<char>>,
    lenient: bool,
    tokens: Option<Seq<Seq<char>>>,
    bbox: Option<Envelope>,
    layers: Option<Seq<Seq<char>>>,
    bias: Option<LocationBias>,
) -> bool {
    let tag_filter_present = tokens matches Some(ts) && (spec_tag_clauses(ts).0.len() > 0
        || spec_tag_clauses(ts).1.len() > 0);
    &&& body.sort is None
    &&& body.query matches QueryTree::Bool(b)
    &&& b.should@.len() == 0
    &&& b.must_not@.len() == 0
    &&& b.minimum_should_match is None
    &&& b.must@.len() == 1
    &&& is_biased_ranked_query(b.must@[0], q, language, languages, lenient, bias)
    &&& if tag_filter_present {
        b.filter@.len() == 2 && (tokens matches Some(ts) && is_osm_tag_filter_query(
            b.filter@[0],
            ts,
        ))
    } else {
        b.filter@.len() == 1
    }
    &&& is_top_level_filter(b.filter@.last(), q, language, bbox, layers)
}

/// The ranked query, wrapped by the location bias when one applies.
pub open spec fn is_biased_ranked_query(
    t: QueryTree,
    q: Seq<char>,
    language: Seq<char>,
    languages: Seq<Seq<char>>,
    lenient: bool,
    bias: Option<LocationBias>,
) -> bool {
    match bias {
        Option::Some(b) => if b.zoom >= 4 {
            &&& t matches QueryTree::FunctionScore {
                query,
                functions,
                score_mode,
                boost_mode,
                boost_milli,
            }
            &&& query matches Some(inner)
            &&& is_unfiltered_query(*inner, q, language, languages, lenient)
            &&& is_location_bias_parts(functions@, score_mode, boost_mode, boost_milli, b)
        } else {
            is_unfiltered_query(t, q, language, languages, lenient)
        },
        Option::None => is_unfiltered_query(t, q, language, languages, lenient),
    }
}

fn build_house_number_query(q: &String, language: &String, languages: &Vec<String>) -> (t:
    QueryTree)
    ensures
        is_house_number_multi_match(t, q@, language@, languages.deep_view()),
{
    let fields = crate::query::fields::collector_fields(language, languages, true);
    let t = QueryTree::MultiMatch {
        fields,
        query: q.clone(),
        match_type: TextMatchType::BestFields,
        prefix_length: None,
        analyzer: None,
        tie_breaker_milli: None,
        minimum_should_match: None,
        fuzziness: None,
        boost_milli: None,
    };
    proof {
        assert forall|i: int| 0 <= i < languages.deep_view().len() implies {
            &&& (#[trigger] t->MultiMatch_fields@[i + 1]).name@ == "collector."@
                + languages.deep_view()[i] + ".raw"@
            &&& t->MultiMatch_fields@[i + 1].boost_milli == spec_language_boost_milli(
                languages.deep_view()[i],
                language@,
            )
        } by {
            assert(languages.deep_view()[i] == languages@[i]@);
        }
    }
    t
}

fn match_housenumber_standard(q: &String) -> (t: QueryTree)
    ensures
        is_match_query(t, "housenumber"@, q@, true, None),
{
    QueryTree::MatchText {
        field: String::from_str("housenumber"),
        query: q.clone(),
        analyzer: Some(String::from_str("standard")),
        fuzziness: None,
        boost_milli: None,
    }
}

fn build_function_score_query(q: &String, language: &String, languages: &Vec<String>) -> (t:
    QueryTree)
    ensures
        is_house_number_score_query(t, q@, language@, languages.deep_view()),
{
    let house = build_house_number_query(q, language, languages);
    let mut functions: Vec<ScoreFunction> = Vec::new();
    functions.push(
        ScoreFunction::Weight {
            weight_milli: 10000,
            filter: Some(Box::new(match_housenumber_standard(q))),
        },
    );
    QueryTree::FunctionScore {
        query: Some(Box::new(house)),
        functions,
        score_mode: None,
        boost_mode: None,
        boost_milli: Some(300),
    }
}

fn build_full_name_query(q: &String, language: &String, lenient: bool) -> (t: QueryTree)
    ensures
        is_full_name_query(t, q@, language@, lenient),
{
    let mut field = String::from_str("name.");
    field.append(language.as_str());
    field.append(".raw");
    QueryTree::MatchText {
        field,
        query: q.clone(),
        analyzer: None,
        fuzziness: Some(
            if lenient {
                Fuzziness::Auto
            } else {
                Fuzziness::Distance(0)
            },
        ),
        boost_milli: None,
    }
}

fn query_has_comma_or_space(q: &String) -> (r: bool)
    ensures
        r == !query_is_single_word(q@),
{
    let s = q.as_str();
    let n = s.unicode_len();
    let mut i: usize = 0;
    while i < n
        invariant
            i <= n,
            n == s@.len(),
            s@ == q@,
            forall|k: int| 0 <= k < i ==> (s@[k] != ',' && s@[k] != ' '),
        decreases n - i,
    {
        let c = s.get_char(i);
        if c == ',' || c == ' ' {
            return true;
        }
        i = i + 1;
    }
    proof {
        if contains_char(q@, ',') {
            let w = choose|k: int| 0 <= k < q@.len() && q@[k] == ',';
            assert(q@[w] != ',');
        }
        if contains_char(q@, ' ') {
            let w = choose|k: int| 0 <= k < q@.len() && q@[k] == ' ';
            assert(q@[w] != ' ');
        }
    }
    false
}

fn build_unfiltered_query(
    q: &String,
    language: &String,
    languages: &Vec<String>,
    lenient: bool,
) -> (t: QueryTree)
    requires
        language@ == "default"@ ==> languages@.len() > 0,
    ensures
        is_unfiltered_query(t, q@, language@, languages.deep_view(), lenient),
{
    let fields_query = build_fields_query(q, language, languages, lenient);
    let function_score_query = build_function_score_query(q, language, languages);
    let full_name_query = build_full_name_query(q, language, lenient);
    let name_ngram_query = build_name_ngram_query(q, language, languages, lenient);

    let mut inner = empty_bool();
    inner.must.push(fields_query);
    inner.should.push(function_score_query);
    inner.should.push(full_name_query);

    if !query_has_comma_or_space(q) {
        let boosted = set_multi_match_boost(name_ngram_query, 2000);
        inner.must.push(boosted);
    } else {
        let mut group = empty_bool();
        group.should.push(name_ngram_query);
        group.should.push(match_housenumber_standard(q));
        group.should.push(
            QueryTree::MatchText {
                field: String::from_str("classification"),
                query: q.clone(),
                analyzer: None,
                fuzziness: None,
                boost_milli: Some(100),
            },
        );
        group.minimum_should_match = Some(1);
        inner.must.push(QueryTree::Bool(group));
    }

    let mut functions: Vec<ScoreFunction> = Vec::new();
    functions.push(
        ScoreFunction::LinearDecay {
            field: String::from_str("importance"),
            origin_nano: 1000000000,
            scale_nano: 600000000,
        },
    );
    functions.push(
        ScoreFunction::Weight {
            weight_milli: 100,
            filter: Some(
                Box::new(
                    QueryTree::MatchText {
                        field: String::from_str("classification"),
                        query: q.clone(),
                        analyzer: None,
                        fuzziness: None,
                        boost_milli: None,
                    },
                ),
            ),
        },
    );
    QueryTree::FunctionScore {
        query: Some(Box::new(QueryTree::Bool(inner))),
        functions,
        score_mode: Some(ScoreMode::Sum),
        boost_mode: None,
        boost_milli: None,
    }
}

fn set_multi_match_boost(t: QueryTree, boost: u64) -> (r: QueryTree)
    requires
        t is MultiMatch,
    ensures
        r matches QueryTree::MultiMatch { boost_milli, .. } && boost_milli == Some(boost),
        strip_boost(r) == strip_boost(t),
{
    match t {
        QueryTree::MultiMatch {
            fields,
            query,
            match_type,
            prefix_length,
            analyzer,
            tie_breaker_milli,
            minimum_should_match,
            fuzziness,
            boost_milli: _,
        } => QueryTree::MultiMatch {
            fields,
            query,
            match_type,
            prefix_length,
            analyzer,
            tie_breaker_milli,
            minimum_should_match,
            fuzziness,
            boost_milli: Some(boost),
        },
        _ => t,
    }
}

fn build_top_level_filter_query(q: &String, language: &String) -> (b: BoolNode)
    ensures
        is_top_level_filter(QueryTree::Bool(b), q@, language@, None, None),
{
    let mut no_house = empty_bool();
    no_house.must_not.push(QueryTree::Exists { field: String::from_str("housenumber") });
    let mut field = String::from_str("name.");
    field.append(language.as_str());
    field.append(".raw");
    let mut b = empty_bool();
    b.should.push(QueryTree::Bool(no_house));
    b.should.push(match_housenumber_standard(q));
    b.should.push(QueryTree::Exists { field });
    b
}

/// Builds the whole search body for one attempt, strict or lenient.
pub fn build_search_query(
    q: &String,
    language: &String,
    languages: &Vec<String>,
    lenient: bool,
    filters: &Option<Vec<String>>,
    bbox: &Option<Envelope>,
    layers: &Option<Vec<String>>,
    location_bias: &Option<LocationBias>,
) -> (body: SearchBody)
    requires
        language@ == "default"@ ==> languages@.len() > 0,
    ensures
        is_search_query(
            body,
            q@,
            language@,
            languages.deep_view(),
            lenient,
            match filters {
                Option::Some(fs) => Some(fs.deep_view()),
                Option::None => None,
            },
            *bbox,
            match layers {
                Option::Some(ls) => Some(ls.deep_view()),
                Option::None => None,
            },
            *location_bias,
        ),
{
    let unfiltered = build_unfiltered_query(q, language, languages, lenient);
    let wrapped = add_location_bias(unfiltered, location_bias);

    let top_level_bool = build_top_level_filter_query(q, language);
    let top_level_bool = add_bounding_box_filter(bbox, top_level_bool);
    let top_level_bool = add_layer_filter(layers, top_level_bool);

    let mut final_query = empty_bool();
    final_query.must.push(wrapped);
    let mut final_query = add_osm_tag_filter(filters, final_query);
    final_query.filter.push(QueryTree::Bool(top_level_bool));

    SearchBody { query: QueryTree::Bool(final_query), sort: None }
}

} // verus!
