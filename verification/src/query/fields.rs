//! The fields query: a multi-field n-gram match over the collector fields,
//! boosting the request language, strict or lenient.

use crate::query::tree::FieldBoost;
use crate::query::tree::Fuzziness;
use crate::query::tree::QueryTree;
use crate::query::tree::TextMatchType;
use crate::text::str_eq;
use vstd::prelude::*;

verus! {

/// The n-gram collector field of one language.
pub open spec fn spec_collector_ngrams_field(lang: Seq<char>) -> Seq<char> {
    "collector."@ + lang + ".ngrams"@
}

/// A language's boost in milli units: full weight for the request language,
/// 0.6 for the others.
pub open spec fn spec_language_boost_milli(lang: Seq<char>, language: Seq<char>) -> u64 {
    if lang == language {
        1000
    } else {
        600
    }
}

/// The fields query: a multi-match over `collector.default` and every
/// language's n-gram collector field, analyzed with `search_ngram`, prefix
/// length 2, tie breaker 0.4; `best_fields`, minimum-should-match "-34%" and
/// automatic fuzziness when lenient, else `cross_fields`, "100%" and no
/// fuzziness.
pub open spec fn is_fields_query(
    t: QueryTree,
    q: Seq<char>,
    language: Seq<char>,
    languages: Seq<Seq<char>>,
    lenient: bool,
) -> bool {
    &&& t matches QueryTree::MultiMatch {
        fields,
        query,
        match_type,
        prefix_length,
        analyzer,
        tie_breaker_milli,
        minimum_should_match,
        fuzziness,
        boost_milli,
    }
    &&& fields@.len() == 1 + languages.len()
    &&& fields@[0].name@ == "collector.default"@
    &&& fields@[0].boost_milli == 1000
    &&& forall|i: int|
        0 <= i < languages.len() ==> {
            &&& (#[trigger] fields@[i + 1]).name@ == spec_collector_ngrams_field(languages[i])
            &&& fields@[i + 1].boost_milli == spec_language_boost_milli(languages[i], language)
        }
    &&& query@ == q
    &&& match_type == (if lenient {
        TextMatchType::BestFields
    } else {
        TextMatchType::CrossFields
    })
    &&& prefix_length == Some(2u64)
    &&& analyzer matches Some(a) && a@ == "search_ngram"@
    &&& tie_breaker_milli == Some(400u64)
    &&& minimum_should_match matches Some(m) && m@ == (if lenient {
        "-34%"@
    } else {
        "100%"@
    })
    &&& fuzziness == (if lenient {
        Some(Fuzziness::Auto)
    } else {
        None::<Fuzziness>
    })
    &&& boost_milli is None
}

/// Builds the per-language collector field list: `collector.default` at full
/// weight, then each language's field with its language boost. `kind` picks
/// the field flavour: the n-gram fields or the raw fields.
pub(crate) fn collector_fields(language: &String, languages: &Vec<String>, raw: bool) -> (fields: Vec<
    FieldBoost,
>)
    ensures
        fields@.len() == 1 + languages@.len(),
        fields@[0].name@ == (if raw {
            "collector.default.raw"@
        } else {
            "collector.default"@
        }),
        fields@[0].boost_milli == 1000,
        forall|i: int|
            0 <= i < languages@.len() ==> {
                &&& (#[trigger] fields@[i + 1]).name@ == "collector."@ + languages@[i]@ + (if raw {
                    ".raw"@
                } else {
                    ".ngrams"@
                })
                &&& fields@[i + 1].boost_milli == spec_language_boost_milli(
                    languages@[i]@,
                    language@,
                )
            },
{
    let mut fields: Vec<FieldBoost> = Vec::new();
    let first = if raw {
        "collector.default.raw"
    } else {
        "collector.default"
    };
    fields.push(FieldBoost { name: String::from_str(first), boost_milli: 1000 });
    let suffix = if raw {
        ".raw"
    } else {
        ".ngrams"
    };
    let mut i: usize = 0;
    while i < languages.len()
        invariant
            i <= languages@.len(),
            suffix@ == (if raw {
                ".raw"@
            } else {
                ".ngrams"@
            }),
            fields@.len() == 1 + i,
            fields@[0].name@ == (if raw {
                "collector.default.raw"@
            } else {
                "collector.default"@
            }),
            fields@[0].boost_milli == 1000,
            forall|k: int|
                0 <= k < i ==> {
                    &&& (#[trigger] fields@[k + 1]).name@ == "collector."@ + languages@[k]@ + (
                    if raw {
                        ".raw"@
                    } else {
                        ".ngrams"@
                    })
                    &&& fields@[k + 1].boost_milli == spec_language_boost_milli(
                        languages@[k]@,
                        language@,
                    )
                },
        decreases languages@.len() - i,
    {
        let lang = &languages[i];
        let boost: u64 = if str_eq(lang.as_str(), language.as_str()) {
            1000
        } else {
            600
        };
        let mut name = String::from_str("collector.");
        name.append(lang.as_str());
        name.append(suffix);
        fields.push(FieldBoost { name, boost_milli: boost });
        i = i + 1;
    }
    fields
}

/// Builds the fields query over the collector n-gram fields.
pub fn build_fields_query(
    q: &String,
    language: &String,
    languages: &Vec<String>,
    lenient: bool,
) -> (t: QueryTree)
    ensures
        is_fields_query(t, q@, language@, languages.deep_view(), lenient),
{
    let fields = collector_fields(language, languages, false);
    let text_query_type = if lenient {
        TextMatchType::BestFields
    } else {
        TextMatchType::CrossFields
    };
    let t = QueryTree::MultiMatch {
        fields,
        query: q.clone(),
        match_type: text_query_type,
        prefix_length: Some(2),
        analyzer: Some(String::from_str("search_ngram")),
        tie_breaker_milli: Some(400),
        minimum_should_match: Some(
            String::from_str(
                if lenient {
                    "-34%"
                } else {
                    "100%"
                },
            ),
        ),
        fuzziness: if lenient {
            Some(Fuzziness::Auto)
        } else {
            None
        },
        boost_milli: None,
    };
    proof {
        assert forall|i: int| 0 <= i < languages.deep_view().len() implies {
            &&& (#[trigger] t->MultiMatch_fields@[i + 1]).name@ == spec_collector_ngrams_field(
                languages.deep_view()[i],
            )
            &&& t->MultiMatch_fields@[i + 1].boost_milli == spec_language_boost_milli(
                languages.deep_view()[i],
                language@,
            )
        } by {
            assert(languages.deep_view()[i] == languages@[i]@);
        }
    }
    t
}

} // verus!
