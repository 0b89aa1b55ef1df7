//! The name n-gram query: a multi-field match over every language's name
//! n-grams, boosting the effective language, with static alternate-name
//! fields at a low weight.

use crate::query::tree::FieldBoost;
use crate::query::tree::Fuzziness;
use crate::query::tree::QueryTree;
use crate::query::tree::TextMatchType;
use crate::text::str_eq;
use vstd::prelude::*;

verus! {

/// The language whose name field gets full weight: the first configured
/// language when the request language is the `default` sentinel, else the
/// request language itself.
pub open spec fn spec_effective_language(language: Seq<char>, languages: Seq<Seq<char>>) -> Seq<
    char,
> {
    if language == "default"@ {
        languages[0]
    } else {
        language
    }
}

/// The n-gram name field of one language.
pub open spec fn spec_name_ngrams_field(lang: Seq<char>) -> Seq<char> {
    "name."@ + lang + ".ngrams"@
}

/// The six static alternate-name raw fields, in order.
pub open spec fn spec_alt_name_fields() -> Seq<Seq<char>> {
    seq![
        "name.alt.raw"@,
        "name.int.raw"@,
        "name.loc.raw"@,
        "name.old.raw"@,
        "name.reg.raw"@,
        "name.housename.raw"@,
    ]
}

/// The name n-gram query: per-language n-gram name fields (the effective
/// language at full weight, the rest at 0.4) and the alternate raw fields at
/// 0.4; `best_fields` with the `search_ngram` analyzer, fuzziness distance 1
/// when lenient, else 0.
pub open spec fn is_name_ngram_query(
    t: QueryTree,
    q: Seq<char>,
    language: Seq<char>,
    languages: Seq<Seq<char>>,
    lenient: bool,
) -> bool {
    let effective = spec_effective_language(language, languages);
    &&& t matches QueryTree::MultiMatch {
        fields,
        query,
        match_type,
        prefix_length,
        analyzer,
        tie_breaker_milli,
        minimum_should_match,
        fuzziness,
        boost_milli,
    }
    &&& fields@.len() == languages.len() + 6
    &&& forall|i: int|
        0 <= i < languages.len() ==> {
            &&& (#[trigger] fields@[i]).name@ == spec_name_ngrams_field(languages[i])
            &&& fields@[i].boost_milli == (if languages[i] == effective {
                1000u64
            } else {
                400u64
            })
        }
    &&& forall|i: int|
        0 <= i < 6 ==> {
            &&& (#[trigger] fields@[languages.len() + i]).name@ == spec_alt_name_fields()[i]
            &&& fields@[languages.len() + i].boost_milli == 400
        }
    &&& query@ == q
    &&& match_type == TextMatchType::BestFields
    &&& prefix_length is None
    &&& analyzer matches Some(a) && a@ == "search_ngram"@
    &&& tie_breaker_milli is None
    &&& minimum_should_match is None
    &&& fuzziness == Some(
        Fuzziness::Distance(
            if lenient {
                1u64
            } else {
                0u64
            },
        ),
    )
    &&& boost_milli is None
}

/// Builds the name n-gram query.
pub fn build_name_ngram_query(
    q: &String,
    language: &String,
    languages: &Vec<String>,
    lenient: bool,
) -> (t: QueryTree)
    requires
        language@ == "default"@ ==> languages@.len() > 0,
    ensures
        is_name_ngram_query(t, q@, language@, languages.deep_view(), lenient),
{
    let ghost langs = languages.deep_view();
    let default_language: &String = if str_eq(language.as_str(), "default") {
        &languages[0]
    } else {
        language
    };
    proof {
        assert(langs.len() == languages@.len());
        assert(forall|k: int| 0 <= k < langs.len() ==> langs[k] == languages@[k]@);
        if language@ == "default"@ {
            assert(default_language@ == langs[0]);
        }
        assert(default_language@ == spec_effective_language(language@, langs));
    }
    let mut fields: Vec<FieldBoost> = Vec::new();
    let mut i: usize = 0;
    while i < languages.len()
        invariant
            i <= languages@.len(),
            langs == languages.deep_view(),
            langs.len() == languages@.len(),
            forall|k: int| 0 <= k < langs.len() ==> langs[k] == languages@[k]@,
            default_language@ == spec_effective_language(language@, langs),
            fields@.len() == i,
            forall|k: int|
                0 <= k < i ==> {
                    &&& (#[trigger] fields@[k]).name@ == spec_name_ngrams_field(langs[k])
                    &&& fields@[k].boost_milli == (if langs[k] == spec_effective_language(
                        language@,
                        langs,
                    ) {
                        1000u64
                    } else {
                        400u64
                    })
                },
        decreases languages@.len() - i,
    {
        let lang = &languages[i];
        let boost: u64 = if str_eq(lang.as_str(), default_language.as_str()) {
            1000
        } else {
            400
        };
        let mut name = String::from_str("name.");
        name.append(lang.as_str());
        name.append(".ngrams");
        fields.push(FieldBoost { name, boost_milli: boost });
        i = i + 1;
    }
    fields.push(FieldBoost { name: String::from_str("name.alt.raw"), boost_milli: 400 });
    fields.push(FieldBoost { name: String::from_str("name.int.raw"), boost_milli: 400 });
    fields.push(FieldBoost { name: String::from_str("name.loc.raw"), boost_milli: 400 });
    fields.push(FieldBoost { name: String::from_str("name.old.raw"), boost_milli: 400 });
    fields.push(FieldBoost { name: String::from_str("name.reg.raw"), boost_milli: 400 });
    fields.push(FieldBoost { name: String::from_str("name.housename.raw"), boost_milli: 400 });
    QueryTree::MultiMatch {
        fields,
        query: q.clone(),
        match_type: TextMatchType::BestFields,
        prefix_length: None,
        analyzer: Some(String::from_str("search_ngram")),
        tie_breaker_milli: None,
        minimum_should_match: None,
        fuzziness: Some(
            Fuzziness::Distance(
                if lenient {
                    1
                } else {
                    0
                },
            ),
        ),
        boost_milli: None,
    }
}

} // verus!
