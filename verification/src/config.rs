//! Process-wide configuration records and the checks they must pass at
//! bootstrap. Reading the environment itself happens outside the library.

use vstd::prelude::*;

verus! {

/// Bind address, backend credentials and pool size, loaded once at startup.
pub struct ApiConfig {
    pub pool_size: i8,
    pub host_address: String,
    pub host_port: String,
    pub elastic_api_key: String,
    pub elastic_cloud_id: String,
}

/// The set of languages the service accepts in `lang` parameters.
pub struct LanguageConfig {
    pub valid_languages: Vec<String>,
}

/// The full language set the service can ever be configured with.
pub open spec fn spec_supported_languages() -> Seq<Seq<char>> {
    seq!["en"@, "de"@, "fr"@, "it"@]
}

/// Whether one language code is supported at all.
pub fn language_supported(lang: &String) -> (r: bool)
    ensures
        r <==> spec_supported_languages().contains(lang@),
{
    let r = crate::text::str_eq(lang.as_str(), "en") || crate::text::str_eq(lang.as_str(), "de")
        || crate::text::str_eq(lang.as_str(), "fr") || crate::text::str_eq(lang.as_str(), "it");
    proof {
        if r {
            assert(spec_supported_languages().contains(lang@));
        } else {
            assert(forall|i: int|
                0 <= i < spec_supported_languages().len() ==> spec_supported_languages()[i]
                    != lang@) by {
                assert(spec_supported_languages()[0] == "en"@);
                assert(spec_supported_languages()[1] == "de"@);
                assert(spec_supported_languages()[2] == "fr"@);
                assert(spec_supported_languages()[3] == "it"@);
            }
        }
    }
    r
}

/// Checks a configured language list: every entry must be a supported
/// language. Returns the index of the first entry that is not, or `None`
/// when the whole list is acceptable.
pub fn validate_language_config(langs: &Vec<String>) -> (r: Option<usize>)
    ensures
        match r {
            Option::None => forall|i: int|
                0 <= i < langs@.len() ==> spec_supported_languages().contains(langs@[i]@),
            Option::Some(bad) => {
                &&& 0 <= bad < langs@.len()
                &&& !spec_supported_languages().contains(langs@[bad as int]@)
                &&& forall|i: int|
                    0 <= i < bad ==> spec_supported_languages().contains(langs@[i]@)
            },
        },
{
    let mut i: usize = 0;
    while i < langs.len()
        invariant
            i <= langs@.len(),
            forall|k: int| 0 <= k < i ==> spec_supported_languages().contains(langs@[k]@),
        decreases langs@.len() - i,
    {
        if !language_supported(&langs[i]) {
            return Some(i);
        }
        i = i + 1;
    }
    None
}

} // verus!
