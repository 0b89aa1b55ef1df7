//! Place documents as the backend stores them, and the shaping of one
//! document into a GeoJSON feature with per-language field resolution.

use crate::response::PhotonGeometry;
use crate::response::PhotonResponseFeature;
use crate::response::PhotonResponseProperties;
use vstd::prelude::*;

verus! {

/// A per-language mapping of a name: `(language code, localized name)`
/// entries, possibly with the `"default"` sentinel key as fallback.
pub type LanguageField = Vec<(String, String)>;

/// A document's coordinate in micro-degrees.
pub struct PhotonDocumentCoordinate {
    pub lat: i64,
    pub lon: i64,
}

/// A document's extent: two corner points in micro-degrees.
pub struct PhotonDocumentExtent {
    pub kind: String,
    pub coordinates: [[i64; 2]; 2],
}

/// A place document: scalar fields, the coordinate, the optional extent and
/// the per-language name fields.
pub struct PhotonDocument {
    pub kind: String,
    pub place_id: i64,
    pub parent_place_id: Option<i64>,
    pub osm_id: i64,
    pub osm_type: String,
    pub osm_value: String,
    pub osm_key: String,
    pub coordinate: PhotonDocumentCoordinate,
    pub extent: Option<PhotonDocumentExtent>,
    pub classification: Option<String>,
    pub countrycode: Option<String>,
    pub housenumber: Option<String>,
    pub postcode: Option<String>,
    pub country: Option<LanguageField>,
    pub county: Option<LanguageField>,
    pub city: Option<LanguageField>,
    pub state: Option<LanguageField>,
    pub district: Option<LanguageField>,
    pub locality: Option<LanguageField>,
    pub street: Option<LanguageField>,
    pub name: Option<LanguageField>,
    pub names: Option<Vec<(String, String)>>,
    pub extra: Option<Vec<(String, String)>>,
}

/// The first value stored under `key`, or `None` when no entry carries it.
pub open spec fn spec_lang_lookup(
    entries: Seq<(Seq<char>, Seq<char>)>,
    key: Seq<char>,
) -> Option<Seq<char>>
    decreases entries.len(),
{
    if entries.len() == 0 {
        None
    } else if entries[0].0 == key {
        Some(entries[0].1)
    } else {
        spec_lang_lookup(entries.drop_first(), key)
    }
}

/// Language resolution: the language's own value when present, else the
/// `"default"` value, else absence.
pub open spec fn spec_resolve_language_field(
    field: Option<Seq<(Seq<char>, Seq<char>)>>,
    language: Seq<char>,
) -> Option<Seq<char>> {
    match field {
        Option::Some(entries) => match spec_lang_lookup(entries, language) {
            Option::Some(v) => Some(v),
            Option::None => spec_lang_lookup(entries, "default"@),
        },
        Option::None => None,
    }
}

/// The entries hold `value` under `key`.
pub open spec fn field_has_entry(
    entries: Seq<(Seq<char>, Seq<char>)>,
    key: Seq<char>,
    value: Seq<char>,
) -> bool {
    exists|i: int| 0 <= i < entries.len() && entries[i] == (key, value)
}

/// What a lookup can return: a value stored under the very key asked for.
pub proof fn lemma_lang_lookup_sound(entries: Seq<(Seq<char>, Seq<char>)>, key: Seq<char>)
    ensures
        spec_lang_lookup(entries, key) matches Some(v) ==> field_has_entry(entries, key, v),
    decreases entries.len(),
{
    if entries.len() > 0 {
        if entries[0].0 == key {
            assert(entries[0] == (key, entries[0].1));
        } else {
            lemma_lang_lookup_sound(entries.drop_first(), key);
            if spec_lang_lookup(entries.drop_first(), key) is Some {
                let v = spec_lang_lookup(entries.drop_first(), key)->0;
                let w = choose|i: int|
                    0 <= i < entries.drop_first().len() && entries.drop_first()[i] == (key, v);
                assert(entries[w + 1] == (key, v));
            }
        }
    }
}

/// Language resolution never invents a value: what it yields is stored under
/// the requested language or under the `"default"` sentinel — never under
/// another language.
pub proof fn lemma_language_resolution_sound(
    field: Option<Seq<(Seq<char>, Seq<char>)>>,
    language: Seq<char>,
)
    ensures
        spec_resolve_language_field(field, language) matches Some(v) ==> (field matches Some(
            entries,
        ) && (field_has_entry(entries, language, v) || field_has_entry(entries, "default"@, v))),
        field is None ==> spec_resolve_language_field(field, language) is None,
{
    if field is Some {
        let entries = field->0;
        lemma_lang_lookup_sound(entries, language);
        lemma_lang_lookup_sound(entries, "default"@);
    }
}

fn lang_get(entries: &LanguageField, key: &String) -> (r: Option<String>)
    ensures
        (match r {
            Option::Some(v) => Some(v@),
            Option::None => None::<Seq<char>>,
        }) == spec_lang_lookup(entries.deep_view(), key@),
{
    let ghost dv = entries.deep_view();
    proof {
        assert(dv.subrange(0, dv.len() as int) =~= dv);
    }
    let mut i: usize = 0;
    while i < entries.len()
        invariant
            i <= entries@.len(),
            dv == entries.deep_view(),
            dv.len() == entries@.len(),
            spec_lang_lookup(dv, key@) == spec_lang_lookup(
                dv.subrange(i as int, dv.len() as int),
                key@,
            ),
        decreases entries@.len() - i,
    {
        let ghost tail = dv.subrange(i as int, dv.len() as int);
        proof {
            assert(dv[i as int] == entries@[i as int].deep_view());
            assert(tail.len() > 0);
            assert(tail[0] == dv[i as int]);
            assert(tail.drop_first() =~= dv.subrange(i + 1 as int, dv.len() as int));
        }
        let pair = &entries[i];
        if pair.0 == *key {
            return Some(pair.1.clone());
        }
        i = i + 1;
    }
    proof {
        assert(dv.subrange(dv.len() as int, dv.len() as int).len() == 0);
    }
    None
}

/// Resolves one per-language field: the request language's value when
/// present, else the `"default"` value, else absence.
pub fn unwrap_language_field(field: &Option<LanguageField>, language: &String) -> (r: Option<
    String,
>)
    ensures
        (match r {
            Option::Some(v) => Some(v@),
            Option::None => None::<Seq<char>>,
        }) == spec_resolve_language_field(
            match *field {
                Option::Some(entries) => Some(entries.deep_view()),
                Option::None => None,
            },
            language@,
        ),
{
    match field {
        Some(entries) => {
            match lang_get(entries, language) {
                Some(value) => Some(value),
                None => lang_get(entries, &String::from_str("default")),
            }
        },
        None => None,
    }
}

fn clone_opt_string(o: &Option<String>) -> (r: Option<String>)
    ensures
        r == *o,
{
    match o {
        Some(s) => Some(s.clone()),
        None => None,
    }
}

fn clone_entries(v: &Vec<(String, String)>) -> (r: Vec<(String, String)>)
    ensures
        r@ == v@,
{
    let mut r: Vec<(String, String)> = Vec::new();
    let mut i: usize = 0;
    while i < v.len()
        invariant
            i <= v@.len(),
            r@ == v@.subrange(0, i as int),
        decreases v@.len() - i,
    {
        let pair = &v[i];
        r.push((pair.0.clone(), pair.1.clone()));
        proof {
            assert(r@ =~= v@.subrange(0, i + 1 as int));
        }
        i = i + 1;
    }
    proof {
        assert(r@ =~= v@);
    }
    r
}

fn clone_opt_entries(o: &Option<Vec<(String, String)>>) -> (r: Option<Vec<(String, String)>>)
    ensures
        match o {
            Option::Some(v) => r matches Some(rv) && rv@ == v@,
            Option::None => r is None,
        },
{
    match o {
        Some(v) => Some(clone_entries(v)),
        None => None,
    }
}

/// The view of an optional language field, for stating resolution.
pub open spec fn spec_opt_field_view(field: Option<LanguageField>) -> Option<
    Seq<(Seq<char>, Seq<char>)>,
> {
    match field {
        Option::Some(entries) => Some(entries.deep_view()),
        Option::None => None,
    }
}

/// The view of an optional string result, for stating resolution.
pub open spec fn spec_opt_string_view(r: Option<String>) -> Option<Seq<char>> {
    match r {
        Option::Some(v) => Some(v@),
        Option::None => None,
    }
}

/// The feature that shapes document `doc` for language `language`: the
/// scalar fields copied, each per-language field resolved, the extent
/// flattened corner by corner in order, and a point geometry in
/// `[lon, lat]` order.
pub open spec fn is_feature_of(
    f: PhotonResponseFeature,
    doc: PhotonDocument,
    language: Seq<char>,
) -> bool {
    &&& f.kind@ == "Feature"@
    &&& f.properties.parent_place_id == doc.parent_place_id
    &&& f.properties.place_id == doc.place_id
    &&& f.properties.osm_type@ == doc.osm_type@
    &&& f.properties.osm_id == doc.osm_id
    &&& f.properties.osm_key@ == doc.osm_key@
    &&& f.properties.osm_value@ == doc.osm_value@
    &&& f.properties.kind@ == doc.kind@
    &&& f.properties.postcode == doc.postcode
    &&& f.properties.housenumber == doc.housenumber
    &&& f.properties.countrycode == doc.countrycode
    &&& spec_opt_string_view(f.properties.name) == spec_resolve_language_field(
        spec_opt_field_view(doc.name),
        language,
    )
    &&& spec_opt_string_view(f.properties.country) == spec_resolve_language_field(
        spec_opt_field_view(doc.country),
        language,
    )
    &&& spec_opt_string_view(f.properties.city) == spec_resolve_language_field(
        spec_opt_field_view(doc.city),
        language,
    )
    &&& spec_opt_string_view(f.properties.district) == spec_resolve_language_field(
        spec_opt_field_view(doc.district),
        language,
    )
    &&& spec_opt_string_view(f.properties.locality) == spec_resolve_language_field(
        spec_opt_field_view(doc.locality),
        language,
    )
    &&& spec_opt_string_view(f.properties.street) == spec_resolve_language_field(
        spec_opt_field_view(doc.street),
        language,
    )
    &&& spec_opt_string_view(f.properties.state) == spec_resolve_language_field(
        spec_opt_field_view(doc.state),
        language,
    )
    &&& spec_opt_string_view(f.properties.county) == spec_resolve_language_field(
        spec_opt_field_view(doc.county),
        language,
    )
    &&& match doc.extent {
        Option::Some(e) => f.properties.extent matches Some(ext) && ext@ == seq![
            e.coordinates@[0]@[0],
            e.coordinates@[0]@[1],
            e.coordinates@[1]@[0],
            e.coordinates@[1]@[1],
        ],
        Option::None => f.properties.extent is None,
    }
    &&& match doc.extra {
        Option::Some(v) => f.properties.extra matches Some(rv) && rv@ == v@,
        Option::None => f.properties.extra is None,
    }
    &&& match doc.names {
        Option::Some(v) => f.properties.names matches Some(rv) && rv@ == v@,
        Option::None => f.properties.names is None,
    }
    &&& f.properties.geometry.kind@ == "Point"@
    &&& f.properties.geometry.coordinates@ == seq![doc.coordinate.lon, doc.coordinate.lat]
}

/// Every shaped feature is a GeoJSON point feature: its type is "Feature",
/// its geometry's type is "Point" and the coordinate pair is
/// `[lon, lat]` of the document.
pub proof fn lemma_feature_is_geojson_point(
    f: PhotonResponseFeature,
    doc: PhotonDocument,
    language: Seq<char>,
)
    requires
        is_feature_of(f, doc, language),
    ensures
        f.kind@ == "Feature"@,
        f.properties.geometry.kind@ == "Point"@,
        f.properties.geometry.coordinates@.len() == 2,
        f.properties.geometry.coordinates@[0] == doc.coordinate.lon,
        f.properties.geometry.coordinates@[1] == doc.coordinate.lat,
{
}

/// Shapes one document into a feature for the given language.
pub fn document_to_feature(doc: &PhotonDocument, language: &String) -> (r: PhotonResponseFeature)
    ensures
        is_feature_of(r, *doc, language@),
{
    let extent: Option<[i64; 4]> = match &doc.extent {
        Some(e) => Some(
            [e.coordinates[0][0], e.coordinates[0][1], e.coordinates[1][0], e.coordinates[1][1]],
        ),
        None => None,
    };
    let r = PhotonResponseFeature {
        kind: String::from_str("Feature"),
        properties: PhotonResponseProperties {
            parent_place_id: doc.parent_place_id,
            place_id: doc.place_id,
            osm_type: doc.osm_type.clone(),
            osm_id: doc.osm_id,
            osm_key: doc.osm_key.clone(),
            osm_value: doc.osm_value.clone(),
            kind: doc.kind.clone(),
            postcode: clone_opt_string(&doc.postcode),
            housenumber: clone_opt_string(&doc.housenumber),
            countrycode: clone_opt_string(&doc.countrycode),
            name: unwrap_language_field(&doc.name, language),
            country: unwrap_language_field(&doc.country, language),
            city: unwrap_language_field(&doc.city, language),
            district: unwrap_language_field(&doc.district, language),
            locality: unwrap_language_field(&doc.locality, language),
            street: unwrap_language_field(&doc.street, language),
            state: unwrap_language_field(&doc.state, language),
            county: unwrap_language_field(&doc.county, language),
            extent,
            extra: clone_opt_entries(&doc.extra),
            names: clone_opt_entries(&doc.names),
            geometry: PhotonGeometry {
                kind: String::from_str("Point"),
                coordinates: [doc.coordinate.lon, doc.coordinate.lat],
            },
        },
    };
    proof {
        if doc.extent is Some {
            let e = doc.extent->0;
            assert(r.properties.extent->0@ =~= seq![
                e.coordinates@[0]@[0],
                e.coordinates@[0]@[1],
                e.coordinates@[1]@[0],
                e.coordinates@[1]@[1],
            ]);
        }
        assert(r.properties.geometry.coordinates@ =~= seq![
            doc.coordinate.lon,
            doc.coordinate.lat,
        ]);
    }
    r
}

} // verus!
