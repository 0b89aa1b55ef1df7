//! The pure half of dispatching: shaping the backend page size, deciding the
//! lenient retry, and turning decoded hits into a feature collection. Sending
//! the request over the wire happens outside the library.

use crate::doc::document_to_feature;
use crate::doc::is_feature_of;
use crate::doc::PhotonDocument;
use crate::response::PhotonResponse;
use crate::response::PhotonResponseFeature;
use vstd::prelude::*;

verus! {

/// The fixed backend index every request goes against.
pub const PHOTON_INDEX: &'static str = "photon";

/// The page size sent to the backend: a limit above one is inflated by half,
/// rounded half away from zero, to give downstream re-ranking headroom.
pub open spec fn spec_shaped_size(limit: int) -> int {
    if limit > 1 {
        (3 * limit + 1) / 2
    } else {
        limit
    }
}

/// Shapes the requested limit into the backend page size: `limit` itself up
/// to one, else `round(limit * 1.5)`.
pub fn shape_size(limit: i64) -> (size: i64)
    requires
        limit > 1 ==> limit <= (i64::MAX - 1) / 3,
    ensures
        size == spec_shaped_size(limit as int),
{
    if limit > 1 {
        (3 * limit + 1) / 2
    } else {
        limit
    }
}

/// The lenient second attempt is issued exactly when the first attempt
/// returned no features.
pub fn search_should_retry(first: &PhotonResponse) -> (r: bool)
    ensures
        r == (first.features@.len() == 0),
{
    first.features.len() == 0
}

/// The documents of the hits that carried one, in order.
pub open spec fn spec_present_docs(sources: Seq<Option<PhotonDocument>>) -> Seq<PhotonDocument>
    decreases sources.len(),
{
    if sources.len() == 0 {
        Seq::<PhotonDocument>::empty()
    } else {
        let rest = spec_present_docs(sources.drop_last());
        match sources.last() {
            Option::Some(doc) => rest.push(doc),
            Option::None => rest,
        }
    }
}

/// Wraps decoded hits as a feature collection: hits without a document are
/// dropped, the rest are shaped in order for the resolved language.
pub fn hits_to_response(sources: Vec<Option<PhotonDocument>>, language: &String) -> (r:
    PhotonResponse)
    ensures
        r.kind@ == "FeatureCollection"@,
        ({
            let docs = spec_present_docs(sources@);
            &&& r.features@.len() == docs.len()
            &&& forall|i: int|
                0 <= i < docs.len() ==> is_feature_of(#[trigger] r.features@[i], docs[i], language@)
        }),
{
    let mut features: Vec<PhotonResponseFeature> = Vec::new();
    proof {
        assert(sources@.subrange(0, 0) =~= Seq::<Option<PhotonDocument>>::empty());
    }
    let mut i: usize = 0;
    while i < sources.len()
        invariant
            i <= sources@.len(),
            ({
                let docs = spec_present_docs(sources@.subrange(0, i as int));
                &&& features@.len() == docs.len()
                &&& forall|k: int|
                    0 <= k < docs.len() ==> is_feature_of(
                        #[trigger] features@[k],
                        docs[k],
                        language@,
                    )
            }),
        decreases sources@.len() - i,
    {
        proof {
            let prefix1 = sources@.subrange(0, i + 1 as int);
            assert(prefix1.drop_last() =~= sources@.subrange(0, i as int));
            assert(prefix1.last() == sources@[i as int]);
        }
        match &sources[i] {
            Some(doc) => {
                features.push(document_to_feature(doc, language));
            },
            None => {},
        }
        i = i + 1;
    }
    proof {
        assert(sources@.subrange(0, sources@.len() as int) =~= sources@);
    }
    PhotonResponse { kind: String::from_str("FeatureCollection"), features }
}

/// Wraps a lookup result: one shaped feature when the backend knew the
/// identifier, an empty collection when it did not.
pub fn lookup_response(source: Option<PhotonDocument>, language: &String) -> (r: PhotonResponse)
    ensures
        r.kind@ == "FeatureCollection"@,
        match source {
            Option::Some(doc) => r.features@.len() == 1 && is_feature_of(
                r.features@[0],
                doc,
                language@,
            ),
            Option::None => r.features@.len() == 0,
        },
{
    let features: Vec<PhotonResponseFeature> = match &source {
        Some(doc) => {
            let mut v: Vec<PhotonResponseFeature> = Vec::new();
            v.push(document_to_feature(doc, language));
            v
        },
        None => Vec::new(),
    };
    PhotonResponse { kind: String::from_str("FeatureCollection"), features }
}

} // verus!
