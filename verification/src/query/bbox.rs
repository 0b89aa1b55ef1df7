//! Geographic bounding-box filtering. A validated box becomes a geo filter
//! whose edge names follow the backend's parameter order: `top` takes the
//! minimum latitude and `bottom` the maximum, kept as observed behaviour.

use crate::query::tree::BoolNode;
use crate::query::tree::QueryTree;
use vstd::prelude::*;

verus! {

/// A validated geographic bounding box in micro-degrees.
pub struct Envelope {
    pub min_lon: i64,
    pub min_lat: i64,
    pub max_lon: i64,
    pub max_lat: i64,
}

/// The box filter over the `coordinate` field for envelope `e`:
/// `top = min_lat`, `left = min_lon`, `bottom = max_lat`, `right = max_lon`.
pub open spec fn is_bbox_query(t: QueryTree, e: Envelope) -> bool {
    &&& t matches QueryTree::GeoBoundingBox { field, top, left, bottom, right }
    &&& field@ == "coordinate"@
    &&& top == e.min_lat
    &&& left == e.min_lon
    &&& bottom == e.max_lat
    &&& right == e.max_lon
}

fn build_bbox_query(bbox: &Envelope) -> (t: QueryTree)
    ensures
        is_bbox_query(t, *bbox),
{
    QueryTree::GeoBoundingBox {
        field: String::from_str("coordinate"),
        top: bbox.min_lat,
        left: bbox.min_lon,
        bottom: bbox.max_lat,
        right: bbox.max_lon,
    }
}

/// Appends the box filter to the boolean node's `filter` clauses when a box
/// is present; otherwise leaves the node unchanged.
pub fn add_bounding_box_filter(bbox: &Option<Envelope>, query: BoolNode) -> (r: BoolNode)
    ensures
        r.must@ == query.must@,
        r.should@ == query.should@,
        r.must_not@ == query.must_not@,
        r.minimum_should_match == query.minimum_should_match,
        match bbox {
            Option::None => r.filter@ == query.filter@,
            Option::Some(e) => r.filter@.len() == query.filter@.len() + 1 && r.filter@.subrange(
                0,
                query.filter@.len() as int,
            ) == query.filter@ && is_bbox_query(r.filter@.last(), *e),
        },
{
    match bbox {
        Some(envelope) => {
            let bbox_query = build_bbox_query(envelope);
            let mut r = query;
            r.filter.push(bbox_query);
            proof {
                assert(r.filter@.subrange(0, r.filter@.len() - 1) =~= query.filter@);
            }
            r
        },
        None => query,
    }
}

} // verus!
