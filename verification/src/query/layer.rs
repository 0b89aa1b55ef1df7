//! Layer filtering: restricts results to documents whose `type` field is one
//! of the requested layer names.

use crate::query::tree::BoolNode;
use crate::query::tree::QueryTree;
use crate::text::clone_string_vec;
use vstd::prelude::*;

verus! {

/// The layer filter: membership of the document's `type` in `layers`.
pub open spec fn is_layer_query(t: QueryTree, layers: Seq<Seq<char>>) -> bool {
    &&& t matches QueryTree::Terms { field, values }
    &&& field@ == "type"@
    &&& values.deep_view() == layers
}

/// Builds the membership filter over the document `type` field.
pub fn build_layer_filter_query(filters: &Vec<String>) -> (t: QueryTree)
    ensures
        is_layer_query(t, filters.deep_view()),
{
    QueryTree::Terms { field: String::from_str("type"), values: clone_string_vec(filters) }
}

/// Appends the layer filter to the boolean node's `filter` clauses when
/// layers were requested; otherwise leaves the node unchanged.
pub fn add_layer_filter(layers: &Option<Vec<String>>, query: BoolNode) -> (r: BoolNode)
    ensures
        r.must@ == query.must@,
        r.should@ == query.should@,
        r.must_not@ == query.must_not@,
        r.minimum_should_match == query.minimum_should_match,
        match layers {
            Option::None => r.filter@ == query.filter@,
            Option::Some(ls) => r.filter@.len() == query.filter@.len() + 1 && r.filter@.subrange(
                0,
                query.filter@.len() as int,
            ) == query.filter@ && is_layer_query(r.filter@.last(), ls.deep_view()),
        },
{
    match layers {
        Some(ls) => {
            let layer_query = build_layer_filter_query(ls);
            let mut r = query;
            r.filter.push(layer_query);
            proof {
                assert(r.filter@.subrange(0, r.filter@.len() - 1) =~= query.filter@);
            }
            r
        },
        None => query,
    }
}

} // verus!
