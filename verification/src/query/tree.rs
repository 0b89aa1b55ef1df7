//! A backend-agnostic query tree. The builders compose values of these types;
//! rendering the tree into the backend's wire format is a separate leaf step
//! outside the library.
//!
//! Score factors (boosts, weights, decay rates, tie breakers) are fixed-point
//! milli units (1000 = 1.0); decay origins and scales over numeric fields are
//! nano units (1000000000 = 1.0); coordinates are micro-degrees.

use vstd::prelude::*;

verus! {

/// How a multi-field text query combines per-field scores.
pub enum TextMatchType {
    BestFields,
    CrossFields,
}

/// Edit-distance tolerance of a text match.
pub enum Fuzziness {
    Auto,
    Distance(u64),
}

/// How the scores of several functions combine in a function-score query.
pub enum ScoreMode {
    Sum,
    Max,
}

/// How a function-score query's score combines with its inner query's score.
pub enum BoostMode {
    Multiply,
}

/// Sort direction.
pub enum SortOrder {
    Asc,
    Desc,
}

/// One field of a multi-field text query, with its boost in milli units.
pub struct FieldBoost {
    pub name: String,
    pub boost_milli: u64,
}

/// A point on the globe in micro-degrees.
pub struct GeoPoint {
    /// Longitude in micro-degrees.
    pub lon: i64,
    /// Latitude in micro-degrees.
    pub lat: i64,
}

/// A scoring function inside a function-score query.
pub enum ScoreFunction {
    /// Linear decay over a numeric field; origin and scale in nano units.
    LinearDecay { field: String, origin_nano: u64, scale_nano: u64 },
    /// Exponential decay over a geo field; scale and offset in kilometers,
    /// decay rate in milli units.
    ExpDecayGeo { field: String, origin: GeoPoint, scale_km: u64, offset_km: u64, decay_milli: u64 },
    /// A constant weight in milli units, optionally gated by a filter.
    Weight { weight_milli: u64, filter: Option<Box<QueryTree>> },
}

/// A boolean combination of sub-queries.
pub struct BoolNode {
    pub must: Vec<QueryTree>,
    pub should: Vec<QueryTree>,
    pub must_not: Vec<QueryTree>,
    pub filter: Vec<QueryTree>,
    pub minimum_should_match: Option<i64>,
}

/// One node of the query tree.
pub enum QueryTree {
    Bool(BoolNode),
    /// An exact term over one field.
    Term { field: String, value: String },
    /// Membership of one field's value in a list.
    Terms { field: String, values: Vec<String> },
    /// An analyzed text match over one field; boost in milli units.
    MatchText {
        field: String,
        query: String,
        analyzer: Option<String>,
        fuzziness: Option<Fuzziness>,
        boost_milli: Option<u64>,
    },
    /// An analyzed text match over several boosted fields.
    MultiMatch {
        fields: Vec<FieldBoost>,
        query: String,
        match_type: TextMatchType,
        prefix_length: Option<u64>,
        analyzer: Option<String>,
        tie_breaker_milli: Option<u64>,
        minimum_should_match: Option<String>,
        fuzziness: Option<Fuzziness>,
        boost_milli: Option<u64>,
    },
    /// Rescoring of an inner query by scoring functions; boost in milli units.
    FunctionScore {
        query: Option<Box<QueryTree>>,
        functions: Vec<ScoreFunction>,
        score_mode: Option<ScoreMode>,
        boost_mode: Option<BoostMode>,
        boost_milli: Option<u64>,
    },
    /// The field is present on the document.
    Exists { field: String },
    /// Containment in a geographic box; edges in micro-degrees, named as the
    /// backend names its parameters.
    GeoBoundingBox { field: String, top: i64, left: i64, bottom: i64, right: i64 },
    /// Distance of a geo field from a point, at most `radius_km` kilometers.
    GeoDistance { field: String, lat: i64, lon: i64, radius_km: u64 },
    /// The backend's free-form query-string syntax.
    QueryString { query: String },
    /// Matches every document.
    MatchAll,
}

/// An ascending or descending sort by distance from a point.
pub struct GeoDistanceSort {
    pub field: String,
    /// Latitude of the sort origin in micro-degrees.
    pub lat: i64,
    /// Longitude of the sort origin in micro-degrees.
    pub lon: i64,
    pub order: SortOrder,
}

/// A complete search body: the query and an optional sort.
pub struct SearchBody {
    pub query: QueryTree,
    pub sort: Option<GeoDistanceSort>,
}

/// An empty boolean node: no clauses of any kind.
pub open spec fn spec_bool_is_empty(b: BoolNode) -> bool {
    &&& b.must@.len() == 0
    &&& b.should@.len() == 0
    &&& b.must_not@.len() == 0
    &&& b.filter@.len() == 0
    &&& b.minimum_should_match is None
}

/// A fresh boolean node with no clauses.
pub fn empty_bool() -> (b: BoolNode)
    ensures
        spec_bool_is_empty(b),
{
    BoolNode {
        must: Vec::new(),
        should: Vec::new(),
        must_not: Vec::new(),
        filter: Vec::new(),
        minimum_should_match: None,
    }
}

} // verus!
