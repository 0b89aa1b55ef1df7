//! Location-biased scoring: wraps a ranked query in a function-score layer
//! whose geographic decay favours documents near a user-supplied point, with
//! strength scaled by map zoom.

use crate::query::tree::BoostMode;
use crate::query::tree::GeoPoint;
use crate::query::tree::QueryTree;
use crate::query::tree::ScoreFunction;
use crate::query::tree::ScoreMode;
use vstd::prelude::*;

verus! {

/// A point in micro-degrees: `x` is the longitude, `y` the latitude.
pub struct Point {
    pub x: i64,
    pub y: i64,
}

/// A fully populated location bias: the point, the importance-decay scale in
/// nano units, and the map zoom. Built only when all four of longitude,
/// latitude, scale and zoom were supplied.
pub struct LocationBias {
    pub point: Point,
    /// Importance-decay scale in nano units (1000000000 = 1.0).
    pub scale_nano: u64,
    pub zoom: i64,
}

/// The smallest scale the bias ever uses: 0.0000001 in nano units.
pub open spec fn spec_min_scale_nano() -> u64 {
    100
}

/// The requested scale, clamped up to the minimum.
pub open spec fn spec_clamped_scale_nano(scale: u64) -> u64 {
    if scale < spec_min_scale_nano() {
        spec_min_scale_nano()
    } else {
        scale
    }
}

/// The geographic decay radius in kilometers for a zoom level of at least 4:
/// a quarter of 2 to the power of (18 minus the zoom), with zoom capped at 18.
pub open spec fn spec_bias_radius_km(zoom: i64) -> u64
    recommends
        4 <= zoom,
{
    (1u64 << ((18 - (if zoom > 18 {
        18i64
    } else {
        zoom
    })) as u64)) / 4
}

/// The bias wrapper around `inner` for bias `b`: an exponential geographic
/// decay (rate 0.8, offset a tenth of the radius) and a linear importance
/// decay from origin 1.0 at the clamped scale, multiplied into the inner
/// score, taking the larger of the two functions.
pub open spec fn is_location_bias_query(t: QueryTree, b: LocationBias, inner: QueryTree) -> bool {
    &&& t matches QueryTree::FunctionScore {
        query,
        functions,
        score_mode,
        boost_mode,
        boost_milli,
    }
    &&& query matches Some(q) && *q == inner
    &&& is_location_bias_parts(functions@, score_mode, boost_mode, boost_milli, b)
}

/// The function list and modes of the bias wrapper, apart from the wrapped
/// query itself.
pub open spec fn is_location_bias_parts(
    functions: Seq<ScoreFunction>,
    score_mode: Option<ScoreMode>,
    boost_mode: Option<BoostMode>,
    boost_milli: Option<u64>,
    b: LocationBias,
) -> bool {
    &&& functions.len() == 2
    &&& functions[0] matches ScoreFunction::ExpDecayGeo {
        field,
        origin,
        scale_km,
        offset_km,
        decay_milli,
    }
    &&& field@ == "coordinate"@
    &&& origin.lon == b.point.x
    &&& origin.lat == b.point.y
    &&& scale_km == spec_bias_radius_km(b.zoom)
    &&& offset_km == spec_bias_radius_km(b.zoom) / 10
    &&& decay_milli == 800
    &&& functions[1] matches ScoreFunction::LinearDecay { field: f1, origin_nano, scale_nano }
    &&& f1@ == "importance"@
    &&& origin_nano == 1000000000
    &&& scale_nano == spec_clamped_scale_nano(b.scale_nano)
    &&& score_mode == Some(ScoreMode::Max)
    &&& boost_mode == Some(BoostMode::Multiply)
    &&& boost_milli is None
}

fn build_location_bias_query(bias: &LocationBias, inner: QueryTree) -> (t: QueryTree)
    requires
        4 <= bias.zoom,
    ensures
        is_location_bias_query(t, *bias, inner),
{
    let capped_zoom: i64 = if bias.zoom > 18 {
        18
    } else {
        bias.zoom
    };
    let radius: u64 = (1u64 << ((18 - capped_zoom) as u64)) / 4;
    let scale: u64 = if bias.scale_nano < 100 {
        100
    } else {
        bias.scale_nano
    };
    let mut functions: Vec<ScoreFunction> = Vec::new();
    functions.push(
        ScoreFunction::ExpDecayGeo {
            field: String::from_str("coordinate"),
            origin: GeoPoint { lon: bias.point.x, lat: bias.point.y },
            scale_km: radius,
            offset_km: radius / 10,
            decay_milli: 800,
        },
    );
    functions.push(
        ScoreFunction::LinearDecay {
            field: String::from_str("importance"),
            origin_nano: 1000000000,
            scale_nano: scale,
        },
    );
    QueryTree::FunctionScore {
        query: Some(Box::new(inner)),
        functions,
        score_mode: Some(ScoreMode::Max),
        boost_mode: Some(BoostMode::Multiply),
        boost_milli: None,
    }
}

/// Wraps `query` in the location-bias layer when a bias is present and its
/// zoom is at least 4; otherwise hands `query` back unchanged.
pub fn add_location_bias(query: QueryTree, bias: &Option<LocationBias>) -> (r: QueryTree)
    ensures
        match bias {
            Option::Some(b) => if b.zoom >= 4 {
                is_location_bias_query(r, *b, query)
            } else {
                r == query
            },
            Option::None => r == query,
        },
{
    match bias {
        Some(b) => {
            if b.zoom < 4 {
                return query;
            }
            build_location_bias_query(b, query)
        },
        None => query,
    }
}

} // verus!
