//! Request records for the three endpoints. Coordinates are fixed-point
//! micro-degrees; the location-bias scale is in nano units.

use vstd::prelude::*;

verus! {

/// Free-text search request. `bbox` is `[min_lon, min_lat, max_lon, max_lat]`
/// in micro-degrees; `osm_tag` and `layer` accumulate repeated parameters.
pub struct PhotonSearchRequest {
    pub q: String,
    pub lang: Option<String>,
    /// Longitude in micro-degrees.
    pub lon: Option<i64>,
    /// Latitude in micro-degrees.
    pub lat: Option<i64>,
    pub limit: Option<i64>,
    /// Location-bias scale in nano units (1 = 0.000000001).
    pub location_bias_scale: Option<u64>,
    /// `[min_lon, min_lat, max_lon, max_lat]` in micro-degrees.
    pub bbox: Option<[i64; 4]>,
    pub zoom: Option<i64>,
    pub osm_tag: Option<Vec<String>>,
    pub layer: Option<Vec<String>>,
    pub debug: Option<bool>,
}

/// Reverse geocoding request. `radius` is in kilometers.
pub struct PhotonReverseRequest {
    pub lang: Option<String>,
    /// Longitude in micro-degrees.
    pub lon: i64,
    /// Latitude in micro-degrees.
    pub lat: i64,
    /// Search radius in kilometers.
    pub radius: u64,
    pub query_string_filter: Option<String>,
    pub distance_sort: Option<bool>,
    pub limit: Option<i64>,
    pub osm_tag: Option<Vec<String>>,
    pub layer: Option<Vec<String>>,
    pub debug: Option<bool>,
}

/// Direct lookup of one place by its identifier.
pub struct PhotonLookupRequest {
    pub place_id: String,
    pub lang: Option<String>,
}

} // verus!
