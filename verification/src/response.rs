//! The GeoJSON-shaped response records. Coordinates are `[lon, lat]` in
//! micro-degrees; rendering to the wire format happens outside the library.

use vstd::prelude::*;

verus! {

/// A GeoJSON point geometry: `kind` is always "Point" and the
/// coordinates are `[lon, lat]` in micro-degrees.
pub struct PhotonGeometry {
    pub kind: String,
    pub coordinates: [i64; 2],
}

/// The properties of one feature: the document's scalar fields, its
/// per-language fields resolved to the request language, the flattened
/// extent and the point geometry.
pub struct PhotonResponseProperties {
    pub parent_place_id: Option<i64>,
    pub place_id: i64,
    pub osm_type: String,
    pub osm_id: i64,
    pub osm_key: String,
    pub osm_value: String,
    pub kind: String,
    pub postcode: Option<String>,
    pub housenumber: Option<String>,
    pub countrycode: Option<String>,
    pub name: Option<String>,
    pub country: Option<String>,
    pub city: Option<String>,
    pub district: Option<String>,
    pub locality: Option<String>,
    pub street: Option<String>,
    pub state: Option<String>,
    pub county: Option<String>,
    /// `[min_lon, min_lat, max_lon, max_lat]` in micro-degrees, flattened
    /// from the document's two corner points.
    pub extent: Option<[i64; 4]>,
    pub extra: Option<Vec<(String, String)>>,
    pub names: Option<Vec<(String, String)>>,
    pub geometry: PhotonGeometry,
}

/// One GeoJSON feature: `kind` is always "Feature".
pub struct PhotonResponseFeature {
    pub kind: String,
    pub properties: PhotonResponseProperties,
}

/// A GeoJSON feature collection: `kind` is always "FeatureCollection".
pub struct PhotonResponse {
    pub kind: String,
    pub features: Vec<PhotonResponseFeature>,
}

} // verus!
