//! Request validation: coordinate ranges, bounding-box well-formedness,
//! layer and language membership, and the all-or-none rule for location bias.
//! Validators return the first violation found.

use crate::address_type::address_types;
use crate::errors::ValidationError;
use crate::query::Envelope;
use crate::query::LocationBias;
use crate::query::Point;
use crate::request::PhotonReverseRequest;
use crate::request::PhotonSearchRequest;
use crate::text::str_eq;
use vstd::prelude::*;

verus! {

/// A longitude in micro-degrees lies in [-180, 180] degrees.
pub open spec fn lon_in_range(lon: i64) -> bool {
    -180000000 <= lon <= 180000000
}

/// A latitude in micro-degrees lies in [-90, 90] degrees.
pub open spec fn lat_in_range(lat: i64) -> bool {
    -90000000 <= lat <= 90000000
}

/// The names of the address-type registry, in registry order.
pub open spec fn spec_layer_names() -> Seq<Seq<char>> {
    seq![
        "house"@,
        "street"@,
        "locality"@,
        "district"@,
        "city"@,
        "county"@,
        "state"@,
        "country"@,
    ]
}

/// The layer name is one of the registry's names.
pub open spec fn is_valid_layer(name: Seq<char>) -> bool {
    spec_layer_names().contains(name)
}

/// Every requested layer is a registry name.
pub open spec fn layers_all_valid(layers: Seq<Seq<char>>) -> bool {
    forall|i: int| 0 <= i < layers.len() ==> is_valid_layer(layers[i])
}

/// The search request's optional coordinates are in range and its layers are
/// registry names.
pub open spec fn search_params_valid(request: PhotonSearchRequest) -> bool {
    &&& (request.lon matches Some(lon) ==> lon_in_range(lon))
    &&& (request.lat matches Some(lat) ==> lat_in_range(lat))
    &&& (request.layer matches Some(ls) ==> layers_all_valid(ls.deep_view()))
}

/// The reverse request's coordinates are in range and its layers are registry
/// names.
pub open spec fn reverse_params_valid(request: PhotonReverseRequest) -> bool {
    &&& lon_in_range(request.lon)
    &&& lat_in_range(request.lat)
    &&& (request.layer matches Some(ls) ==> layers_all_valid(ls.deep_view()))
}

fn validate_lon(lon: i64) -> (r: Result<(), ValidationError>)
    ensures
        r is Ok <==> lon_in_range(lon),
        r matches Err(e) ==> e == ValidationError::Lon(lon),
{
    if lon > 180000000 || lon < -180000000 {
        return Err(ValidationError::Lon(lon));
    }
    Ok(())
}

fn validate_lat(lat: i64) -> (r: Result<(), ValidationError>)
    ensures
        r is Ok <==> lat_in_range(lat),
        r matches Err(e) ==> e == ValidationError::Lat(lat),
{
    if lat > 90000000 || lat < -90000000 {
        return Err(ValidationError::Lat(lat));
    }
    Ok(())
}

/// The fault a layer list draws: the first name outside the registry,
/// together with the full list of registry names.
pub open spec fn is_layer_error(e: ValidationError, layers: Vec<String>) -> bool {
    &&& e matches ValidationError::Layer { value, valid }
    &&& valid.deep_view() == spec_layer_names()
    &&& exists|i: int|
        {
            &&& 0 <= i < layers@.len()
            &&& value@ == layers@[i]@
            &&& !is_valid_layer(layers@[i]@)
            &&& forall|j: int| 0 <= j < i ==> is_valid_layer(layers@[j]@)
        }
}

/// The fault the coordinate and layer checks of a search request draw, in
/// check order: the longitude, then the latitude, then the first unknown
/// layer.
pub open spec fn is_search_params_error(e: ValidationError, request: PhotonSearchRequest) -> bool {
    if request.lon matches Some(lon) && !lon_in_range(lon) {
        e == ValidationError::Lon(request.lon->0)
    } else if request.lat matches Some(lat) && !lat_in_range(lat) {
        e == ValidationError::Lat(request.lat->0)
    } else {
        request.layer matches Some(ls) && is_layer_error(e, ls)
    }
}

/// The fault the coordinate and layer checks of a reverse request draw, in
/// check order.
pub open spec fn is_reverse_params_error(e: ValidationError, request: PhotonReverseRequest) -> bool {
    if !lon_in_range(request.lon) {
        e == ValidationError::Lon(request.lon)
    } else if !lat_in_range(request.lat) {
        e == ValidationError::Lat(request.lat)
    } else {
        request.layer matches Some(ls) && is_layer_error(e, ls)
    }
}

/// The fault an unknown language draws: the value and the configured list.
pub open spec fn is_lang_error(e: ValidationError, language: Option<String>, valid: Vec<String>) -> bool {
    &&& e matches ValidationError::Lang { value, valid: vs }
    &&& language matches Some(lang) && value@ == lang@
    &&& vs.deep_view() == valid.deep_view()
}

/// Checks every requested layer against the registry names. On the first
/// unknown layer, fails with that value and the full list of valid names.
pub fn validate_layers(layers: &Vec<String>) -> (r: Result<(), ValidationError>)
    ensures
        r is Ok <==> layers_all_valid(layers.deep_view()),
        r matches Err(e) ==> is_layer_error(e, *layers),
{
    let types = address_types();
    let mut layer_names: Vec<String> = Vec::new();
    let mut t: usize = 0;
    while t < types.len()
        invariant
            t <= types@.len(),
            types@.len() == crate::address_type::spec_address_type_count(),
            forall|i: int|
                0 <= i < types@.len() ==> crate::address_type::is_registry_entry(types@[i], i),
            layer_names@.len() == t,
            forall|i: int| 0 <= i < t ==> layer_names@[i]@ == types@[i].name@,
        decreases types@.len() - t,
    {
        layer_names.push(String::from_str(types[t].name));
        t = t + 1;
    }
    proof {
        assert(layer_names.deep_view() =~= spec_layer_names());
    }

    let mut i: usize = 0;
    while i < layers.len()
        invariant
            i <= layers@.len(),
            layer_names@.len() == spec_layer_names().len(),
            forall|k: int| 0 <= k < layer_names@.len() ==> layer_names@[k]@ == spec_layer_names()[k],
            forall|k: int| 0 <= k < i ==> is_valid_layer(layers@[k]@),
        decreases layers@.len() - i,
    {
        let mut found = false;
        let mut n: usize = 0;
        while n < layer_names.len()
            invariant
                n <= layer_names@.len(),
                layer_names@.len() == spec_layer_names().len(),
                forall|k: int|
                    0 <= k < layer_names@.len() ==> layer_names@[k]@ == spec_layer_names()[k],
                i < layers@.len(),
                found <==> exists|k: int|
                    0 <= k < n && spec_layer_names()[k] == layers@[i as int]@,
            decreases layer_names@.len() - n,
        {
            if !found && str_eq(layer_names[n].as_str(), layers[i].as_str()) {
                found = true;
            }
            n = n + 1;
        }
        if !found {
            proof {
                assert(!is_valid_layer(layers@[i as int]@));
                assert(layers.deep_view()[i as int] == layers@[i as int]@);
                assert(!layers_all_valid(layers.deep_view()));
                assert forall|k: int|
                    0 <= k < layer_names@.len() implies layer_names.deep_view()[k]
                    == spec_layer_names()[k] by {
                    assert(layer_names.deep_view()[k] == layer_names@[k]@);
                }
                assert(layer_names.deep_view() =~= spec_layer_names());
            }
            return Err(
                ValidationError::Layer { value: layers[i].clone(), valid: layer_names },
            );
        }
        proof {
            assert(spec_layer_names().contains(layers@[i as int]@));
        }
        i = i + 1;
    }
    proof {
        assert(forall|k: int| 0 <= k < layers@.len() ==> layers.deep_view()[k] == layers@[k]@);
    }
    Ok(())
}

/// Validates a search request: each supplied coordinate must be in range and
/// each layer must be a registry name. Returns the first violation.
pub fn validate_search_request_parameters(request: &PhotonSearchRequest) -> (r: Result<
    (),
    ValidationError,
>)
    ensures
        r is Ok <==> search_params_valid(*request),
        r matches Err(e) ==> is_search_params_error(e, *request),
{
    if let Some(lon) = &request.lon {
        validate_lon(*lon)?;
    }
    if let Some(lat) = &request.lat {
        validate_lat(*lat)?;
    }
    if let Some(layers) = &request.layer {
        validate_layers(layers)?;
    }
    Ok(())
}

/// Validates a reverse request: both coordinates must be in range and each
/// layer must be a registry name. Returns the first violation.
pub fn validate_reverse_request_parameters(request: &PhotonReverseRequest) -> (r: Result<
    (),
    ValidationError,
>)
    ensures
        r is Ok <==> reverse_params_valid(*request),
        r matches Err(e) ==> is_reverse_params_error(e, *request),
{
    validate_lon(request.lon)?;
    validate_lat(request.lat)?;
    if let Some(layers) = &request.layer {
        validate_layers(layers)?;
    }
    Ok(())
}

/// Checks an optional language against the configured set; `None` passes. On
/// an unknown language, fails with the value and the full valid list.
pub fn validate_lang_parameter(language: &Option<String>, valid: &Vec<String>) -> (r: Result<
    (),
    ValidationError,
>)
    ensures
        r is Ok <==> match *language {
            Option::None => true,
            Option::Some(lang) => valid.deep_view().contains(lang@),
        },
        r matches Err(e) ==> is_lang_error(e, *language, *valid),
{
    if let Some(lang) = language {
        let mut i: usize = 0;
        while i < valid.len()
            invariant
                i <= valid@.len(),
                language matches Some(l) && l@ == lang@,
                forall|k: int| 0 <= k < i ==> valid@[k]@ != lang@,
            decreases valid@.len() - i,
        {
            if str_eq(valid[i].as_str(), lang.as_str()) {
                proof {
                    assert(valid.deep_view()[i as int] == lang@);
                    assert(valid.deep_view().contains(lang@));
                }
                return Ok(());
            }
            i = i + 1;
        }
        proof {
            assert(forall|k: int| 0 <= k < valid@.len() ==> valid.deep_view()[k] == valid@[k]@);
            assert(!valid.deep_view().contains(lang@));
        }
        return Err(
            ValidationError::Lang {
                value: lang.clone(),
                valid: crate::text::clone_string_vec(valid),
            },
        );
    }
    Ok(())
}

/// The box's coordinates are in range and its minima do not exceed its
/// maxima. The box is `[min_lon, min_lat, max_lon, max_lat]` in
/// micro-degrees.
pub open spec fn bbox_valid(b: [i64; 4]) -> bool {
    &&& lon_in_range(b@[0])
    &&& lon_in_range(b@[2])
    &&& lat_in_range(b@[1])
    &&& lat_in_range(b@[3])
    &&& b@[0] <= b@[2]
    &&& b@[1] <= b@[3]
}

/// Converts an accepted box into an `Envelope`; rejects a box whose
/// coordinates are out of range or whose minima exceed its maxima.
pub fn validate_bbox(bbox: &Option<[i64; 4]>) -> (r: Result<Option<Envelope>, ValidationError>)
    ensures
        match r {
            Result::Ok(env) => match env {
                Option::None => bbox is None,
                Option::Some(e) => {
                    &&& bbox matches Some(b)
                    &&& bbox_valid(*b)
                    &&& e.min_lon == b@[0]
                    &&& e.min_lat == b@[1]
                    &&& e.max_lon == b@[2]
                    &&& e.max_lat == b@[3]
                    &&& e.min_lon <= e.max_lon
                    &&& e.min_lat <= e.max_lat
                    &&& lon_in_range(e.min_lon) && lon_in_range(e.max_lon)
                    &&& lat_in_range(e.min_lat) && lat_in_range(e.max_lat)
                },
            },
            Result::Err(err) => {
                &&& bbox matches Some(b)
                &&& !bbox_valid(*b)
                &&& err == ValidationError::Bbox(*b)
            },
        },
{
    if let Some(bbox) = bbox {
        if bbox[0] > 180000000 || bbox[0] < -180000000 || bbox[2] > 180000000 || bbox[2]
            < -180000000 || bbox[1] < -90000000 || bbox[1] > 90000000 || bbox[3] < -90000000
            || bbox[3] > 90000000 || bbox[0] > bbox[2] || bbox[1] > bbox[3] {
            return Err(ValidationError::Bbox(*bbox));
        }
        return Ok(
            Some(
                Envelope {
                    min_lon: bbox[0],
                    min_lat: bbox[1],
                    max_lon: bbox[2],
                    max_lat: bbox[3],
                },
            ),
        );
    }
    Ok(None)
}

/// Builds a location bias only when all four of longitude, latitude, scale
/// and zoom are present; accepts none of them as no bias; any other mix is
/// the all-or-none violation.
pub fn validate_location_bias(
    lon: Option<i64>,
    lat: Option<i64>,
    scale: Option<u64>,
    zoom: Option<i64>,
) -> (r: Result<Option<LocationBias>, ValidationError>)
    ensures
        match r {
            Result::Ok(bias) => match bias {
                Option::Some(b) => {
                    &&& lon matches Some(x) && b.point.x == x
                    &&& lat matches Some(y) && b.point.y == y
                    &&& scale matches Some(s) && b.scale_nano == s
                    &&& zoom matches Some(z) && b.zoom == z
                },
                Option::None => lon is None && lat is None && scale is None && zoom is None,
            },
            Result::Err(e) => {
                &&& e == ValidationError::LocationBias
                &&& !(lon is Some && lat is Some && scale is Some && zoom is Some)
                &&& !(lon is None && lat is None && scale is None && zoom is None)
            },
        },
{
    match (lon, lat, scale, zoom) {
        (Some(lon), Some(lat), Some(scale), Some(zoom)) => Ok(
            Some(LocationBias { point: Point { x: lon, y: lat }, scale_nano: scale, zoom }),
        ),
        (None, None, None, None) => Ok(None),
        _ => Err(ValidationError::LocationBias),
    }
}

} // verus!
