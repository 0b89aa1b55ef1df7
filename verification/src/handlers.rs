//! Per-endpoint orchestration, up to the wire: validate the request, resolve
//! the language, shape the page size and build the query bodies. The caller
//! sends the plan's queries and feeds decoded hits back through the response
//! shaping.

use crate::elastic::shape_size;
use crate::elastic::spec_shaped_size;
use crate::errors::ValidationError;
use crate::query::build_reverse_query;
use crate::query::build_search_query;
use crate::query::bbox::Envelope;
use crate::query::location_bias::LocationBias;
use crate::query::location_bias::Point;
use crate::query::reverse::is_reverse_query;
use crate::query::search::is_search_query;
use crate::query::tree::SearchBody;
use crate::request::PhotonLookupRequest;
use crate::request::PhotonReverseRequest;
use crate::request::PhotonSearchRequest;
use crate::validation::bbox_valid;
use crate::validation::is_lang_error;
use crate::validation::is_reverse_params_error;
use crate::validation::is_search_params_error;
use crate::validation::reverse_params_valid;
use crate::validation::search_params_valid;
use crate::validation::validate_bbox;
use crate::validation::validate_lang_parameter;
use crate::validation::validate_location_bias;
use crate::validation::validate_reverse_request_parameters;
use crate::validation::validate_search_request_parameters;
use vstd::prelude::*;

verus! {

/// The language responses are resolved to: the request's language, or the
/// `default` sentinel when none was given.
pub open spec fn spec_request_language(lang: Option<String>) -> Seq<char> {
    match lang {
        Option::Some(l) => l@,
        Option::None => "default"@,
    }
}

/// The view of optional repeated parameters.
pub open spec fn spec_opt_tokens(o: Option<Vec<String>>) -> Option<Seq<Seq<char>>> {
    match o {
        Option::Some(v) => Some(v.deep_view()),
        Option::None => None,
    }
}

/// The location bias a search request denotes: present exactly when all four
/// of longitude, latitude, scale and zoom are.
pub open spec fn spec_bias_of(req: PhotonSearchRequest) -> Option<LocationBias> {
    match (req.lon, req.lat, req.location_bias_scale, req.zoom) {
        (Option::Some(x), Option::Some(y), Option::Some(s), Option::Some(z)) => Some(
            LocationBias { point: Point { x, y }, scale_nano: s, zoom: z },
        ),
        _ => None,
    }
}

/// The request supplied all four bias parts, or none of them.
pub open spec fn bias_arity_ok(req: PhotonSearchRequest) -> bool {
    ||| (req.lon is Some && req.lat is Some && req.location_bias_scale is Some && req.zoom is Some)
    ||| (req.lon is None && req.lat is None && req.location_bias_scale is None && req.zoom is None)
}

/// The envelope an accepted bounding box converts to.
pub open spec fn spec_envelope_of(bbox: Option<[i64; 4]>) -> Option<Envelope> {
    match bbox {
        Option::Some(b) => Some(
            Envelope { min_lon: b@[0], min_lat: b@[1], max_lon: b@[2], max_lat: b@[3] },
        ),
        Option::None => None,
    }
}

/// A search request passes every validator: coordinates in range, layers in
/// the registry, a configured language, the bias all-or-none rule, and a
/// well-formed bounding box.
pub open spec fn search_request_acceptable(
    req: PhotonSearchRequest,
    languages: Seq<Seq<char>>,
) -> bool {
    &&& search_params_valid(req)
    &&& (req.lang matches Some(l) ==> languages.contains(l@))
    &&& bias_arity_ok(req)
    &&& (req.bbox matches Some(b) ==> bbox_valid(b))
}

/// A reverse request passes every validator.
pub open spec fn reverse_request_acceptable(
    req: PhotonReverseRequest,
    languages: Seq<Seq<char>>,
) -> bool {
    &&& reverse_params_valid(req)
    &&& (req.lang matches Some(l) ==> languages.contains(l@))
}

/// The fault a search request draws, in check order: the coordinate and
/// layer checks, then the language check, then the bias all-or-none rule,
/// then the bounding box.
pub open spec fn is_search_error(
    e: ValidationError,
    req: PhotonSearchRequest,
    languages: Vec<String>,
) -> bool {
    if !search_params_valid(req) {
        is_search_params_error(e, req)
    } else if req.lang matches Some(l) && !languages.deep_view().contains(l@) {
        is_lang_error(e, req.lang, languages)
    } else if !bias_arity_ok(req) {
        e == ValidationError::LocationBias
    } else {
        req.bbox matches Some(b) && !bbox_valid(b) && e == ValidationError::Bbox(b)
    }
}

/// The fault a reverse request draws, in check order: the coordinate and
/// layer checks, then the language check.
pub open spec fn is_reverse_error(
    e: ValidationError,
    req: PhotonReverseRequest,
    languages: Vec<String>,
) -> bool {
    if !reverse_params_valid(req) {
        is_reverse_params_error(e, req)
    } else {
        req.lang matches Some(l) && !languages.deep_view().contains(l@) && is_lang_error(
            e,
            req.lang,
            languages,
        )
    }
}

/// The requested limit, ten when unspecified.
pub open spec fn spec_limit_or_default(limit: Option<i64>) -> int {
    match limit {
        Option::Some(l) => l as int,
        Option::None => 10,
    }
}

/// Everything one search request needs up to the wire: the strict and the
/// lenient attempt, the backend page size and the resolved language.
pub struct SearchPlan {
    pub strict: SearchBody,
    pub lenient: SearchBody,
    pub size: i64,
    pub language: String,
}

/// Validates a search request and builds both attempts: the strict body, and
/// the lenient body to send when the strict attempt returns no features.
pub fn prepare_search(req: &PhotonSearchRequest, languages: &Vec<String>) -> (r: Result<
    SearchPlan,
    ValidationError,
>)
    requires
        languages@.len() > 0,
        req.limit matches Some(l) ==> (l > 1 ==> l <= (i64::MAX - 1) / 3),
    ensures
        r is Ok <==> search_request_acceptable(*req, languages.deep_view()),
        r matches Err(e) ==> is_search_error(e, *req, *languages),
        r matches Ok(plan) ==> {
            &&& plan.language@ == spec_request_language(req.lang)
            &&& plan.size == spec_shaped_size(spec_limit_or_default(req.limit))
            &&& is_search_query(
                plan.strict,
                req.q@,
                spec_request_language(req.lang),
                languages.deep_view(),
                false,
                spec_opt_tokens(req.osm_tag),
                spec_envelope_of(req.bbox),
                spec_opt_tokens(req.layer),
                spec_bias_of(*req),
            )
            &&& is_search_query(
                plan.lenient,
                req.q@,
                spec_request_language(req.lang),
                languages.deep_view(),
                true,
                spec_opt_tokens(req.osm_tag),
                spec_envelope_of(req.bbox),
                spec_opt_tokens(req.layer),
                spec_bias_of(*req),
            )
        },
{
    validate_search_request_parameters(req)?;
    validate_lang_parameter(&req.lang, languages)?;
    let location_bias = validate_location_bias(
        req.lon,
        req.lat,
        req.location_bias_scale,
        req.zoom,
    )?;
    let envelope = validate_bbox(&req.bbox)?;
    let language = match &req.lang {
        Some(l) => l.clone(),
        None => String::from_str("default"),
    };
    let limit = match req.limit {
        Some(l) => l,
        None => 10,
    };
    let size = shape_size(limit);
    let strict = build_search_query(
        &req.q,
        &language,
        languages,
        false,
        &req.osm_tag,
        &envelope,
        &req.layer,
        &location_bias,
    );
    let lenient = build_search_query(
        &req.q,
        &language,
        languages,
        true,
        &req.osm_tag,
        &envelope,
        &req.layer,
        &location_bias,
    );
    Ok(SearchPlan { strict, lenient, size, language })
}

/// Whether the sort was asked for: true when unspecified.
pub open spec fn spec_distance_sort(o: Option<bool>) -> bool {
    match o {
        Option::Some(b) => b,
        Option::None => true,
    }
}

/// Everything one reverse request needs up to the wire.
pub struct ReversePlan {
    pub query: SearchBody,
    pub size: i64,
    pub language: String,
}

/// Validates a reverse request and builds its body. The limit passes through
/// unshaped, and the distance sort defaults to on.
pub fn prepare_reverse(req: &PhotonReverseRequest, languages: &Vec<String>) -> (r: Result<
    ReversePlan,
    ValidationError,
>)
    ensures
        r is Ok <==> reverse_request_acceptable(*req, languages.deep_view()),
        r matches Err(e) ==> is_reverse_error(e, *req, *languages),
        r matches Ok(plan) ==> {
            &&& plan.language@ == spec_request_language(req.lang)
            &&& plan.size == spec_limit_or_default(req.limit)
            &&& is_reverse_query(
                plan.query,
                req.lat,
                req.lon,
                req.radius,
                match req.query_string_filter {
                    Option::Some(s) => Some(s@),
                    Option::None => None,
                },
                spec_distance_sort(req.distance_sort),
                spec_opt_tokens(req.layer),
                spec_opt_tokens(req.osm_tag),
            )
        },
{
    validate_reverse_request_parameters(req)?;
    validate_lang_parameter(&req.lang, languages)?;
    let language = match &req.lang {
        Some(l) => l.clone(),
        None => String::from_str("default"),
    };
    let size = match req.limit {
        Some(l) => l,
        None => 10,
    };
    let distance_sort = match req.distance_sort {
        Some(b) => b,
        None => true,
    };
    let query = build_reverse_query(
        req.lat,
        req.lon,
        req.radius,
        &req.query_string_filter,
        distance_sort,
        &req.layer,
        &req.osm_tag,
    );
    Ok(ReversePlan { query, size, language })
}

/// Everything one lookup request needs up to the wire.
pub struct LookupPlan {
    pub place_id: String,
    pub language: String,
}

/// Validates a lookup request's language and resolves it.
pub fn prepare_lookup(req: &PhotonLookupRequest, languages: &Vec<String>) -> (r: Result<
    LookupPlan,
    ValidationError,
>)
    ensures
        r is Ok <==> (req.lang matches Some(l) ==> languages.deep_view().contains(l@)),
        r matches Err(e) ==> is_lang_error(e, req.lang, *languages),
        r matches Ok(plan) ==> {
            &&& plan.place_id@ == req.place_id@
            &&& plan.language@ == spec_request_language(req.lang)
        },
{
    validate_lang_parameter(&req.lang, languages)?;
    let language = match &req.lang {
        Some(l) => l.clone(),
        None => String::from_str("default"),
    };
    Ok(LookupPlan { place_id: req.place_id.clone(), language })
}

} // verus!
