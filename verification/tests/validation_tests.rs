use photon_gateway::errors::ValidationError;
use photon_gateway::request::PhotonReverseRequest;
use photon_gateway::request::PhotonSearchRequest;
use photon_gateway::validation::validate_bbox;
use photon_gateway::validation::validate_lang_parameter;
use photon_gateway::validation::validate_layers;
use photon_gateway::validation::validate_location_bias;
use photon_gateway::validation::validate_reverse_request_parameters;
use photon_gateway::validation::validate_search_request_parameters;
use photon_gateway::errors::PhotonError;

fn search_request(lon: Option<i64>, lat: Option<i64>) -> PhotonSearchRequest {
    PhotonSearchRequest {
        q: "berlin".to_string(),
        lang: None,
        lon,
        lat,
        limit: None,
        location_bias_scale: None,
        bbox: None,
        zoom: None,
        osm_tag: None,
        layer: None,
        debug: None,
    }
}

#[test]
fn boundary_longitudes_are_accepted() {
    assert!(validate_search_request_parameters(&search_request(Some(180_000_000), None)).is_ok());
    assert!(validate_search_request_parameters(&search_request(Some(-180_000_000), None)).is_ok());
    assert!(validate_search_request_parameters(&search_request(None, Some(90_000_000))).is_ok());
    assert!(validate_search_request_parameters(&search_request(None, Some(-90_000_000))).is_ok());
}

#[test]
fn longitude_just_outside_the_range_is_rejected() {
    // 180.0001 degrees in micro-degrees.
    let r = validate_search_request_parameters(&search_request(Some(180_000_100), None));
    match r {
        Err(ValidationError::Lon(v)) => assert_eq!(v, 180_000_100),
        _ => panic!("expected a longitude error"),
    }
}

#[test]
fn latitude_out_of_range_is_rejected() {
    let r = validate_search_request_parameters(&search_request(None, Some(90_000_100)));
    assert!(matches!(r, Err(ValidationError::Lat(90_000_100))));
}

#[test]
fn reverse_requires_both_coordinates_in_range() {
    let req = PhotonReverseRequest {
        lang: None,
        lon: 13_400_000,
        lat: 52_500_000,
        radius: 3,
        query_string_filter: None,
        distance_sort: None,
        limit: None,
        osm_tag: None,
        layer: None,
        debug: None,
    };
    assert!(validate_reverse_request_parameters(&req).is_ok());
    let bad = PhotonReverseRequest { lon: -180_000_001, ..req };
    assert!(matches!(
        validate_reverse_request_parameters(&bad),
        Err(ValidationError::Lon(-180_000_001))
    ));
}

#[test]
fn accepted_bbox_becomes_an_envelope() {
    let bbox = Some([13_000_000, 52_000_000, 14_000_000, 53_000_000]);
    let env = validate_bbox(&bbox).unwrap().unwrap();
    assert_eq!(env.min_lon, 13_000_000);
    assert_eq!(env.min_lat, 52_000_000);
    assert_eq!(env.max_lon, 14_000_000);
    assert_eq!(env.max_lat, 53_000_000);
    assert!(env.min_lon <= env.max_lon);
    assert!(env.min_lat <= env.max_lat);
}

#[test]
fn bbox_with_min_above_max_is_rejected() {
    let bbox = Some([14_000_000, 52_000_000, 13_000_000, 53_000_000]);
    assert!(matches!(validate_bbox(&bbox), Err(ValidationError::Bbox(_))));
    let bbox = Some([13_000_000, 53_000_000, 14_000_000, 52_000_000]);
    assert!(matches!(validate_bbox(&bbox), Err(ValidationError::Bbox(_))));
}

#[test]
fn bbox_with_out_of_range_coordinate_is_rejected() {
    let bbox = Some([-180_000_001, 52_000_000, 14_000_000, 53_000_000]);
    assert!(validate_bbox(&bbox).is_err());
    assert!(validate_bbox(&None).unwrap().is_none());
}

#[test]
fn layers_must_belong_to_the_registry() {
    let ok = vec!["street".to_string(), "city".to_string()];
    assert!(validate_layers(&ok).is_ok());
    let bad = vec!["street".to_string(), "continent".to_string()];
    match validate_layers(&bad) {
        Err(ValidationError::Layer { value, valid }) => {
            assert_eq!(value, "continent");
            assert_eq!(
                valid,
                vec![
                    "house", "street", "locality", "district", "city", "county", "state",
                    "country"
                ]
            );
        }
        _ => panic!("expected a layer error"),
    }
}

#[test]
fn language_must_be_configured() {
    let langs = vec!["en".to_string(), "de".to_string()];
    assert!(validate_lang_parameter(&None, &langs).is_ok());
    assert!(validate_lang_parameter(&Some("de".to_string()), &langs).is_ok());
    match validate_lang_parameter(&Some("fr".to_string()), &langs) {
        Err(ValidationError::Lang { value, valid }) => {
            assert_eq!(value, "fr");
            assert_eq!(valid, langs);
        }
        _ => panic!("expected a language error"),
    }
}

#[test]
fn location_bias_is_all_or_none() {
    let ok = validate_location_bias(Some(13_400_000), Some(52_500_000), Some(200_000_000), Some(12))
        .unwrap()
        .unwrap();
    assert_eq!(ok.point.x, 13_400_000);
    assert_eq!(ok.point.y, 52_500_000);
    assert_eq!(ok.scale_nano, 200_000_000);
    assert_eq!(ok.zoom, 12);
    assert!(validate_location_bias(None, None, None, None).unwrap().is_none());
    assert!(matches!(
        validate_location_bias(Some(13_400_000), None, None, Some(12)),
        Err(ValidationError::LocationBias)
    ));
    assert!(matches!(
        validate_location_bias(Some(13_400_000), Some(52_500_000), Some(200_000_000), None),
        Err(ValidationError::LocationBias)
    ));
}

#[test]
fn validation_messages_name_the_violation() {
    assert_eq!(
        ValidationError::Lon(200_000_000).message(),
        "invalid lon \"200.000000\". Must be in the range [-180, 180]"
    );
    assert_eq!(
        ValidationError::Lat(-90_000_100).message(),
        "invalid lat \"-90.000100\". Must be in the range [-90, 90]"
    );
    assert_eq!(
        ValidationError::Lang {
            value: "xx".to_string(),
            valid: vec!["en".to_string(), "de".to_string()],
        }
        .message(),
        "invalid language \"xx\". Allowed languages are [\"en\", \"de\"]"
    );
    assert_eq!(
        ValidationError::LocationBias.message(),
        "must use all or none of lon, lat, scale, zoom"
    );
    assert_eq!(
        ValidationError::Bbox([190_000_000, 0, 10_000_000, 5_000_000]).message(),
        "invalid bbox \"[190.000000, 0.000000, 10.000000, 5.000000]\". Expected \"min_lon,min_lat,max_lon,max_lat\" where \"lat\" is in range [-90, 90] and \"lon\" is in range [-180, 180]"
    );
    assert_eq!(
        ValidationError::Layer {
            value: "continent".to_string(),
            valid: vec!["house".to_string()],
        }
        .message(),
        "invalid layer \"continent\". Allowed layers are [\"house\"]"
    );
}

#[test]
fn photon_error_status_codes() {
    assert_eq!(PhotonError::Validation(ValidationError::LocationBias).status_code(), 400);
    assert_eq!(
        PhotonError::Backend { status: Some(503), message: "down".to_string() }.status_code(),
        503
    );
    assert_eq!(PhotonError::Backend { status: None, message: "?".to_string() }.status_code(), 418);
    assert_eq!(PhotonError::Internal("pool".to_string()).status_code(), 500);
}
