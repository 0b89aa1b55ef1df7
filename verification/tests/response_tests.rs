use photon_gateway::doc::document_to_feature;
use photon_gateway::doc::unwrap_language_field;
use photon_gateway::doc::PhotonDocument;
use photon_gateway::doc::PhotonDocumentCoordinate;
use photon_gateway::doc::PhotonDocumentExtent;
use photon_gateway::elastic::hits_to_response;
use photon_gateway::elastic::lookup_response;
use photon_gateway::config::validate_language_config;
use photon_gateway::connection::ElasticConnectionManager;
use photon_gateway::text::split_commas;

fn berlin() -> PhotonDocument {
    PhotonDocument {
        kind: "city".to_string(),
        place_id: 42,
        parent_place_id: Some(7),
        osm_id: 240109189,
        osm_type: "N".to_string(),
        osm_value: "city".to_string(),
        osm_key: "place".to_string(),
        coordinate: PhotonDocumentCoordinate { lat: 52_500_000, lon: 13_400_000 },
        extent: Some(PhotonDocumentExtent {
            kind: "envelope".to_string(),
            coordinates: [[13_000_000, 53_000_000], [14_000_000, 52_000_000]],
        }),
        classification: None,
        countrycode: Some("DE".to_string()),
        housenumber: None,
        postcode: Some("10117".to_string()),
        country: Some(vec![
            ("default".to_string(), "Germany".to_string()),
            ("de".to_string(), "Deutschland".to_string()),
        ]),
        county: None,
        city: None,
        state: Some(vec![("fr".to_string(), "Berlin (Land)".to_string())]),
        district: None,
        locality: None,
        street: None,
        name: Some(vec![
            ("default".to_string(), "Berlin".to_string()),
            ("de".to_string(), "Berlin".to_string()),
            ("it".to_string(), "Berlino".to_string()),
        ]),
        names: Some(vec![("name:ru".to_string(), "Berlin (ru)".to_string())]),
        extra: None,
    }
}

#[test]
fn language_resolution_prefers_the_request_language() {
    let field = Some(vec![
        ("default".to_string(), "Germany".to_string()),
        ("de".to_string(), "Deutschland".to_string()),
    ]);
    assert_eq!(unwrap_language_field(&field, &"de".to_string()).as_deref(), Some("Deutschland"));
}

#[test]
fn language_resolution_falls_back_to_the_default_entry() {
    let field = Some(vec![
        ("default".to_string(), "Germany".to_string()),
        ("de".to_string(), "Deutschland".to_string()),
    ]);
    assert_eq!(unwrap_language_field(&field, &"fr".to_string()).as_deref(), Some("Germany"));
}

#[test]
fn language_resolution_never_picks_another_language() {
    let field = Some(vec![("it".to_string(), "Berlino".to_string())]);
    assert_eq!(unwrap_language_field(&field, &"fr".to_string()), None);
    assert_eq!(unwrap_language_field(&None, &"fr".to_string()), None);
}

#[test]
fn features_are_geojson_points_in_lon_lat_order() {
    let f = document_to_feature(&berlin(), &"de".to_string());
    assert_eq!(f.kind, "Feature");
    assert_eq!(f.properties.geometry.kind, "Point");
    assert_eq!(f.properties.geometry.coordinates.len(), 2);
    assert_eq!(f.properties.geometry.coordinates[0], 13_400_000);
    assert_eq!(f.properties.geometry.coordinates[1], 52_500_000);
}

#[test]
fn features_copy_scalars_and_resolve_languages() {
    let f = document_to_feature(&berlin(), &"it".to_string());
    assert_eq!(f.properties.place_id, 42);
    assert_eq!(f.properties.parent_place_id, Some(7));
    assert_eq!(f.properties.osm_key, "place");
    assert_eq!(f.properties.osm_value, "city");
    assert_eq!(f.properties.kind, "city");
    assert_eq!(f.properties.countrycode.as_deref(), Some("DE"));
    assert_eq!(f.properties.postcode.as_deref(), Some("10117"));
    assert_eq!(f.properties.name.as_deref(), Some("Berlino"));
    assert_eq!(f.properties.country.as_deref(), Some("Germany"));
    assert_eq!(f.properties.state, None, "no italian and no default entry");
    assert_eq!(f.properties.city, None);
}

#[test]
fn extent_flattens_corner_by_corner() {
    let f = document_to_feature(&berlin(), &"de".to_string());
    assert_eq!(
        f.properties.extent,
        Some([13_000_000, 53_000_000, 14_000_000, 52_000_000])
    );
}

#[test]
fn hits_without_a_document_are_dropped() {
    let r = hits_to_response(vec![None, Some(berlin()), None], &"de".to_string());
    assert_eq!(r.kind, "FeatureCollection");
    assert_eq!(r.features.len(), 1);
    assert_eq!(r.features[0].properties.place_id, 42);
}

#[test]
fn unknown_lookup_yields_an_empty_collection() {
    // GET /lookup?place_id=unknown with no source from the backend.
    let r = lookup_response(None, &"de".to_string());
    assert_eq!(r.kind, "FeatureCollection");
    assert!(r.features.is_empty());
    let r = lookup_response(Some(berlin()), &"de".to_string());
    assert_eq!(r.features.len(), 1);
}

#[test]
fn text_helpers_render_and_split() {
    assert_eq!(split_commas("en,de,fr"), vec!["en", "de", "fr"]);
    assert_eq!(split_commas("en"), vec!["en"]);
    assert_eq!(split_commas(""), vec![""]);
    assert_eq!(split_commas("a,,b"), vec!["a", "", "b"]);
}

#[test]
fn language_config_accepts_only_supported_languages() {
    let ok = vec!["en".to_string(), "it".to_string()];
    assert_eq!(validate_language_config(&ok), None);
    let bad = vec!["en".to_string(), "xx".to_string()];
    assert_eq!(validate_language_config(&bad), Some(1));
}

#[test]
fn connection_manager_builds_the_auth_header() {
    let m = ElasticConnectionManager::new("cloud-id".to_string(), "abc123".to_string());
    assert_eq!(m.api_key_header_value(), "ApiKey abc123");
}
