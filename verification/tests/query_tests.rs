use photon_gateway::elastic::hits_to_response;
use photon_gateway::elastic::search_should_retry;
use photon_gateway::elastic::shape_size;
use photon_gateway::handlers::prepare_lookup;
use photon_gateway::handlers::prepare_reverse;
use photon_gateway::handlers::prepare_search;
use photon_gateway::query::tree::BoolNode;
use photon_gateway::query::tree::Fuzziness;
use photon_gateway::query::tree::QueryTree;
use photon_gateway::query::tree::ScoreFunction;
use photon_gateway::query::tree::SearchBody;
use photon_gateway::query::tree::SortOrder;
use photon_gateway::request::PhotonLookupRequest;
use photon_gateway::request::PhotonReverseRequest;
use photon_gateway::request::PhotonSearchRequest;

fn languages() -> Vec<String> {
    vec!["en".to_string(), "de".to_string(), "fr".to_string(), "it".to_string()]
}

fn base_search(q: &str) -> PhotonSearchRequest {
    PhotonSearchRequest {
        q: q.to_string(),
        lang: None,
        lon: None,
        lat: None,
        limit: None,
        location_bias_scale: None,
        bbox: None,
        zoom: None,
        osm_tag: None,
        layer: None,
        debug: None,
    }
}

fn base_reverse() -> PhotonReverseRequest {
    PhotonReverseRequest {
        lang: None,
        lon: 13_400_000,
        lat: 52_500_000,
        radius: 3,
        query_string_filter: None,
        distance_sort: None,
        limit: None,
        osm_tag: None,
        layer: None,
        debug: None,
    }
}

fn top_bool(body: &SearchBody) -> &BoolNode {
    match &body.query {
        QueryTree::Bool(b) => b,
        _ => panic!("expected a bool at the top"),
    }
}

/// The fields multi-match of the ranked query, skipping a bias wrapper.
fn fields_multi_match(body: &SearchBody) -> &QueryTree {
    let b = top_bool(body);
    let mut ranked = &b.must[0];
    if let QueryTree::FunctionScore { query, score_mode, .. } = ranked {
        // A bias wrapper uses max scoring; the ranked query sums.
        if matches!(score_mode, Some(photon_gateway::query::tree::ScoreMode::Max)) {
            ranked = query.as_deref().unwrap();
        }
    }
    match ranked {
        QueryTree::FunctionScore { query, .. } => match query.as_deref().unwrap() {
            QueryTree::Bool(inner) => &inner.must[0],
            _ => panic!("expected the inner bool"),
        },
        _ => panic!("expected the ranked function score"),
    }
}

#[test]
fn strict_search_uses_exact_matching_and_inflated_size() {
    // GET /search?q=berlin&lang=de&limit=5
    let mut req = base_search("berlin");
    req.lang = Some("de".to_string());
    req.limit = Some(5);
    let plan = prepare_search(&req, &languages()).unwrap();
    assert_eq!(plan.size, 8);
    assert_eq!(plan.language, "de");
    match fields_multi_match(&plan.strict) {
        QueryTree::MultiMatch { minimum_should_match, fuzziness, query, .. } => {
            assert_eq!(minimum_should_match.as_deref(), Some("100%"));
            assert!(fuzziness.is_none());
            assert_eq!(query, "berlin");
        }
        _ => panic!("expected the fields multi-match"),
    }
}

#[test]
fn lenient_attempt_turns_on_fuzziness_and_lowers_the_floor() {
    let req = base_search("xyznonsense");
    let plan = prepare_search(&req, &languages()).unwrap();
    match fields_multi_match(&plan.lenient) {
        QueryTree::MultiMatch { minimum_should_match, fuzziness, .. } => {
            assert_eq!(minimum_should_match.as_deref(), Some("-34%"));
            assert!(matches!(fuzziness, Some(Fuzziness::Auto)));
        }
        _ => panic!("expected the fields multi-match"),
    }
}

#[test]
fn retry_is_decided_by_an_empty_first_attempt() {
    let empty = hits_to_response(vec![], &"de".to_string());
    assert!(search_should_retry(&empty));
    let doc = sample_document();
    let one = hits_to_response(vec![Some(doc)], &"de".to_string());
    assert!(!search_should_retry(&one));
}

#[test]
fn size_shaping_boundaries() {
    assert_eq!(shape_size(1), 1);
    assert_eq!(shape_size(2), 3);
    assert_eq!(shape_size(5), 8);
    assert_eq!(shape_size(0), 0);
    assert_eq!(shape_size(10), 15);
}

#[test]
fn location_bias_wraps_the_ranked_query_with_geographic_decay() {
    // GET /search?q=berlin&lon=13.4&lat=52.5&location_bias_scale=0.2&zoom=12
    let mut req = base_search("berlin");
    req.lon = Some(13_400_000);
    req.lat = Some(52_500_000);
    req.location_bias_scale = Some(200_000_000);
    req.zoom = Some(12);
    let plan = prepare_search(&req, &languages()).unwrap();
    let b = top_bool(&plan.strict);
    match &b.must[0] {
        QueryTree::FunctionScore { functions, .. } => {
            assert_eq!(functions.len(), 2);
            match &functions[0] {
                ScoreFunction::ExpDecayGeo { field, origin, scale_km, offset_km, decay_milli } => {
                    assert_eq!(field, "coordinate");
                    assert_eq!(origin.lon, 13_400_000);
                    assert_eq!(origin.lat, 52_500_000);
                    // zoom 12: a quarter of 2^(18-12) kilometers.
                    assert_eq!(*scale_km, 16);
                    assert_eq!(*offset_km, 1);
                    assert_eq!(*decay_milli, 800);
                }
                _ => panic!("expected the geographic decay"),
            }
            match &functions[1] {
                ScoreFunction::LinearDecay { field, origin_nano, scale_nano } => {
                    assert_eq!(field, "importance");
                    assert_eq!(*origin_nano, 1_000_000_000);
                    assert_eq!(*scale_nano, 200_000_000);
                }
                _ => panic!("expected the importance decay"),
            }
        }
        _ => panic!("expected the bias wrapper"),
    }
}

#[test]
fn zoom_three_disables_the_bias_and_zoom_four_enables_it() {
    let mut req = base_search("berlin");
    req.lon = Some(13_400_000);
    req.lat = Some(52_500_000);
    req.location_bias_scale = Some(200_000_000);

    req.zoom = Some(3);
    let plan = prepare_search(&req, &languages()).unwrap();
    // Without the wrapper the ranked query's own two functions sum.
    match &top_bool(&plan.strict).must[0] {
        QueryTree::FunctionScore { score_mode, .. } => {
            assert!(matches!(score_mode, Some(photon_gateway::query::tree::ScoreMode::Sum)));
        }
        _ => panic!("expected the ranked query"),
    }

    req.zoom = Some(4);
    let plan = prepare_search(&req, &languages()).unwrap();
    match &top_bool(&plan.strict).must[0] {
        QueryTree::FunctionScore { score_mode, .. } => {
            assert!(matches!(score_mode, Some(photon_gateway::query::tree::ScoreMode::Max)));
        }
        _ => panic!("expected the bias wrapper"),
    }
}

#[test]
fn zero_scale_is_clamped_up() {
    let mut req = base_search("berlin");
    req.lon = Some(13_400_000);
    req.lat = Some(52_500_000);
    req.location_bias_scale = Some(0);
    req.zoom = Some(12);
    let plan = prepare_search(&req, &languages()).unwrap();
    match &top_bool(&plan.strict).must[0] {
        QueryTree::FunctionScore { functions, .. } => match &functions[1] {
            ScoreFunction::LinearDecay { scale_nano, .. } => {
                // 0.0000001 in nano units.
                assert_eq!(*scale_nano, 100);
            }
            _ => panic!("expected the importance decay"),
        },
        _ => panic!("expected the bias wrapper"),
    }
}

#[test]
fn reverse_sorts_ascending_by_distance_by_default() {
    // GET /reverse?lat=52.5&lon=13.4&radius=3&distance_sort=true
    let mut req = base_reverse();
    req.distance_sort = Some(true);
    let plan = prepare_reverse(&req, &languages()).unwrap();
    let sort = plan.query.sort.as_ref().expect("a sort");
    assert_eq!(sort.field, "coordinate");
    assert_eq!(sort.lat, 52_500_000);
    assert_eq!(sort.lon, 13_400_000);
    assert!(matches!(sort.order, SortOrder::Asc));
    match top_bool(&plan.query).filter.last().unwrap() {
        QueryTree::GeoDistance { field, lat, lon, radius_km } => {
            assert_eq!(field, "coordinate");
            assert_eq!(*lat, 52_500_000);
            assert_eq!(*lon, 13_400_000);
            assert_eq!(*radius_km, 3);
        }
        _ => panic!("expected the geo-distance filter"),
    }

    // Absent means sorted; false means unsorted.
    let absent = prepare_reverse(&base_reverse(), &languages()).unwrap();
    assert!(absent.query.sort.is_some());
    let mut req = base_reverse();
    req.distance_sort = Some(false);
    let unsorted = prepare_reverse(&req, &languages()).unwrap();
    assert!(unsorted.query.sort.is_none());
}

#[test]
fn reverse_without_restrictions_matches_all() {
    let plan = prepare_reverse(&base_reverse(), &languages()).unwrap();
    let b = top_bool(&plan.query);
    assert_eq!(b.must.len(), 1);
    assert!(matches!(b.must[0], QueryTree::MatchAll));
    assert_eq!(plan.size, 10);
}

#[test]
fn reverse_with_query_string_and_layers_drops_match_all() {
    let mut req = base_reverse();
    req.query_string_filter = Some("amenity".to_string());
    req.layer = Some(vec!["street".to_string()]);
    let plan = prepare_reverse(&req, &languages()).unwrap();
    let b = top_bool(&plan.query);
    assert_eq!(b.must.len(), 2);
    assert!(matches!(&b.must[0], QueryTree::QueryString { query } if query == "amenity"));
    assert!(matches!(&b.must[1], QueryTree::Terms { .. }));

    // A blank query string counts as absent.
    let mut req = base_reverse();
    req.query_string_filter = Some("   ".to_string());
    let plan = prepare_reverse(&req, &languages()).unwrap();
    let b = top_bool(&plan.query);
    assert_eq!(b.must.len(), 1);
    assert!(matches!(b.must[0], QueryTree::MatchAll));
}

#[test]
fn search_filters_combine_tags_layers_and_the_top_level_filter() {
    // GET /search?q=main 5&osm_tag=highway&osm_tag=!highway:motorway&layer=street
    let mut req = base_search("main 5");
    req.osm_tag = Some(vec!["highway".to_string(), "!highway:motorway".to_string()]);
    req.layer = Some(vec!["street".to_string()]);
    let plan = prepare_search(&req, &languages()).unwrap();
    let b = top_bool(&plan.strict);
    assert_eq!(b.filter.len(), 2);

    // The tag filter comes first: include and exclude disjunctions.
    match &b.filter[0] {
        QueryTree::Bool(tag) => {
            assert_eq!(tag.must.len(), 1);
            assert_eq!(tag.must_not.len(), 1);
            match &tag.must[0] {
                QueryTree::Bool(inclusion) => match &inclusion.should[0] {
                    QueryTree::Term { field, value } => {
                        assert_eq!(field, "osm_key");
                        assert_eq!(value, "highway");
                    }
                    _ => panic!("expected the key term"),
                },
                _ => panic!("expected the include disjunction"),
            }
            match &tag.must_not[0] {
                QueryTree::Bool(exclude) => match &exclude.should[0] {
                    QueryTree::Bool(pair) => {
                        assert_eq!(pair.must.len(), 2);
                    }
                    _ => panic!("expected the pair"),
                },
                _ => panic!("expected the exclude disjunction"),
            }
        }
        _ => panic!("expected the tag filter"),
    }

    // The top-level filter carries the layer restriction.
    match &b.filter[1] {
        QueryTree::Bool(top) => {
            assert_eq!(top.should.len(), 3);
            assert_eq!(top.filter.len(), 1);
            match &top.filter[0] {
                QueryTree::Terms { field, values } => {
                    assert_eq!(field, "type");
                    assert_eq!(values, &vec!["street".to_string()]);
                }
                _ => panic!("expected the layer terms"),
            }
        }
        _ => panic!("expected the top-level filter"),
    }
}

#[test]
fn search_bbox_filter_keeps_the_backend_edge_order() {
    let mut req = base_search("berlin");
    req.bbox = Some([13_000_000, 52_000_000, 14_000_000, 53_000_000]);
    let plan = prepare_search(&req, &languages()).unwrap();
    let b = top_bool(&plan.strict);
    match &b.filter[0] {
        QueryTree::Bool(top) => match &top.filter[0] {
            QueryTree::GeoBoundingBox { field, top, left, bottom, right } => {
                assert_eq!(field, "coordinate");
                // The backend names its parameters so that `top` takes the
                // minimum latitude and `bottom` the maximum.
                assert_eq!(*top, 52_000_000);
                assert_eq!(*left, 13_000_000);
                assert_eq!(*bottom, 53_000_000);
                assert_eq!(*right, 14_000_000);
            }
            _ => panic!("expected the box filter"),
        },
        _ => panic!("expected the top-level filter"),
    }
}

#[test]
fn single_word_query_boosts_the_name_ngrams() {
    let plan = prepare_search(&base_search("berlin"), &languages()).unwrap();
    let b = top_bool(&plan.strict);
    match &b.must[0] {
        QueryTree::FunctionScore { query, .. } => match query.as_deref().unwrap() {
            QueryTree::Bool(inner) => {
                assert_eq!(inner.must.len(), 2);
                match &inner.must[1] {
                    QueryTree::MultiMatch { boost_milli, .. } => {
                        assert_eq!(*boost_milli, Some(2000));
                    }
                    _ => panic!("expected the boosted n-gram query"),
                }
            }
            _ => panic!("expected the inner bool"),
        },
        _ => panic!("expected the ranked query"),
    }

    // A query with a space gets the three-way disjunction instead.
    let plan = prepare_search(&base_search("main 5"), &languages()).unwrap();
    let b = top_bool(&plan.strict);
    match &b.must[0] {
        QueryTree::FunctionScore { query, .. } => match query.as_deref().unwrap() {
            QueryTree::Bool(inner) => match &inner.must[1] {
                QueryTree::Bool(group) => {
                    assert_eq!(group.should.len(), 3);
                    assert_eq!(group.minimum_should_match, Some(1));
                }
                _ => panic!("expected the disjunction"),
            },
            _ => panic!("expected the inner bool"),
        },
        _ => panic!("expected the ranked query"),
    }
}

#[test]
fn fields_query_boosts_the_request_language() {
    let mut req = base_search("berlin");
    req.lang = Some("de".to_string());
    let plan = prepare_search(&req, &languages()).unwrap();
    match fields_multi_match(&plan.strict) {
        QueryTree::MultiMatch { fields, analyzer, prefix_length, tie_breaker_milli, .. } => {
            assert_eq!(fields.len(), 5);
            assert_eq!(fields[0].name, "collector.default");
            assert_eq!(fields[0].boost_milli, 1000);
            assert_eq!(fields[1].name, "collector.en.ngrams");
            assert_eq!(fields[1].boost_milli, 600);
            assert_eq!(fields[2].name, "collector.de.ngrams");
            assert_eq!(fields[2].boost_milli, 1000);
            assert_eq!(analyzer.as_deref(), Some("search_ngram"));
            assert_eq!(*prefix_length, Some(2));
            assert_eq!(*tie_breaker_milli, Some(400));
        }
        _ => panic!("expected the fields multi-match"),
    }
}

#[test]
fn invalid_search_parameters_fail_fast() {
    let mut req = base_search("berlin");
    req.layer = Some(vec!["continent".to_string()]);
    assert!(prepare_search(&req, &languages()).is_err());
    let mut req = base_search("berlin");
    req.lang = Some("xx".to_string());
    assert!(prepare_search(&req, &languages()).is_err());
    let mut req = base_search("berlin");
    req.lon = Some(13_400_000);
    assert!(prepare_search(&req, &languages()).is_err(), "bias arity violation");
}

#[test]
fn lookup_resolves_the_language_and_keeps_the_id() {
    let req = PhotonLookupRequest { place_id: "12345".to_string(), lang: Some("de".to_string()) };
    let plan = prepare_lookup(&req, &languages()).unwrap();
    assert_eq!(plan.place_id, "12345");
    assert_eq!(plan.language, "de");
    let req = PhotonLookupRequest { place_id: "12345".to_string(), lang: None };
    let plan = prepare_lookup(&req, &languages()).unwrap();
    assert_eq!(plan.language, "default");
}

fn sample_document() -> photon_gateway::doc::PhotonDocument {
    photon_gateway::doc::PhotonDocument {
        kind: "city".to_string(),
        place_id: 42,
        parent_place_id: None,
        osm_id: 240109189,
        osm_type: "N".to_string(),
        osm_value: "city".to_string(),
        osm_key: "place".to_string(),
        coordinate: photon_gateway::doc::PhotonDocumentCoordinate { lat: 52_500_000, lon: 13_400_000 },
        extent: None,
        classification: None,
        countrycode: Some("DE".to_string()),
        housenumber: None,
        postcode: None,
        country: Some(vec![
            ("default".to_string(), "Germany".to_string()),
            ("de".to_string(), "Deutschland".to_string()),
        ]),
        county: None,
        city: None,
        state: None,
        district: None,
        locality: None,
        street: None,
        name: Some(vec![
            ("default".to_string(), "Berlin".to_string()),
            ("it".to_string(), "Berlino".to_string()),
        ]),
        names: None,
        extra: None,
    }
}

#[test]
fn name_ngram_fields_boost_the_effective_language_and_alternates() {
    // With no request language, the effective language is the first
    // configured one.
    let plan = prepare_search(&base_search("berlin"), &languages()).unwrap();
    let b = top_bool(&plan.strict);
    let inner = match &b.must[0] {
        QueryTree::FunctionScore { query, .. } => match query.as_deref().unwrap() {
            QueryTree::Bool(inner) => inner,
            _ => panic!("expected the inner bool"),
        },
        _ => panic!("expected the ranked query"),
    };
    match &inner.must[1] {
        QueryTree::MultiMatch { fields, fuzziness, analyzer, .. } => {
            assert_eq!(fields.len(), 4 + 6);
            assert_eq!(fields[0].name, "name.en.ngrams");
            assert_eq!(fields[0].boost_milli, 1000, "first language at full weight");
            assert_eq!(fields[1].name, "name.de.ngrams");
            assert_eq!(fields[1].boost_milli, 400);
            assert_eq!(fields[4].name, "name.alt.raw");
            assert_eq!(fields[9].name, "name.housename.raw");
            assert_eq!(fields[9].boost_milli, 400);
            assert!(matches!(fuzziness, Some(Fuzziness::Distance(0))));
            assert_eq!(analyzer.as_deref(), Some("search_ngram"));
        }
        _ => panic!("expected the n-gram multi-match"),
    }
}

#[test]
fn housenumber_promotion_weights_tenfold_at_low_boost() {
    let plan = prepare_search(&base_search("berlin"), &languages()).unwrap();
    let b = top_bool(&plan.strict);
    let inner = match &b.must[0] {
        QueryTree::FunctionScore { query, .. } => match query.as_deref().unwrap() {
            QueryTree::Bool(inner) => inner,
            _ => panic!("expected the inner bool"),
        },
        _ => panic!("expected the ranked query"),
    };
    match &inner.should[0] {
        QueryTree::FunctionScore { functions, boost_milli, .. } => {
            assert_eq!(*boost_milli, Some(300));
            assert_eq!(functions.len(), 1);
            match &functions[0] {
                ScoreFunction::Weight { weight_milli, filter } => {
                    assert_eq!(*weight_milli, 10_000);
                    assert!(filter.is_some());
                }
                _ => panic!("expected the weight function"),
            }
        }
        _ => panic!("expected the housenumber promotion"),
    }
    // The full-name match follows, exact in the strict attempt.
    match &inner.should[1] {
        QueryTree::MatchText { field, fuzziness, .. } => {
            assert_eq!(field, "name.default.raw");
            assert!(matches!(fuzziness, Some(Fuzziness::Distance(0))));
        }
        _ => panic!("expected the full-name match"),
    }
    let plan = prepare_search(&base_search("berlin"), &languages()).unwrap();
    let b = top_bool(&plan.lenient);
    match &b.must[0] {
        QueryTree::FunctionScore { query, .. } => match query.as_deref().unwrap() {
            QueryTree::Bool(inner) => match &inner.should[1] {
                QueryTree::MatchText { fuzziness, .. } => {
                    assert!(matches!(fuzziness, Some(Fuzziness::Auto)));
                }
                _ => panic!("expected the full-name match"),
            },
            _ => panic!("expected the inner bool"),
        },
        _ => panic!("expected the ranked query"),
    }
}

#[test]
fn top_level_filter_admits_unnumbered_matching_or_named_documents() {
    let mut req = base_search("berlin");
    req.lang = Some("de".to_string());
    let plan = prepare_search(&req, &languages()).unwrap();
    let b = top_bool(&plan.strict);
    match b.filter.last().unwrap() {
        QueryTree::Bool(top) => {
            assert_eq!(top.should.len(), 3);
            match &top.should[0] {
                QueryTree::Bool(no_house) => match &no_house.must_not[0] {
                    QueryTree::Exists { field } => assert_eq!(field, "housenumber"),
                    _ => panic!("expected the existence check"),
                },
                _ => panic!("expected the negation"),
            }
            match &top.should[2] {
                QueryTree::Exists { field } => assert_eq!(field, "name.de.raw"),
                _ => panic!("expected the named-document check"),
            }
        }
        _ => panic!("expected the top-level filter"),
    }
}
