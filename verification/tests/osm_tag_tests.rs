use photon_gateway::query::osm_tag::build_osm_tag_filter_query;
use photon_gateway::query::osm_tag::OsmTagFilter;
use photon_gateway::query::osm_tag::OsmTagFilterType;
use photon_gateway::query::tree::QueryTree;

fn parse(token: &str) -> OsmTagFilter {
    OsmTagFilter::from(token.to_string())
}

#[test]
fn bare_key_includes() {
    let f = parse("highway");
    assert!(matches!(f.filter_type, OsmTagFilterType::Include));
    assert_eq!(f.key.as_deref(), Some("highway"));
    assert!(f.value.is_none());
}

#[test]
fn leading_bang_excludes_the_key() {
    let f = parse("!highway");
    assert!(matches!(f.filter_type, OsmTagFilterType::Exclude));
    assert_eq!(f.key.as_deref(), Some("highway"));
    assert!(f.value.is_none());
}

#[test]
fn key_and_value_include() {
    let f = parse("highway:motorway");
    assert!(matches!(f.filter_type, OsmTagFilterType::Include));
    assert_eq!(f.key.as_deref(), Some("highway"));
    assert_eq!(f.value.as_deref(), Some("motorway"));
}

#[test]
fn bang_on_the_key_half_excludes_the_pair() {
    let f = parse("!highway:motorway");
    assert!(matches!(f.filter_type, OsmTagFilterType::Exclude));
    assert_eq!(f.key.as_deref(), Some("highway"));
    assert_eq!(f.value.as_deref(), Some("motorway"));
}

#[test]
fn bang_on_the_value_half_alone_is_exclude_value() {
    let f = parse("highway:!motorway");
    assert!(matches!(f.filter_type, OsmTagFilterType::ExcludeValue));
    assert_eq!(f.key.as_deref(), Some("highway"));
    assert_eq!(f.value.as_deref(), Some("motorway"));
}

#[test]
fn tokens_are_trimmed_and_halves_are_trimmed() {
    let f = parse("  highway : motorway ");
    assert!(matches!(f.filter_type, OsmTagFilterType::Include));
    assert_eq!(f.key.as_deref(), Some("highway"));
    assert_eq!(f.value.as_deref(), Some("motorway"));
}

#[test]
fn empty_key_half_becomes_absent() {
    let f = parse(":motorway");
    assert!(matches!(f.filter_type, OsmTagFilterType::Include));
    assert!(f.key.is_none());
    assert_eq!(f.value.as_deref(), Some("motorway"));
}

#[test]
fn emitting_a_parsed_token_parses_back_to_the_same_filter() {
    for token in ["highway", "!highway", "highway:motorway", "!highway:motorway",
        "highway:!motorway", ":motorway"] {
        let first = parse(token);
        let reparsed = parse(&first.emit());
        assert!(matches!(
            (&first.filter_type, &reparsed.filter_type),
            (OsmTagFilterType::Include, OsmTagFilterType::Include)
                | (OsmTagFilterType::Exclude, OsmTagFilterType::Exclude)
                | (OsmTagFilterType::ExcludeValue, OsmTagFilterType::ExcludeValue)
        ));
        assert_eq!(first.key, reparsed.key);
        assert_eq!(first.value, reparsed.value);
    }
}

#[test]
fn emit_prints_each_kind_back() {
    assert_eq!(parse("highway:motorway").emit(), "highway:motorway");
    assert_eq!(parse("!highway").emit(), "!highway");
    assert_eq!(parse("highway:!motorway").emit(), "highway:!motorway");
}

fn term(t: &QueryTree) -> (&str, &str) {
    match t {
        QueryTree::Term { field, value } => (field.as_str(), value.as_str()),
        _ => panic!("expected a term"),
    }
}

#[test]
fn blank_tokens_contribute_nothing() {
    let tokens = vec!["".to_string(), "!".to_string(), ":".to_string(), "!:!".to_string()];
    assert!(build_osm_tag_filter_query(&tokens).is_none());
}

#[test]
fn include_and_exclude_sides_assemble_separately() {
    let tokens = vec!["highway".to_string(), "!highway:motorway".to_string()];
    let q = build_osm_tag_filter_query(&tokens).expect("filters contribute");
    let outer = match q {
        QueryTree::Bool(b) => b,
        _ => panic!("expected a bool"),
    };
    assert_eq!(outer.must.len(), 1);
    assert_eq!(outer.must_not.len(), 1);

    // The include disjunction holds the bare key term.
    match &outer.must[0] {
        QueryTree::Bool(inclusion) => {
            assert_eq!(inclusion.should.len(), 1);
            assert_eq!(term(&inclusion.should[0]), ("osm_key", "highway"));
        }
        _ => panic!("expected a bool"),
    }

    // The exclude disjunction holds the key-and-value conjunction.
    match &outer.must_not[0] {
        QueryTree::Bool(exclude) => {
            assert_eq!(exclude.should.len(), 1);
            match &exclude.should[0] {
                QueryTree::Bool(pair) => {
                    assert_eq!(pair.must.len(), 2);
                    assert_eq!(term(&pair.must[0]), ("osm_key", "highway"));
                    assert_eq!(term(&pair.must[1]), ("osm_value", "motorway"));
                }
                _ => panic!("expected a bool"),
            }
        }
        _ => panic!("expected a bool"),
    }
}

#[test]
fn exclude_value_negates_only_the_value() {
    let tokens = vec!["highway:!motorway".to_string()];
    let q = build_osm_tag_filter_query(&tokens).expect("filter contributes");
    let outer = match q {
        QueryTree::Bool(b) => b,
        _ => panic!("expected a bool"),
    };
    assert!(outer.must.is_empty());
    assert_eq!(outer.must_not.len(), 1);
    match &outer.must_not[0] {
        QueryTree::Bool(exclude) => match &exclude.should[0] {
            QueryTree::Bool(pair) => {
                assert_eq!(pair.must.len(), 1);
                assert_eq!(pair.must_not.len(), 1);
                assert_eq!(term(&pair.must[0]), ("osm_key", "highway"));
                assert_eq!(term(&pair.must_not[0]), ("osm_value", "motorway"));
            }
            _ => panic!("expected a bool"),
        },
        _ => panic!("expected a bool"),
    }
}
