use photon_gateway::address_type::address_types;
use photon_gateway::address_type::from_rank;

#[test]
fn registry_holds_the_eight_layers_in_order() {
    let types = address_types();
    let expected = [
        ("house", 29, 30),
        ("street", 26, 28),
        ("locality", 22, 25),
        ("district", 17, 21),
        ("city", 13, 16),
        ("county", 10, 12),
        ("state", 5, 9),
        ("country", 4, 4),
    ];
    assert_eq!(types.len(), expected.len());
    for (a, (name, min_rank, max_rank)) in types.iter().zip(expected.iter()) {
        assert_eq!(a.name, *name);
        assert_eq!(a.min_rank, *min_rank);
        assert_eq!(a.max_rank, *max_rank);
    }
}

#[test]
fn from_rank_maps_every_rank_to_its_interval() {
    for rank in 4..=30 {
        let t = from_rank(rank).expect("rank in some interval");
        assert!(t.min_rank <= rank && rank <= t.max_rank);
    }
    assert_eq!(from_rank(29).unwrap().name, "house");
    assert_eq!(from_rank(26).unwrap().name, "street");
    assert_eq!(from_rank(25).unwrap().name, "locality");
    assert_eq!(from_rank(17).unwrap().name, "district");
    assert_eq!(from_rank(16).unwrap().name, "city");
    assert_eq!(from_rank(10).unwrap().name, "county");
    assert_eq!(from_rank(9).unwrap().name, "state");
    assert_eq!(from_rank(4).unwrap().name, "country");
}

#[test]
fn from_rank_rejects_ranks_outside_every_interval() {
    assert!(from_rank(3).is_none());
    assert!(from_rank(31).is_none());
    assert!(from_rank(0).is_none());
    assert!(from_rank(-5).is_none());
}

#[test]
fn rank_intervals_are_disjoint() {
    let types = address_types();
    for rank in 0..40 {
        let holders = types
            .iter()
            .filter(|t| t.min_rank <= rank && rank <= t.max_rank)
            .count();
        assert!(holders <= 1);
    }
}
