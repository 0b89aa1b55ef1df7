//! Fixed registry of address granularity layers, each with an inclusive rank
//! interval. The registry is the source of truth for valid `layer` values and
//! for mapping a document rank to its layer.

use vstd::prelude::*;

verus! {

/// One named layer with its inclusive rank interval.
pub struct AddressType {
    pub name: &'static str,
    pub min_rank: i64,
    pub max_rank: i64,
}

/// What the registry holds, stated over views: names in descending rank
/// order, with their rank intervals.
pub open spec fn spec_address_type(i: int) -> (Seq<char>, i64, i64) {
    if i == 0 {
        ("house"@, 29, 30)
    } else if i == 1 {
        ("street"@, 26, 28)
    } else if i == 2 {
        ("locality"@, 22, 25)
    } else if i == 3 {
        ("district"@, 17, 21)
    } else if i == 4 {
        ("city"@, 13, 16)
    } else if i == 5 {
        ("county"@, 10, 12)
    } else if i == 6 {
        ("state"@, 5, 9)
    } else {
        ("country"@, 4, 4)
    }
}

/// The number of entries in the registry.
pub open spec fn spec_address_type_count() -> int {
    8
}

/// An `AddressType` value agrees with registry entry `i`.
pub open spec fn is_registry_entry(a: AddressType, i: int) -> bool {
    &&& a.name@ == spec_address_type(i).0
    &&& a.min_rank == spec_address_type(i).1
    &&& a.max_rank == spec_address_type(i).2
}

/// The fixed registry, in descending rank order (house first, country last).
pub fn address_types() -> (r: Vec<AddressType>)
    ensures
        r@.len() == spec_address_type_count(),
        forall|i: int| 0 <= i < r@.len() ==> is_registry_entry(r@[i], i),
{
    let r: Vec<AddressType> = vec![
        AddressType { name: "house", min_rank: 29, max_rank: 30 },
        AddressType { name: "street", min_rank: 26, max_rank: 28 },
        AddressType { name: "locality", min_rank: 22, max_rank: 25 },
        AddressType { name: "district", min_rank: 17, max_rank: 21 },
        AddressType { name: "city", min_rank: 13, max_rank: 16 },
        AddressType { name: "county", min_rank: 10, max_rank: 12 },
        AddressType { name: "state", min_rank: 5, max_rank: 9 },
        AddressType { name: "country", min_rank: 4, max_rank: 4 },
    ];
    assert(forall|i: int| 0 <= i < r@.len() ==> is_registry_entry(r@[i], i)) by {
        assert(is_registry_entry(r@[0], 0));
        assert(is_registry_entry(r@[1], 1));
        assert(is_registry_entry(r@[2], 2));
        assert(is_registry_entry(r@[3], 3));
        assert(is_registry_entry(r@[4], 4));
        assert(is_registry_entry(r@[5], 5));
        assert(is_registry_entry(r@[6], 6));
        assert(is_registry_entry(r@[7], 7));
    }
    r
}

/// Rank `rank` falls in the interval of registry entry `i`.
pub open spec fn rank_in_entry(rank: i64, i: int) -> bool {
    spec_address_type(i).1 <= rank <= spec_address_type(i).2
}

/// Looks the rank up by interval containment. Returns the unique layer whose
/// interval contains `rank`, or `None` when no interval does.
pub fn from_rank(rank: i64) -> (r: Option<AddressType>)
    ensures
        match r {
            Some(a) => exists|i: int|
                0 <= i < spec_address_type_count() && is_registry_entry(a, i) && rank_in_entry(
                    rank,
                    i,
                ),
            None => forall|i: int|
                0 <= i < spec_address_type_count() ==> !rank_in_entry(rank, i),
        },
{
    let types = address_types();
    let mut idx: usize = 0;
    while idx < types.len()
        invariant
            idx <= types@.len(),
            types@.len() == spec_address_type_count(),
            forall|i: int| 0 <= i < types@.len() ==> is_registry_entry(types@[i], i),
            forall|i: int| 0 <= i < idx ==> !rank_in_entry(rank, i),
        decreases types@.len() - idx,
    {
        let a = &types[idx];
        if rank >= a.min_rank && rank <= a.max_rank {
            let found = AddressType { name: a.name, min_rank: a.min_rank, max_rank: a.max_rank };
            proof {
                assert(is_registry_entry(found, idx as int) && rank_in_entry(rank, idx as int));
            }
            return Some(found);
        }
        idx = idx + 1;
    }
    None
}

/// The rank intervals of distinct registry entries are disjoint: no rank lies
/// in two of them.
pub proof fn lemma_rank_intervals_disjoint(rank: i64, i: int, j: int)
    requires
        0 <= i < spec_address_type_count(),
        0 <= j < spec_address_type_count(),
        i != j,
        rank_in_entry(rank, i),
    ensures
        !rank_in_entry(rank, j),
{
}

/// Rank lookup is exact: it returns a registry member iff the rank lies in
/// that member's interval.
pub proof fn lemma_from_rank_characterization(r: Option<AddressType>, rank: i64, i: int)
    requires
        0 <= i < spec_address_type_count(),
        match r {
            Some(a) => exists|k: int|
                0 <= k < spec_address_type_count() && is_registry_entry(a, k) && rank_in_entry(
                    rank,
                    k,
                ),
            None => forall|k: int|
                0 <= k < spec_address_type_count() ==> !rank_in_entry(rank, k),
        },
    ensures
        rank_in_entry(rank, i) <==> (r matches Some(a) && is_registry_entry(a, i)),
{
    if rank_in_entry(rank, i) {
        let k = choose|k: int|
            0 <= k < spec_address_type_count() && is_registry_entry(r->Some_0, k)
                && rank_in_entry(rank, k);
        if k != i {
            lemma_rank_intervals_disjoint(rank, i, k);
        }
    } else {
        if r is Some && is_registry_entry(r->Some_0, i) {
            let a = r->Some_0;
            let k = choose|k: int|
                0 <= k < spec_address_type_count() && is_registry_entry(a, k) && rank_in_entry(
                    rank,
                    k,
                );
            if k != i {
                assert(spec_address_type(k).0 != spec_address_type(i).0) by {
                    reveal_strlit("house");
                    reveal_strlit("street");
                    reveal_strlit("locality");
                    reveal_strlit("district");
                    reveal_strlit("city");
                    reveal_strlit("county");
                    reveal_strlit("state");
                    reveal_strlit("country");
                }
            }
        }
    }
}

} // verus!
