use nft_queries::fragment::{JoinFragment, PredicateFragment};
use nft_queries::ledger::{BindType, BindValue};
use nft_queries::metadatas::{AttributeFilter, ListQueryOptions};
use nft_queries::text::clone_strings;
use nft_queries::plan::{
    compile_fragments, QueryPlan, AUCTION_HOUSES_POSITION, CREATORS_POSITION,
    FIRST_ATTRIBUTE_POSITION, LIMIT_POSITION, OFFERERS_POSITION, OFFSET_POSITION,
};

fn strings(items: &[&str]) -> Vec<String> {
    items.iter().map(|s| String::from(*s)).collect()
}

fn attribute(trait_type: &str, values: &[&str]) -> AttributeFilter {
    AttributeFilter { trait_type: String::from(trait_type), values: strings(values) }
}

fn bare(limit: i64, offset: i64) -> ListQueryOptions {
    ListQueryOptions {
        owners: None,
        auction_houses: None,
        creators: None,
        offerers: None,
        attributes: None,
        listed: None,
        collection: None,
        limit,
        offset,
    }
}

#[test]
fn fixed_positions_are_one_to_six() {
    assert_eq!(LIMIT_POSITION, 1);
    assert_eq!(OFFSET_POSITION, 2);
    assert_eq!(CREATORS_POSITION, 3);
    assert_eq!(AUCTION_HOUSES_POSITION, 4);
    assert_eq!(OFFERERS_POSITION, 5);
    assert_eq!(FIRST_ATTRIBUTE_POSITION, 6);
}

#[test]
fn clone_strings_copies_every_string_in_order() {
    let given = strings(&["b", "a", "", "a"]);
    assert_eq!(clone_strings(&given), given);
    assert_eq!(clone_strings(&Vec::new()), Vec::<String>::new());
}

#[test]
fn plan_without_filters() {
    let plan = compile_fragments(&bare(25, 50));
    assert_eq!(plan.limit, 1);
    assert_eq!(plan.offset, 2);
    assert_eq!(
        plan.binds,
        vec![
            BindValue::Integer(25),
            BindValue::Integer(50),
            BindValue::NullTextArray,
            BindValue::NullTextArray,
            BindValue::NullTextArray,
        ]
    );
    assert_eq!(plan.joins, vec![JoinFragment::ListingLookup { auction_houses: 4 }]);
    assert_eq!(plan.predicates, vec![PredicateFragment::Creators { creators: 3 }]);
}

#[test]
fn plan_with_only_owners() {
    let mut options = bare(10, 0);
    options.owners = Some(strings(&["O1", "O2"]));
    let plan = compile_fragments(&options);
    assert_eq!(
        plan.binds,
        vec![
            BindValue::Integer(10),
            BindValue::Integer(0),
            BindValue::NullTextArray,
            BindValue::NullTextArray,
            BindValue::NullTextArray,
            BindValue::TextArray(strings(&["O1", "O2"])),
        ]
    );
    assert_eq!(plan.joins, vec![JoinFragment::ListingLookup { auction_houses: 4 }]);
    assert_eq!(
        plan.predicates,
        vec![
            PredicateFragment::Owners { owners: 6 },
            PredicateFragment::Creators { creators: 3 },
        ]
    );
    let arrays = plan.binds.iter().filter(|b| matches!(b, BindValue::TextArray(_))).count();
    assert_eq!(arrays, 1);
}

#[test]
fn plan_with_every_dimension() {
    let options = ListQueryOptions {
        owners: Some(strings(&["O1"])),
        auction_houses: Some(strings(&["A1", "A2"])),
        creators: Some(strings(&["C1"])),
        offerers: Some(strings(&["B1"])),
        attributes: Some(vec![
            attribute("Background", &["Red", "Blue"]),
            attribute("Eyes", &["Laser"]),
        ]),
        listed: Some(true),
        collection: Some(String::from("K1")),
        limit: 10,
        offset: 20,
    };
    let plan = compile_fragments(&options);
    assert_eq!(
        plan.binds,
        vec![
            BindValue::Integer(10),
            BindValue::Integer(20),
            BindValue::TextArray(strings(&["C1"])),
            BindValue::TextArray(strings(&["A1", "A2"])),
            BindValue::TextArray(strings(&["B1"])),
            BindValue::Text(String::from("Background")),
            BindValue::TextArray(strings(&["Red", "Blue"])),
            BindValue::Text(String::from("Eyes")),
            BindValue::TextArray(strings(&["Laser"])),
            BindValue::TextArray(strings(&["O1"])),
            BindValue::Text(String::from("K1")),
        ]
    );
    assert_eq!(
        plan.joins,
        vec![
            JoinFragment::ListingLookup { auction_houses: 4 },
            JoinFragment::BidLookup { auction_houses: 4, offerers: 5 },
            JoinFragment::Attribute { ordinal: 0, trait_type: 6, values: 7 },
            JoinFragment::Attribute { ordinal: 1, trait_type: 8, values: 9 },
            JoinFragment::Collection { key: 11 },
        ]
    );
    assert_eq!(
        plan.predicates,
        vec![
            PredicateFragment::Owners { owners: 10 },
            PredicateFragment::Creators { creators: 3 },
            PredicateFragment::Listed,
        ]
    );
}

#[test]
fn collection_without_owners_takes_the_place_after_the_attributes() {
    let mut options = bare(1, 0);
    options.collection = Some(String::from("K1"));
    options.attributes = Some(vec![attribute("Hat", &["Cap"])]);
    let plan = compile_fragments(&options);
    assert_eq!(plan.binds.len(), 8);
    assert_eq!(plan.binds[7], BindValue::Text(String::from("K1")));
    assert_eq!(plan.joins[2], JoinFragment::Collection { key: 8 });
}

#[test]
fn listed_false_adds_no_condition() {
    let mut options = bare(1, 0);
    options.listed = Some(false);
    let plan = compile_fragments(&options);
    assert_eq!(plan.predicates, vec![PredicateFragment::Creators { creators: 3 }]);
}

#[test]
fn empty_attribute_list_is_like_none() {
    let mut with_empty = bare(5, 6);
    with_empty.attributes = Some(Vec::new());
    assert_eq!(compile_fragments(&with_empty), compile_fragments(&bare(5, 6)));
}

#[test]
fn empty_sets_are_bound_as_empty_arrays_not_as_null() {
    let mut options = bare(1, 0);
    options.creators = Some(Vec::new());
    options.offerers = Some(Vec::new());
    let plan = compile_fragments(&options);
    assert_eq!(plan.binds[2], BindValue::TextArray(Vec::new()));
    assert_eq!(plan.binds[3], BindValue::NullTextArray);
    assert_eq!(plan.binds[4], BindValue::TextArray(Vec::new()));
    assert_eq!(plan.joins[1], JoinFragment::BidLookup { auction_houses: 4, offerers: 5 });
}

#[test]
fn bind_count_is_five_plus_two_per_attribute() {
    for n in 0..30usize {
        let mut options = bare(1, 0);
        options.creators = Some(strings(&["C1"]));
        let filters: Vec<AttributeFilter> =
            (0..n).map(|i| attribute(&format!("trait{}", i), &["v"])).collect();
        options.attributes = Some(filters);
        let plan = compile_fragments(&options);
        assert_eq!(plan.binds.len(), 2 + 3 + 2 * n);
        for k in 0..n {
            assert_eq!(plan.binds[5 + 2 * k], BindValue::Text(format!("trait{}", k)));
            assert_eq!(plan.binds[6 + 2 * k], BindValue::TextArray(strings(&["v"])));
            assert_eq!(
                plan.joins[1 + k],
                JoinFragment::Attribute { ordinal: k, trait_type: 6 + 2 * k, values: 7 + 2 * k }
            );
        }
    }
}

#[test]
fn duplicate_trait_names_get_a_join_each() {
    let mut options = bare(1, 0);
    options.attributes = Some(vec![attribute("Hat", &["Cap"]), attribute("Hat", &["Crown"])]);
    let plan = compile_fragments(&options);
    assert_eq!(
        plan.joins,
        vec![
            JoinFragment::ListingLookup { auction_houses: 4 },
            JoinFragment::Attribute { ordinal: 0, trait_type: 6, values: 7 },
            JoinFragment::Attribute { ordinal: 1, trait_type: 8, values: 9 },
        ]
    );
    assert_eq!(plan.binds[5], BindValue::Text(String::from("Hat")));
    assert_eq!(plan.binds[6], BindValue::TextArray(strings(&["Cap"])));
    assert_eq!(plan.binds[7], BindValue::Text(String::from("Hat")));
    assert_eq!(plan.binds[8], BindValue::TextArray(strings(&["Crown"])));
}

#[test]
fn every_position_of_a_plan_is_reserved_with_the_right_type() {
    let options = ListQueryOptions {
        owners: Some(strings(&["O1"])),
        auction_houses: None,
        creators: None,
        offerers: Some(strings(&["B1"])),
        attributes: Some(vec![attribute("Eyes", &["Laser"])]),
        listed: Some(true),
        collection: Some(String::from("K1")),
        limit: 3,
        offset: 4,
    };
    let plan = compile_fragments(&options);
    let type_at = |p: usize| plan.binds[p - 1].bind_type();
    assert_eq!(type_at(plan.limit), BindType::Integer);
    assert_eq!(type_at(plan.offset), BindType::Integer);
    for join in &plan.joins {
        match *join {
            JoinFragment::ListingLookup { auction_houses } => {
                assert_eq!(type_at(auction_houses), BindType::TextArray);
            }
            JoinFragment::BidLookup { auction_houses, offerers } => {
                assert_eq!(type_at(auction_houses), BindType::TextArray);
                assert!(matches!(plan.binds[offerers - 1], BindValue::TextArray(_)));
            }
            JoinFragment::Attribute { trait_type, values, .. } => {
                assert_eq!(type_at(trait_type), BindType::Text);
                assert!(matches!(plan.binds[values - 1], BindValue::TextArray(_)));
            }
            JoinFragment::Collection { key } => {
                assert_eq!(type_at(key), BindType::Text);
            }
        }
    }
    for predicate in &plan.predicates {
        match *predicate {
            PredicateFragment::Owners { owners } => {
                assert!(matches!(plan.binds[owners - 1], BindValue::TextArray(_)));
            }
            PredicateFragment::Creators { creators } => {
                assert_eq!(type_at(creators), BindType::TextArray);
            }
            PredicateFragment::Listed => {}
        }
    }
}

#[test]
fn negative_numbers_are_bound_as_given() {
    let plan = compile_fragments(&bare(-1, i64::MIN));
    assert_eq!(plan.binds[0], BindValue::Integer(-1));
    assert_eq!(plan.binds[1], BindValue::Integer(i64::MIN));
}

fn small_plan() -> QueryPlan {
    QueryPlan {
        joins: vec![
            JoinFragment::ListingLookup { auction_houses: 4 },
            JoinFragment::BidLookup { auction_houses: 4, offerers: 5 },
            JoinFragment::Attribute { ordinal: 0, trait_type: 6, values: 7 },
            JoinFragment::Collection { key: 9 },
        ],
        predicates: vec![
            PredicateFragment::Owners { owners: 8 },
            PredicateFragment::Creators { creators: 3 },
            PredicateFragment::Listed,
        ],
        limit: 1,
        offset: 2,
        binds: vec![
            BindValue::Integer(10),
            BindValue::Integer(0),
            BindValue::NullTextArray,
            BindValue::NullTextArray,
            BindValue::TextArray(strings(&["B1"])),
            BindValue::Text(String::from("Eyes")),
            BindValue::TextArray(strings(&["Laser"])),
            BindValue::TextArray(strings(&["O1"])),
            BindValue::Text(String::from("K1")),
        ],
    }
}

#[test]
fn compiled_plans_are_well_bound() {
    assert!(small_plan().is_well_bound());
    assert!(compile_fragments(&bare(1, 0)).is_well_bound());
    for mask in 0..64u32 {
        let mut options = bare(9, 3);
        if mask & 1 != 0 {
            options.owners = Some(strings(&["O"]));
        }
        if mask & 2 != 0 {
            options.creators = Some(strings(&["C"]));
        }
        if mask & 4 != 0 {
            options.auction_houses = Some(strings(&["A"]));
        }
        if mask & 8 != 0 {
            options.offerers = Some(strings(&["B"]));
        }
        if mask & 16 != 0 {
            options.attributes = Some(vec![attribute("Hat", &["Cap"]), attribute("Eyes", &[])]);
        }
        if mask & 32 != 0 {
            options.collection = Some(String::from("K"));
        }
        assert!(compile_fragments(&options).is_well_bound());
    }
}

#[test]
fn position_out_of_the_binds_is_not_well_bound() {
    let mut plan = small_plan();
    plan.joins[3] = JoinFragment::Collection { key: 10 };
    assert!(!plan.is_well_bound());
    let mut plan = small_plan();
    plan.joins[0] = JoinFragment::ListingLookup { auction_houses: 0 };
    assert!(!plan.is_well_bound());
    let mut plan = small_plan();
    plan.limit = 0;
    assert!(!plan.is_well_bound());
    let mut plan = small_plan();
    plan.offset = usize::MAX;
    assert!(!plan.is_well_bound());
    let mut plan = small_plan();
    plan.binds.pop();
    assert!(!plan.is_well_bound());
}

#[test]
fn position_of_another_type_is_not_well_bound() {
    let mut plan = small_plan();
    plan.limit = 3;
    assert!(!plan.is_well_bound());
    let mut plan = small_plan();
    plan.offset = 6;
    assert!(!plan.is_well_bound());
    let mut plan = small_plan();
    plan.joins[0] = JoinFragment::ListingLookup { auction_houses: 6 };
    assert!(!plan.is_well_bound());
    let mut plan = small_plan();
    plan.joins[1] = JoinFragment::BidLookup { auction_houses: 1, offerers: 5 };
    assert!(!plan.is_well_bound());
    let mut plan = small_plan();
    plan.joins[1] = JoinFragment::BidLookup { auction_houses: 4, offerers: 4 };
    assert!(!plan.is_well_bound());
    let mut plan = small_plan();
    plan.joins[2] = JoinFragment::Attribute { ordinal: 0, trait_type: 7, values: 7 };
    assert!(!plan.is_well_bound());
    let mut plan = small_plan();
    plan.joins[2] = JoinFragment::Attribute { ordinal: 0, trait_type: 6, values: 3 };
    assert!(!plan.is_well_bound());
    let mut plan = small_plan();
    plan.joins[3] = JoinFragment::Collection { key: 8 };
    assert!(!plan.is_well_bound());
    let mut plan = small_plan();
    plan.predicates[0] = PredicateFragment::Owners { owners: 3 };
    assert!(!plan.is_well_bound());
    let mut plan = small_plan();
    plan.predicates[1] = PredicateFragment::Creators { creators: 9 };
    assert!(!plan.is_well_bound());
}

#[test]
fn fragments_are_held_against_the_binds() {
    let binds = small_plan().binds;
    assert!(JoinFragment::ListingLookup { auction_houses: 5 }.is_well_bound(&binds));
    assert!(JoinFragment::ListingLookup { auction_houses: 3 }.is_well_bound(&binds));
    assert!(!JoinFragment::ListingLookup { auction_houses: 1 }.is_well_bound(&binds));
    assert!(PredicateFragment::Listed.is_well_bound(&Vec::new()));
    assert!(!PredicateFragment::Creators { creators: 3 }.is_well_bound(&Vec::new()));
    assert!(PredicateFragment::Owners { owners: 7 }.is_well_bound(&binds));
}
