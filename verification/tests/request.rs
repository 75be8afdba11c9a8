use nft_queries::denylist::DenylistPredicates;
use nft_queries::error::QueryError;
use nft_queries::ledger::BindValue;
use nft_queries::metadatas::{list, AttributeFilter, ListQueryOptions};
use nft_queries::request::{compile, DimensionKind, FilterDimension, QueryRequest};

fn strings(items: &[&str]) -> Vec<String> {
    items.iter().map(|s| String::from(*s)).collect()
}

fn attribute(trait_type: &str, values: &[&str]) -> FilterDimension {
    FilterDimension::Attribute { trait_type: String::from(trait_type), values: strings(values) }
}

fn request(dimensions: Vec<FilterDimension>, limit: u32, offset: u32) -> QueryRequest {
    QueryRequest { dimensions, limit, offset }
}

fn denylist() -> DenylistPredicates {
    DenylistPredicates {
        owner_address_ok: String::from("OWNER_OK"),
        listing_address_ok: String::from("LISTING_OK"),
    }
}

#[test]
fn kinds_of_the_dimensions() {
    assert_eq!(FilterDimension::Owners(Vec::new()).kind(), DimensionKind::Owners);
    assert_eq!(FilterDimension::Creators(Vec::new()).kind(), DimensionKind::Creators);
    assert_eq!(FilterDimension::AuctionHouses(Vec::new()).kind(), DimensionKind::AuctionHouses);
    assert_eq!(FilterDimension::Offerers(Vec::new()).kind(), DimensionKind::Offerers);
    assert_eq!(attribute("Hat", &[]).kind(), DimensionKind::Attribute);
    assert_eq!(FilterDimension::ListedOnly(false).kind(), DimensionKind::ListedOnly);
    assert_eq!(FilterDimension::Collection(String::new()).kind(), DimensionKind::Collection);
}

#[test]
fn validation_sorts_the_dimensions_into_options() {
    let r = request(
        vec![
            FilterDimension::Collection(String::from("K1")),
            attribute("Background", &["Red", "Blue"]),
            FilterDimension::ListedOnly(true),
            FilterDimension::Offerers(strings(&["B1"])),
            attribute("Eyes", &["Laser"]),
            FilterDimension::AuctionHouses(strings(&["A1"])),
            FilterDimension::Creators(strings(&["C1", "C2"])),
            FilterDimension::Owners(strings(&["O1"])),
        ],
        30,
        60,
    );
    assert_eq!(
        r.validate(),
        Ok(ListQueryOptions {
            owners: Some(strings(&["O1"])),
            auction_houses: Some(strings(&["A1"])),
            creators: Some(strings(&["C1", "C2"])),
            offerers: Some(strings(&["B1"])),
            attributes: Some(vec![
                AttributeFilter {
                    trait_type: String::from("Background"),
                    values: strings(&["Red", "Blue"]),
                },
                AttributeFilter { trait_type: String::from("Eyes"), values: strings(&["Laser"]) },
            ]),
            listed: Some(true),
            collection: Some(String::from("K1")),
            limit: 30,
            offset: 60,
        })
    );
}

#[test]
fn validation_of_a_request_without_dimensions() {
    assert_eq!(
        request(Vec::new(), 1, 0).validate(),
        Ok(ListQueryOptions {
            owners: None,
            auction_houses: None,
            creators: None,
            offerers: None,
            attributes: None,
            listed: None,
            collection: None,
            limit: 1,
            offset: 0,
        })
    );
}

#[test]
fn validation_keeps_the_largest_page() {
    let options = request(Vec::new(), u32::MAX, u32::MAX).validate().unwrap();
    assert_eq!(options.limit, 4294967295);
    assert_eq!(options.offset, 4294967295);
}

#[test]
fn validation_keeps_a_listed_flag_that_is_false() {
    let options = request(vec![FilterDimension::ListedOnly(false)], 1, 0).validate().unwrap();
    assert_eq!(options.listed, Some(false));
}

#[test]
fn second_instance_of_a_dimension_is_an_invalid_combination() {
    let doubles = vec![
        (FilterDimension::Owners(strings(&["a"])), FilterDimension::Owners(strings(&["b"]))),
        (FilterDimension::Creators(strings(&["a"])), FilterDimension::Creators(strings(&["a"]))),
        (FilterDimension::AuctionHouses(Vec::new()), FilterDimension::AuctionHouses(Vec::new())),
        (FilterDimension::Offerers(strings(&["a"])), FilterDimension::Offerers(strings(&["b"]))),
        (FilterDimension::ListedOnly(true), FilterDimension::ListedOnly(false)),
        (
            FilterDimension::Collection(String::from("K1")),
            FilterDimension::Collection(String::from("K1")),
        ),
    ];
    for (first, second) in doubles {
        let adjacent = request(vec![first.clone(), second.clone()], 10, 0);
        assert_eq!(adjacent.validate(), Err(QueryError::InvalidFilterCombination));
        let apart = request(
            vec![first, attribute("Hat", &["Cap"]), attribute("Hat", &["Cap"]), second],
            10,
            0,
        );
        assert_eq!(apart.validate(), Err(QueryError::InvalidFilterCombination));
        assert_eq!(compile(&apart, &denylist()), Err(QueryError::InvalidFilterCombination));
    }
}

#[test]
fn attribute_filters_may_repeat() {
    let r = request(
        vec![attribute("Hat", &["Cap"]), attribute("Hat", &["Cap"]), attribute("Hat", &["Crown"])],
        10,
        0,
    );
    let options = r.validate().unwrap();
    assert_eq!(options.attributes.as_ref().map(|a| a.len()), Some(3));
    let statement = compile(&r, &denylist()).unwrap();
    assert_eq!(statement.binds.len(), 11);
    assert!(statement.sql.contains(") attributes_2 ON TRUE\n"));
}

#[test]
fn limit_of_zero_is_invalid_pagination() {
    let r = request(vec![FilterDimension::Owners(strings(&["O1"]))], 0, 0);
    assert_eq!(r.validate(), Err(QueryError::InvalidPagination));
    assert_eq!(compile(&r, &denylist()), Err(QueryError::InvalidPagination));
}

#[test]
fn invalid_combination_is_reported_before_invalid_pagination() {
    let r = request(
        vec![FilterDimension::ListedOnly(true), FilterDimension::ListedOnly(true)],
        0,
        0,
    );
    assert_eq!(r.validate(), Err(QueryError::InvalidFilterCombination));
}

#[test]
fn identity_is_borne_by_five_of_the_dimensions() {
    assert!(!request(Vec::new(), 1, 0).has_identity());
    assert!(!request(vec![attribute("Hat", &["Cap"]), FilterDimension::ListedOnly(true)], 1, 0)
        .has_identity());
    for dimension in [
        FilterDimension::Owners(Vec::new()),
        FilterDimension::Creators(Vec::new()),
        FilterDimension::AuctionHouses(Vec::new()),
        FilterDimension::Offerers(Vec::new()),
        FilterDimension::Collection(String::new()),
    ] {
        let r = request(
            vec![attribute("Hat", &["Cap"]), dimension, FilterDimension::ListedOnly(true)],
            1,
            0,
        );
        assert!(r.has_identity());
    }
}

#[test]
fn compile_is_list_of_the_validated_options() {
    let r = request(
        vec![
            attribute("Eyes", &["Laser"]),
            FilterDimension::Creators(strings(&["C1"])),
            FilterDimension::Collection(String::from("K1")),
        ],
        12,
        24,
    );
    let options = r.validate().unwrap();
    assert_eq!(compile(&r, &denylist()), Ok(list(&options, &denylist())));
}

#[test]
fn only_owners_binds_one_array_and_joins_no_attribute() {
    for owners in [strings(&["O1"]), strings(&["O1", "O2", "O3"]), Vec::new()] {
        let r = request(vec![FilterDimension::Owners(owners.clone())], 10, 5);
        let statement = compile(&r, &denylist()).unwrap();
        assert_eq!(
            statement.binds,
            vec![
                BindValue::Integer(10),
                BindValue::Integer(5),
                BindValue::NullTextArray,
                BindValue::NullTextArray,
                BindValue::NullTextArray,
                BindValue::TextArray(owners),
            ]
        );
        assert_eq!(statement.sql.matches("FROM attributes").count(), 0);
        assert_eq!(statement.sql.matches("FROM bid_receipts").count(), 0);
        assert_eq!(statement.sql.matches("metadata_collection_keys").count(), 0);
        assert_eq!(statement.sql.matches("= ANY($6)").count(), 1);
        assert!(statement.sql.contains("    AND current_metadata_owners.owner_address = ANY($6)\n"));
    }
}

#[test]
fn creators_and_listed_only_scenario() {
    let r = request(
        vec![FilterDimension::Creators(strings(&["C1"])), FilterDimension::ListedOnly(true)],
        10,
        0,
    );
    let statement = compile(&r, &denylist()).unwrap();
    assert_eq!(
        statement.binds,
        vec![
            BindValue::Integer(10),
            BindValue::Integer(0),
            BindValue::TextArray(strings(&["C1"])),
            BindValue::NullTextArray,
            BindValue::NullTextArray,
        ]
    );
    assert!(statement.sql.contains("    AND listing_receipts.price IS NOT NULL\n"));
    assert!(!statement.sql.contains("bid_receipts"));
}

#[test]
fn offerers_and_auction_houses_scenario() {
    let r = request(
        vec![
            FilterDimension::Offerers(strings(&["B1"])),
            FilterDimension::AuctionHouses(strings(&["A1"])),
        ],
        10,
        0,
    );
    let statement = compile(&r, &denylist()).unwrap();
    assert_eq!(
        statement.binds,
        vec![
            BindValue::Integer(10),
            BindValue::Integer(0),
            BindValue::NullTextArray,
            BindValue::TextArray(strings(&["A1"])),
            BindValue::TextArray(strings(&["B1"])),
        ]
    );
    assert!(statement.sql.contains("    ) bid_receipts ON TRUE\n"));
    assert!(statement
        .sql
        .contains("AND ($4 IS NULL OR listing_receipts.auction_house = ANY($4))"));
    assert!(statement.sql.contains("AND ($4 IS NULL OR bid_receipts.auction_house = ANY($4))"));
    assert!(statement.sql.contains("AND bid_receipts.buyer = ANY($5)"));
    let houses = statement
        .binds
        .iter()
        .filter(|b| **b == BindValue::TextArray(strings(&["A1"])))
        .count();
    assert_eq!(houses, 1);
    assert_eq!(statement.sql.matches("auction_house = ANY(").count(), 2);
    assert_eq!(statement.sql.matches("auction_house = ANY($4)").count(), 2);
}

#[test]
fn two_attribute_filters_scenario() {
    let background = attribute("Background", &["Red", "Blue"]);
    let eyes = attribute("Eyes", &["Laser"]);
    let expected = vec![
        BindValue::Integer(10),
        BindValue::Integer(0),
        BindValue::TextArray(strings(&["C1"])),
        BindValue::NullTextArray,
        BindValue::NullTextArray,
        BindValue::Text(String::from("Background")),
        BindValue::TextArray(strings(&["Red", "Blue"])),
        BindValue::Text(String::from("Eyes")),
        BindValue::TextArray(strings(&["Laser"])),
    ];
    let creators = FilterDimension::Creators(strings(&["C1"]));
    let orders = vec![
        vec![background.clone(), eyes.clone(), creators.clone()],
        vec![background.clone(), creators.clone(), eyes.clone()],
        vec![creators.clone(), background.clone(), eyes.clone()],
    ];
    let mut texts = Vec::new();
    for dimensions in orders {
        let statement = compile(&request(dimensions, 10, 0), &denylist()).unwrap();
        assert_eq!(statement.binds, expected);
        assert!(statement.sql.contains(
            "                AND attributes.trait_type = $6
                AND attributes.value = ANY($7)
    ) attributes_0 ON TRUE
"
        ));
        assert!(statement.sql.contains(
            "                AND attributes.trait_type = $8
                AND attributes.value = ANY($9)
    ) attributes_1 ON TRUE
"
        ));
        texts.push(statement.sql);
    }
    assert_eq!(texts[0], texts[1]);
    assert_eq!(texts[1], texts[2]);
}

#[test]
fn declaration_order_of_attribute_filters_is_kept() {
    let r = request(
        vec![
            attribute("Eyes", &["Laser"]),
            FilterDimension::Owners(strings(&["O1"])),
            attribute("Background", &["Red", "Blue"]),
        ],
        10,
        0,
    );
    let statement = compile(&r, &denylist()).unwrap();
    assert_eq!(statement.binds[5], BindValue::Text(String::from("Eyes")));
    assert_eq!(statement.binds[6], BindValue::TextArray(strings(&["Laser"])));
    assert_eq!(statement.binds[7], BindValue::Text(String::from("Background")));
    assert_eq!(statement.binds[8], BindValue::TextArray(strings(&["Red", "Blue"])));
    assert_eq!(statement.binds[9], BindValue::TextArray(strings(&["O1"])));
}

#[test]
fn order_of_the_other_dimensions_decides_nothing() {
    let dimensions = vec![
        FilterDimension::Owners(strings(&["O1"])),
        FilterDimension::Creators(strings(&["C1"])),
        FilterDimension::AuctionHouses(strings(&["A1"])),
        FilterDimension::Offerers(strings(&["B1"])),
        FilterDimension::ListedOnly(true),
        FilterDimension::Collection(String::from("K1")),
    ];
    let forward = compile(&request(dimensions.clone(), 7, 8), &denylist()).unwrap();
    let mut reversed = dimensions.clone();
    reversed.reverse();
    assert_eq!(compile(&request(reversed, 7, 8), &denylist()).unwrap(), forward);
    let mut rotated = dimensions;
    rotated.rotate_left(2);
    assert_eq!(compile(&request(rotated, 7, 8), &denylist()).unwrap(), forward);
}

#[test]
fn compiling_twice_gives_the_same_statement() {
    let r = request(
        vec![
            FilterDimension::Owners(strings(&["O1", "O2"])),
            attribute("Background", &["Red", "Blue"]),
            FilterDimension::Offerers(strings(&["B1"])),
            FilterDimension::ListedOnly(true),
        ],
        10,
        20,
    );
    let first = compile(&r, &denylist()).unwrap();
    let second = compile(&r, &denylist()).unwrap();
    assert_eq!(first.sql.as_bytes(), second.sql.as_bytes());
    assert_eq!(first.binds, second.binds);
    let refused = request(vec![FilterDimension::ListedOnly(true); 2], 10, 20);
    assert_eq!(compile(&refused, &denylist()), compile(&refused, &denylist()));
}

#[test]
fn messages_of_the_errors() {
    assert_eq!(
        QueryError::NoFilter.message(),
        "No filter provided! Please provide at least one of the filters"
    );
    assert_eq!(
        QueryError::InvalidFilterCombination.message(),
        "Invalid filter combination! Each filter but the attribute filter may be given once"
    );
    assert_eq!(
        QueryError::InvalidPagination.message(),
        "Invalid pagination! The limit or the offset is out of range"
    );
}
