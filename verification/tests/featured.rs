use nft_queries::ledger::BindValue;
use nft_queries::listings_featured::{list, FEATURED_LISTINGS_QUERY, HOLAPLEX_MARKETPLACES_ADDRESS};

#[test]
fn featured_listings_statement() {
    let statement = list(20, Some(40));
    assert_eq!(
        statement.sql,
        "
select
    listing_receipts.address,
    listing_receipts.metadata,
    listing_receipts.created_at

from listing_receipts

where
    listing_receipts.auction_house = $1
    and listing_receipts.purchase_receipt is null
    and listing_receipts.canceled_at is null
    and listing_receipts.price is not null

order by listing_receipts.created_at desc
limit $2
offset $3
-- $1: auction_house::text
-- $2: limit::integer
-- $3: offset::integer"
    );
    assert_eq!(statement.sql, FEATURED_LISTINGS_QUERY);
    assert_eq!(
        statement.binds,
        vec![
            BindValue::Text(String::from("9SvsTjqk3YoicaYnC4VW1f8QAN9ku7QCCk6AyfUdzc9t")),
            BindValue::Integer(20),
            BindValue::Integer(40),
        ]
    );
}

#[test]
fn featured_listings_offset_defaults_to_zero() {
    let statement = list(5, None);
    assert_eq!(
        statement.binds,
        vec![
            BindValue::Text(String::from(HOLAPLEX_MARKETPLACES_ADDRESS)),
            BindValue::Integer(5),
            BindValue::Integer(0),
        ]
    );
}

#[test]
fn featured_listings_binds_extreme_numbers_as_given() {
    let statement = list(i32::MIN, Some(i32::MAX));
    assert_eq!(statement.binds[1], BindValue::Integer(-2147483648));
    assert_eq!(statement.binds[2], BindValue::Integer(2147483647));
}
