//! The query for the featured, active listings of the marketplace.

use vstd::prelude::*;
use crate::ledger::{BindValue, BindValueView};
use crate::statement::{CompiledStatement, CompiledStatementView};

verus! {

/// The auction house whose listings are featured.
pub const HOLAPLEX_MARKETPLACES_ADDRESS: &'static str =
    "9SvsTjqk3YoicaYnC4VW1f8QAN9ku7QCCk6AyfUdzc9t";

/// The statement: the newest active listings of one auction house.
pub const FEATURED_LISTINGS_QUERY: &'static str = "
select
    listing_receipts.address,
    listing_receipts.metadata,
    listing_receipts.created_at

from listing_receipts

where
    listing_receipts.auction_house = $1
    and listing_receipts.purchase_receipt is null
    and listing_receipts.canceled_at is null
    and listing_receipts.price is not null

order by listing_receipts.created_at desc
limit $2
offset $3
-- $1: auction_house::text
-- $2: limit::integer
-- $3: offset::integer";

/// The offset that is taken where none is given.
pub open spec fn offset_or_zero(offset: Option<i32>) -> i32 {
    match offset {
        Some(n) => n,
        None => 0,
    }
}

/// The statement of a page of featured listings.
pub open spec fn featured_statement(limit: i32, offset: Option<i32>) -> CompiledStatementView {
    CompiledStatementView {
        sql: FEATURED_LISTINGS_QUERY@,
        binds: seq![
            BindValueView::Text(HOLAPLEX_MARKETPLACES_ADDRESS@),
            BindValueView::Integer(limit as i64),
            BindValueView::Integer(offset_or_zero(offset) as i64),
        ],
    }
}

/// Compiles the query for a page of featured, active listings: the fixed
/// text, with the auction house, the limit and the offset as its binds. An
/// offset that is not given is zero.
pub fn list(limit: i32, offset: Option<i32>) -> (statement: CompiledStatement)
    ensures
        statement@ == featured_statement(limit, offset),
{
    let offset: i32 = match offset {
        Some(n) => n,
        None => 0,
    };
    let mut sql = String::new();
    sql.append(FEATURED_LISTINGS_QUERY);
    let mut binds: Vec<BindValue> = Vec::new();
    binds.push(BindValue::Text(HOLAPLEX_MARKETPLACES_ADDRESS.to_owned()));
    binds.push(BindValue::Integer(limit as i64));
    binds.push(BindValue::Integer(offset as i64));
    let statement = CompiledStatement { sql, binds };
    assert(statement.sql@ =~= FEATURED_LISTINGS_QUERY@);
    assert(statement.binds.deep_view() =~= featured_statement(limit, Some(offset)).binds);
    statement
}

} // verus!
