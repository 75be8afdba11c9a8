//! Queries on NFT metadata: the options of a listing and its statement.

use vstd::prelude::*;
use crate::denylist::{DenylistPredicates, DenylistPredicatesView};
use crate::ledger::{BindValue, BindValueView};
use crate::plan::{compile_fragments, plan_of};
use crate::text::clone_strings;
use crate::statement::{assemble, statement_of, CompiledStatement, CompiledStatementView};

verus! {

/// A filter on one trait: the item has the trait with one of the values.
#[derive(Clone, Debug, PartialEq, Eq)]
pub struct AttributeFilter {
    /// name of trait
    pub trait_type: String,
    /// array of trait values
    pub values: Vec<String>,
}

/// The mathematical value of an [`AttributeFilter`].
pub struct AttributeFilterView {
    pub trait_type: Seq<char>,
    pub values: Seq<Seq<char>>,
}

impl View for AttributeFilter {
    type V = AttributeFilterView;

    open spec fn view(&self) -> AttributeFilterView {
        AttributeFilterView { trait_type: self.trait_type@, values: self.values.deep_view() }
    }
}

impl DeepView for AttributeFilter {
    type V = AttributeFilterView;

    open spec fn deep_view(&self) -> AttributeFilterView {
        self@
    }
}

/// The options of one listing: each filter dimension at most once, the
/// attribute filters in the order in which they were declared.
#[derive(Clone, Debug, PartialEq, Eq)]
pub struct ListQueryOptions {
    /// nft owners
    pub owners: Option<Vec<String>>,
    /// auction houses
    pub auction_houses: Option<Vec<String>>,
    /// nft creators
    pub creators: Option<Vec<String>>,
    /// offerers who provided offers on nft
    pub offerers: Option<Vec<String>>,
    /// nft attributes
    pub attributes: Option<Vec<AttributeFilter>>,
    /// nfts listed for sale
    pub listed: Option<bool>,
    /// nft in a specific collection
    pub collection: Option<String>,
    /// limit to apply to query
    pub limit: i64,
    /// offset to apply to query
    pub offset: i64,
}

/// The mathematical value of [`ListQueryOptions`].
pub struct ListQueryOptionsView {
    pub owners: Option<Seq<Seq<char>>>,
    pub auction_houses: Option<Seq<Seq<char>>>,
    pub creators: Option<Seq<Seq<char>>>,
    pub offerers: Option<Seq<Seq<char>>>,
    pub attributes: Option<Seq<AttributeFilterView>>,
    pub listed: Option<bool>,
    pub collection: Option<Seq<char>>,
    pub limit: i64,
    pub offset: i64,
}

impl View for ListQueryOptions {
    type V = ListQueryOptionsView;

    open spec fn view(&self) -> ListQueryOptionsView {
        ListQueryOptionsView {
            owners: self.owners.deep_view(),
            auction_houses: self.auction_houses.deep_view(),
            creators: self.creators.deep_view(),
            offerers: self.offerers.deep_view(),
            attributes: self.attributes.deep_view(),
            listed: self.listed,
            collection: self.collection.deep_view(),
            limit: self.limit,
            offset: self.offset,
        }
    }
}

impl ListQueryOptionsView {
    /// The attribute filters in declaration order; none where the
    /// dimension is absent.
    pub open spec fn attribute_filters(self) -> Seq<AttributeFilterView> {
        match self.attributes {
            Some(filters) => filters,
            None => Seq::empty(),
        }
    }

    /// The same options, with the attribute filters absent where there is
    /// none of them.
    pub open spec fn normalized(self) -> ListQueryOptionsView {
        ListQueryOptionsView {
            attributes: if self.attribute_filters().len() == 0 {
                None
            } else {
                Some(self.attribute_filters())
            },
            ..self
        }
    }

    /// Whether only listed items are asked for.
    pub open spec fn listed_only(self) -> bool {
        self.listed == Some(true)
    }

    /// Whether a dimension is present that names whose items are asked for.
    pub open spec fn has_identity(self) -> bool {
        self.collection is Some || self.owners is Some || self.creators is Some
            || self.auction_houses is Some || self.offerers is Some
    }
}

/// The statement of a listing.
pub open spec fn list_statement(
    options: ListQueryOptionsView,
    denylist: DenylistPredicatesView,
) -> CompiledStatementView {
    statement_of(plan_of(options), denylist)
}

/// Compiles the listing that `options` describe into one statement: the
/// items that pass every filter present and both denylist conditions,
/// listed items first by falling price, then by name, cut to the page that
/// limit and offset give.
pub fn list(options: &ListQueryOptions, denylist: &DenylistPredicates) -> (statement:
    CompiledStatement)
    ensures
        statement@ == list_statement(options@, denylist@),
{
    assemble(compile_fragments(options), denylist)
}

/// The statement that loads the listing and sales activity of metadata
/// addresses.
pub const ACTIVITIES_QUERY: &'static str = "
    SELECT address, metadata, auction_house, price, auction_house, created_at, array[seller::text] as wallets, 'listing' as activity_type
        FROM listing_receipts WHERE metadata = ANY($1)
    UNION
    SELECT address, metadata, auction_house, price, auction_house, created_at, array[seller::text, buyer::text] as wallets, 'purchase' as activity_type
        FROM purchase_receipts WHERE metadata = ANY($1)
    ORDER BY created_at DESC;
 -- $1: addresses::text[]";

/// The statement of the activity of `addresses`.
pub open spec fn activities_statement(addresses: Seq<Seq<char>>) -> CompiledStatementView {
    CompiledStatementView {
        sql: ACTIVITIES_QUERY@,
        binds: seq![BindValueView::TextArray(addresses)],
    }
}

/// Compiles the query for the listing and sales activity of the items at
/// `addresses`: one fixed text, the addresses as its only bind.
pub fn activities(addresses: &Vec<String>) -> (statement: CompiledStatement)
    ensures
        statement@ == activities_statement(addresses.deep_view()),
{
    let mut sql = String::new();
    sql.append(ACTIVITIES_QUERY);
    let mut binds: Vec<BindValue> = Vec::new();
    binds.push(BindValue::TextArray(clone_strings(addresses)));
    let statement = CompiledStatement { sql, binds };
    assert(statement.sql@ =~= ACTIVITIES_QUERY@);
    assert(statement.binds.deep_view() =~= seq![BindValueView::TextArray(addresses.deep_view())]);
    statement
}

} // verus!
