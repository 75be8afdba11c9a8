//! What holds of every compilation.

use vstd::prelude::*;
use crate::denylist::DenylistPredicatesView;
use crate::error::QueryError;
use crate::fragment::{
    joins_text,
    predicates_text,
    JoinFragmentView,
    PredicateFragmentView,
};
use crate::ledger::BindValueView;
use crate::metadatas::{list_statement, AttributeFilterView, ListQueryOptionsView};
use crate::query_root::nfts_request;
use crate::request::{
    addresses_of,
    attribute_dimensions,
    attribute_filters_of,
    auction_houses_dimension,
    collection_dimension,
    collection_of,
    creators_dimension,
    dimensions_of,
    dimensions_unique,
    lemma_attribute_filters_push,
    lemma_slot,
    lemma_slot_is_membership,
    lemma_slot_push,
    lemma_unique_push,
    listed_dimension,
    listed_of,
    offerers_dimension,
    optional_dimension,
    owners_dimension,
    slot,
    DimensionKind,
    FilterDimensionView,
    QueryRequestView,
};
use crate::plan::{
    array_or_null,
    attribute_joins,
    attribute_position,
    bid_joins,
    bind_count,
    collection_joins,
    lemma_bind_positions,
    plan_binds,
    plan_joins,
    plan_of,
    plan_predicates,
    AUCTION_HOUSES_POSITION,
    CREATORS_POSITION,
    LIMIT_POSITION,
    OFFERERS_POSITION,
    OFFSET_POSITION,
};
use crate::statement::{
    denylist_text,
    pagination_text,
    CompiledStatementView,
    ORDER_CLAUSE,
    SELECT_CLAUSE,
    WHERE_CLAUSE,
};

verus! {

/// Without the owner set and the collection key, a listing with `n`
/// attribute filters binds `2 + 3 + 2n` values: limit and offset, the three
/// fixed sets, and a pair for each filter.
pub proof fn lemma_bind_count(o: ListQueryOptionsView)
    requires
        o.owners is None,
        o.collection is None,
    ensures
        plan_binds(o).len() == 2 + 3 + 2 * o.attribute_filters().len(),
{
    lemma_bind_positions(o);
}

/// With only the owner set given, a listing binds the owners as its one
/// array, after the three null arrays of the absent sets, and joins nothing
/// but the listing lookup: no attribute join, no bid lookup, no collection.
pub proof fn lemma_owners_only(o: ListQueryOptionsView, owners: Seq<Seq<char>>)
    requires
        o.owners == Some(owners),
        o.creators is None,
        o.auction_houses is None,
        o.offerers is None,
        o.attribute_filters().len() == 0,
        o.listed is None,
        o.collection is None,
    ensures
        plan_binds(o) == seq![
            BindValueView::Integer(o.limit),
            BindValueView::Integer(o.offset),
            BindValueView::NullTextArray,
            BindValueView::NullTextArray,
            BindValueView::NullTextArray,
            BindValueView::TextArray(owners),
        ],
        plan_joins(o) == seq![
            JoinFragmentView::ListingLookup { auction_houses: AUCTION_HOUSES_POSITION as nat },
        ],
        plan_predicates(o) == seq![
            PredicateFragmentView::Owners { owners: 6 },
            PredicateFragmentView::Creators { creators: CREATORS_POSITION as nat },
        ],
{
    assert(plan_binds(o) =~= seq![
        BindValueView::Integer(o.limit),
        BindValueView::Integer(o.offset),
        BindValueView::NullTextArray,
        BindValueView::NullTextArray,
        BindValueView::NullTextArray,
        BindValueView::TextArray(owners),
    ]);
    assert(plan_joins(o) =~= seq![
        JoinFragmentView::ListingLookup { auction_houses: AUCTION_HOUSES_POSITION as nat },
    ]);
    assert(plan_predicates(o) =~= seq![
        PredicateFragmentView::Owners { owners: 6 },
        PredicateFragmentView::Creators { creators: CREATORS_POSITION as nat },
    ]);
}

/// The bid lookup is joined exactly where offerers are given. It then
/// stands right after the listing lookup, and both take their auction
/// houses from one and the same position: the set is bound once.
pub proof fn lemma_auction_houses_shared(o: ListQueryOptionsView)
    ensures
        plan_joins(o)[0] == (JoinFragmentView::ListingLookup {
            auction_houses: AUCTION_HOUSES_POSITION as nat,
        }),
        o.offerers is Some ==> plan_joins(o)[1] == (JoinFragmentView::BidLookup {
            auction_houses: AUCTION_HOUSES_POSITION as nat,
            offerers: OFFERERS_POSITION as nat,
        }),
        o.offerers is None ==> forall|i: int|
            0 <= i < plan_joins(o).len() ==> !((#[trigger] plan_joins(o)[i]) is BidLookup),
        plan_binds(o)[AUCTION_HOUSES_POSITION - 1] == array_or_null(o.auction_houses),
        plan_binds(o).len() == bind_count(o),
{
    lemma_bind_positions(o);
    let n = o.attribute_filters().len();
    if o.offerers is Some {
        assert(plan_joins(o)[1] == bid_joins(o)[0]);
    } else {
        assert forall|i: int| 0 <= i < plan_joins(o).len() implies !((
        #[trigger] plan_joins(o)[i]) is BidLookup) by {
            if i == 0 {
            } else if i < 1 + n {
                assert(plan_joins(o)[i] == attribute_joins(n)[i - 1]);
            } else {
                assert(plan_joins(o)[i] == collection_joins(o)[i - 1 - n]);
            }
        }
    }
}

/// Whatever the filters, a statement closes with the same three parts: the
/// two denylist conditions, the ordering by falling price and rising name,
/// and the pagination by the first and the second bind.
pub proof fn lemma_statement_closing(o: ListQueryOptionsView, denylist: DenylistPredicatesView)
    ensures
        list_statement(o, denylist).sql == (SELECT_CLAUSE@ + joins_text(plan_joins(o))
            + WHERE_CLAUSE@ + predicates_text(plan_predicates(o))) + (denylist_text(denylist)
            + ORDER_CLAUSE@ + pagination_text(LIMIT_POSITION as nat, OFFSET_POSITION as nat)),
        list_statement(o, denylist).binds == plan_binds(o),
{
    let head = SELECT_CLAUSE@ + joins_text(plan_joins(o)) + WHERE_CLAUSE@ + predicates_text(
        plan_predicates(o),
    );
    let tail = denylist_text(denylist) + ORDER_CLAUSE@ + pagination_text(
        LIMIT_POSITION as nat,
        OFFSET_POSITION as nat,
    );
    assert(list_statement(o, denylist).sql =~= head + tail);
}

/// Compilation is a function of the request and the denylist conditions:
/// two outcomes for the same request, whenever they were computed, have
/// the same text and the same binds in the same order, or are the same
/// refusal.
pub proof fn lemma_compile_idempotent(
    request: QueryRequestView,
    denylist: DenylistPredicatesView,
    first: Result<CompiledStatementView, QueryError>,
    second: Result<CompiledStatementView, QueryError>,
)
    requires
        first == request.compiled(denylist),
        second == request.compiled(denylist),
    ensures
        first == second,
        first matches Ok(a) ==> second matches Ok(b) && a.sql == b.sql && a.binds == b.binds,
{
}

/// Options do not tell an absent list of attribute filters from an empty
/// one: both compile alike.
pub proof fn lemma_normalized_alike(o: ListQueryOptionsView, denylist: DenylistPredicatesView)
    ensures
        plan_of(o.normalized()) == plan_of(o),
        list_statement(o.normalized(), denylist) == list_statement(o, denylist),
{
    let n = o.normalized();
    assert(n.attribute_filters() =~= o.attribute_filters());
}

/// Adding one dimension whose place is empty, or none, at the end.
proof fn lemma_add_optional(
    dimensions: Seq<FilterDimensionView>,
    added: Option<FilterDimensionView>,
)
    requires
        dimensions_unique(dimensions),
        added matches Some(d) ==> !d.kind().repeatable() && slot(dimensions, d.kind()) is None,
    ensures
        dimensions_unique(dimensions + optional_dimension(added)),
        attribute_filters_of(dimensions + optional_dimension(added)) == attribute_filters_of(
            dimensions,
        ),
        forall|kind: DimensionKind| #[trigger]
            slot(dimensions + optional_dimension(added), kind) == if added matches Some(d)
                && d.kind() == kind {
                added
            } else {
                slot(dimensions, kind)
            },
{
    match added {
        Some(d) => {
            assert(dimensions + optional_dimension(added) =~= dimensions.push(d));
            lemma_unique_push(dimensions, d);
            lemma_attribute_filters_push(dimensions, d);
            assert forall|kind: DimensionKind| #[trigger]
                slot(dimensions.push(d), kind) == if d.kind() == kind {
                    added
                } else {
                    slot(dimensions, kind)
                } by {
                lemma_slot_push(dimensions, d, kind);
            }
        },
        None => {
            assert(dimensions + optional_dimension(added) =~= dimensions);
        },
    }
}

/// Adding the dimensions of attribute filters at the end.
proof fn lemma_add_attributes(
    dimensions: Seq<FilterDimensionView>,
    filters: Seq<AttributeFilterView>,
)
    requires
        dimensions_unique(dimensions),
    ensures
        dimensions_unique(dimensions + attribute_dimensions(filters)),
        attribute_filters_of(dimensions + attribute_dimensions(filters)) == attribute_filters_of(
            dimensions,
        ) + filters,
        forall|kind: DimensionKind|
            kind != DimensionKind::Attribute ==> #[trigger] slot(
                dimensions + attribute_dimensions(filters),
                kind,
            ) == slot(dimensions, kind),
    decreases filters.len(),
{
    if filters.len() == 0 {
        assert(dimensions + attribute_dimensions(filters) =~= dimensions);
        assert(attribute_filters_of(dimensions) + filters =~= attribute_filters_of(dimensions));
    } else {
        let front = filters.drop_last();
        let last = FilterDimensionView::Attribute {
            trait_type: filters.last().trait_type,
            values: filters.last().values,
        };
        let before = dimensions + attribute_dimensions(front);
        lemma_add_attributes(dimensions, front);
        assert(dimensions + attribute_dimensions(filters) =~= before.push(last));
        lemma_unique_push(before, last);
        lemma_attribute_filters_push(before, last);
        assert(attribute_filters_of(dimensions) + filters =~= (attribute_filters_of(dimensions)
            + front).push(filters.last()));
        assert forall|kind: DimensionKind| kind != DimensionKind::Attribute implies #[trigger] slot(
            before.push(last),
            kind,
        ) == slot(dimensions, kind) by {
            lemma_slot_push(before, last, kind);
        }
    }
}

/// The dimensions that options stand for are unique, and sorting them
/// back into options gives the options they came from.
pub proof fn lemma_dimensions_round_trip(o: ListQueryOptionsView)
    ensures
        dimensions_unique(dimensions_of(o)),
        addresses_of(dimensions_of(o), DimensionKind::Owners) == o.owners,
        addresses_of(dimensions_of(o), DimensionKind::Creators) == o.creators,
        addresses_of(dimensions_of(o), DimensionKind::AuctionHouses) == o.auction_houses,
        addresses_of(dimensions_of(o), DimensionKind::Offerers) == o.offerers,
        attribute_filters_of(dimensions_of(o)) == o.attribute_filters(),
        listed_of(dimensions_of(o)) == o.listed,
        collection_of(dimensions_of(o)) == o.collection,
{
    let empty = Seq::<FilterDimensionView>::empty();
    let d1 = empty + owners_dimension(o);
    let d2 = d1 + creators_dimension(o);
    let d3 = d2 + auction_houses_dimension(o);
    let d4 = d3 + offerers_dimension(o);
    let d5 = d4 + attribute_dimensions(o.attribute_filters());
    let d6 = d5 + listed_dimension(o);
    let d7 = d6 + collection_dimension(o);
    assert(forall|kind: DimensionKind| slot(empty, kind) is None);
    lemma_add_optional(
        empty,
        match o.owners {
            Some(a) => Some(FilterDimensionView::Owners(a)),
            None => None,
        },
    );
    lemma_add_optional(
        d1,
        match o.creators {
            Some(a) => Some(FilterDimensionView::Creators(a)),
            None => None,
        },
    );
    lemma_add_optional(
        d2,
        match o.auction_houses {
            Some(a) => Some(FilterDimensionView::AuctionHouses(a)),
            None => None,
        },
    );
    lemma_add_optional(
        d3,
        match o.offerers {
            Some(a) => Some(FilterDimensionView::Offerers(a)),
            None => None,
        },
    );
    lemma_add_attributes(d4, o.attribute_filters());
    lemma_add_optional(
        d5,
        match o.listed {
            Some(flag) => Some(FilterDimensionView::ListedOnly(flag)),
            None => None,
        },
    );
    lemma_add_optional(
        d6,
        match o.collection {
            Some(key) => Some(FilterDimensionView::Collection(key)),
            None => None,
        },
    );
    assert(d1 =~= owners_dimension(o));
    assert(d7 == dimensions_of(o));
    assert(attribute_filters_of(empty) =~= Seq::<AttributeFilterView>::empty());
    assert(attribute_filters_of(d7) =~= o.attribute_filters());
}

/// A request that the entry point accepts is one that validation accepts:
/// it names whose items are asked for, it is compiled, and its statement is
/// the one of the options that the arguments make.
pub proof fn lemma_accepted_request_compiles(
    o: ListQueryOptionsView,
    limit: i32,
    offset: i32,
    denylist: DenylistPredicatesView,
)
    requires
        o.limit == limit,
        o.offset == offset,
    ensures
        nfts_request(o, limit, offset) matches Ok(request) ==> {
            &&& request.is_valid()
            &&& request.has_identity()
            &&& request.options() == o.normalized()
            &&& request.compiled(denylist) == Ok::<CompiledStatementView, QueryError>(
                list_statement(o, denylist),
            )
        },
{
    if let Ok(request) = nfts_request(o, limit, offset) {
        let dimensions = dimensions_of(o);
        lemma_dimensions_round_trip(o);
        lemma_normalized_alike(o, denylist);
        assert(request.options() == o.normalized());
        let kind = if o.owners is Some {
            DimensionKind::Owners
        } else if o.creators is Some {
            DimensionKind::Creators
        } else if o.auction_houses is Some {
            DimensionKind::AuctionHouses
        } else if o.offerers is Some {
            DimensionKind::Offerers
        } else {
            DimensionKind::Collection
        };
        lemma_slot(dimensions, kind);
        let found = slot(dimensions, kind).unwrap();
        let i = choose|i: int| 0 <= i < dimensions.len() && dimensions[i] == found;
        assert(dimensions[i].kind().bears_identity());
    }
}

/// A request names whose items are asked for exactly if its options do.
pub proof fn lemma_identity_agrees(request: QueryRequestView)
    ensures
        request.has_identity() <==> request.options().has_identity(),
{
    let dimensions = request.dimensions;
    lemma_slot(dimensions, DimensionKind::Owners);
    lemma_slot(dimensions, DimensionKind::Creators);
    lemma_slot(dimensions, DimensionKind::AuctionHouses);
    lemma_slot(dimensions, DimensionKind::Offerers);
    lemma_slot(dimensions, DimensionKind::Collection);
    if request.options().has_identity() {
        let kind = if request.options().owners is Some {
            DimensionKind::Owners
        } else if request.options().creators is Some {
            DimensionKind::Creators
        } else if request.options().auction_houses is Some {
            DimensionKind::AuctionHouses
        } else if request.options().offerers is Some {
            DimensionKind::Offerers
        } else {
            DimensionKind::Collection
        };
        let found = slot(dimensions, kind).unwrap();
        let i = choose|i: int| 0 <= i < dimensions.len() && dimensions[i] == found;
        assert(dimensions[i].kind().bears_identity());
    }
    if request.has_identity() {
        let i = choose|i: int|
            0 <= i < dimensions.len() && (#[trigger] dimensions[i].kind()).bears_identity();
        let kind = dimensions[i].kind();
        assert(slot(dimensions, kind) is Some);
    }
}

/// The order of the dimensions decides nothing but the order of the
/// attribute filters: two valid requests for the same page that hold the
/// same dimensions, with the same attribute filters in the same order,
/// compile alike.
pub proof fn lemma_order_decides_nothing(
    a: QueryRequestView,
    b: QueryRequestView,
    denylist: DenylistPredicatesView,
)
    requires
        a.is_valid(),
        b.is_valid(),
        a.limit == b.limit,
        a.offset == b.offset,
        forall|d: FilterDimensionView|
            !d.kind().repeatable() ==> (#[trigger] a.dimensions.contains(d)
                <==> b.dimensions.contains(d)),
        attribute_filters_of(a.dimensions) == attribute_filters_of(b.dimensions),
    ensures
        a.options() == b.options(),
        a.compiled(denylist) == b.compiled(denylist),
{
    assert forall|kind: DimensionKind| !kind.repeatable() implies #[trigger] slot(
        a.dimensions,
        kind,
    ) == slot(b.dimensions, kind) by {
        lemma_slot(a.dimensions, kind);
        lemma_slot(b.dimensions, kind);
        match slot(a.dimensions, kind) {
            Some(x) => {
                lemma_slot_is_membership(a.dimensions, x);
                assert(a.dimensions.contains(x));
                lemma_slot_is_membership(b.dimensions, x);
            },
            None => {
                match slot(b.dimensions, kind) {
                    Some(y) => {
                        lemma_slot_is_membership(b.dimensions, y);
                        assert(a.dimensions.contains(y) <==> b.dimensions.contains(y));
                        lemma_slot_is_membership(a.dimensions, y);
                    },
                    None => {},
                }
            },
        }
    }
    assert(slot(a.dimensions, DimensionKind::Owners) == slot(b.dimensions, DimensionKind::Owners));
    assert(slot(a.dimensions, DimensionKind::Creators) == slot(
        b.dimensions,
        DimensionKind::Creators,
    ));
    assert(slot(a.dimensions, DimensionKind::AuctionHouses) == slot(
        b.dimensions,
        DimensionKind::AuctionHouses,
    ));
    assert(slot(a.dimensions, DimensionKind::Offerers) == slot(
        b.dimensions,
        DimensionKind::Offerers,
    ));
    assert(slot(a.dimensions, DimensionKind::ListedOnly) == slot(
        b.dimensions,
        DimensionKind::ListedOnly,
    ));
    assert(slot(a.dimensions, DimensionKind::Collection) == slot(
        b.dimensions,
        DimensionKind::Collection,
    ));
}

/// A valid request with only the owner set binds the owners as its one
/// array, after the three null arrays of the absent sets, and joins
/// nothing but the listing lookup.
pub proof fn lemma_owners_only_request(
    request: QueryRequestView,
    owners: Seq<Seq<char>>,
    denylist: DenylistPredicatesView,
)
    requires
        request.dimensions == seq![FilterDimensionView::Owners(owners)],
        request.limit > 0,
    ensures
        request.compiled(denylist) matches Ok(statement) && statement.binds == seq![
            BindValueView::Integer(request.limit as i64),
            BindValueView::Integer(request.offset as i64),
            BindValueView::NullTextArray,
            BindValueView::NullTextArray,
            BindValueView::NullTextArray,
            BindValueView::TextArray(owners),
        ],
        plan_joins(request.options()) == seq![
            JoinFragmentView::ListingLookup { auction_houses: AUCTION_HOUSES_POSITION as nat },
        ],
{
    let dimensions = request.dimensions;
    let empty = Seq::<FilterDimensionView>::empty();
    assert(dimensions =~= empty.push(FilterDimensionView::Owners(owners)));
    assert(forall|kind: DimensionKind| slot(empty, kind) is None);
    assert forall|kind: DimensionKind| #[trigger]
        slot(dimensions, kind) == if kind == DimensionKind::Owners {
            Some(FilterDimensionView::Owners(owners))
        } else {
            None
        } by {
        lemma_slot_push(empty, FilterDimensionView::Owners(owners), kind);
    }
    lemma_attribute_filters_push(empty, FilterDimensionView::Owners(owners));
    assert(attribute_filters_of(empty) =~= Seq::<AttributeFilterView>::empty());
    let o = request.options();
    assert(o.attribute_filters() =~= Seq::<AttributeFilterView>::empty());
    lemma_owners_only(o, owners);
}

/// A valid request without owner set and collection key, with `n`
/// attribute filters, binds `2 + 3 + 2n` values, and the filter declared
/// as number `k`, counting from zero, binds its trait name at position
/// `6 + 2k` and its values one position later.
pub proof fn lemma_request_bind_count(request: QueryRequestView, denylist: DenylistPredicatesView)
    requires
        request.is_valid(),
        forall|i: int|
            0 <= i < request.dimensions.len() ==> (#[trigger] request.dimensions[i]).kind()
                != DimensionKind::Owners && request.dimensions[i].kind()
                != DimensionKind::Collection,
    ensures
        request.compiled(denylist) matches Ok(statement) && {
            let filters = attribute_filters_of(request.dimensions);
            &&& statement.binds.len() == 2 + 3 + 2 * filters.len()
            &&& forall|k: int|
                0 <= k < filters.len() ==> {
                    &&& statement.binds[#[trigger] attribute_position(k as nat) - 1]
                        == BindValueView::Text(filters[k].trait_type)
                    &&& statement.binds[attribute_position(k as nat) as int]
                        == BindValueView::TextArray(filters[k].values)
                }
        },
{
    let o = request.options();
    lemma_slot(request.dimensions, DimensionKind::Owners);
    lemma_slot(request.dimensions, DimensionKind::Collection);
    match slot(request.dimensions, DimensionKind::Owners) {
        Some(found) => {
            let i = choose|i: int|
                0 <= i < request.dimensions.len() && request.dimensions[i] == found;
            assert(request.dimensions[i].kind() == DimensionKind::Owners);
        },
        None => {},
    }
    match slot(request.dimensions, DimensionKind::Collection) {
        Some(found) => {
            let i = choose|i: int|
                0 <= i < request.dimensions.len() && request.dimensions[i] == found;
            assert(request.dimensions[i].kind() == DimensionKind::Collection);
        },
        None => {},
    }
    assert(o.attribute_filters() =~= attribute_filters_of(request.dimensions));
    lemma_bind_positions(o);
}

} // verus!
