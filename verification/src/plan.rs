//! The fragment compiler: from the options of a listing to the fragments of
//! its statement and the values to bind.
//!
//! The fragments stand in the canonical order of the dimensions: owners,
//! creators, auction houses, offerers, attribute filters, listed flag,
//! collection. The joins keep that order among themselves, and so do the
//! conditions.
//!
//! Positions are handed out in one fixed order. The first five are always
//! reserved, whatever the request holds: limit, offset, creators, auction
//! houses, offerers, an absent set standing as a null array. One pair per
//! attribute filter follows, in declaration order. The owner set and the
//! collection key come last, each only when present. So no optional
//! dimension ever moves the position of the limit, the offset, the three
//! fixed sets or an attribute filter, and a position is a function of the
//! options alone.

use vstd::prelude::*;
use crate::fragment::{
    holds_integer,
    position_holds_integer,
    JoinFragment,
    JoinFragmentView,
    PredicateFragment,
    PredicateFragmentView,
};
use crate::ledger::{BindLedger, BindValue, BindValueView};
use crate::metadatas::{AttributeFilter, AttributeFilterView, ListQueryOptions, ListQueryOptionsView};
use crate::text::clone_strings;

verus! {

/// The position of the limit.
pub const LIMIT_POSITION: usize = 1;

/// The position of the offset.
pub const OFFSET_POSITION: usize = 2;

/// The position of the creator addresses.
pub const CREATORS_POSITION: usize = 3;

/// The position of the auction house addresses.
pub const AUCTION_HOUSES_POSITION: usize = 4;

/// The position of the offerer addresses.
pub const OFFERERS_POSITION: usize = 5;

/// The position of the trait name of the first attribute filter.
pub const FIRST_ATTRIBUTE_POSITION: usize = 6;

/// What a listing compiles to before it becomes text.
#[derive(Clone, Debug, PartialEq, Eq)]
pub struct QueryPlan {
    /// The joins after the fixed ones, in the order of their text.
    pub joins: Vec<JoinFragment>,
    /// The conditions after the fixed one, in the order of their text.
    pub predicates: Vec<PredicateFragment>,
    /// The position of the limit.
    pub limit: usize,
    /// The position of the offset.
    pub offset: usize,
    /// The values to bind, in the order of their positions.
    pub binds: Vec<BindValue>,
}

/// The mathematical value of a [`QueryPlan`].
pub struct QueryPlanView {
    pub joins: Seq<JoinFragmentView>,
    pub predicates: Seq<PredicateFragmentView>,
    pub limit: nat,
    pub offset: nat,
    pub binds: Seq<BindValueView>,
}

impl View for QueryPlan {
    type V = QueryPlanView;

    open spec fn view(&self) -> QueryPlanView {
        QueryPlanView {
            joins: self.joins.deep_view(),
            predicates: self.predicates.deep_view(),
            limit: self.limit as nat,
            offset: self.offset as nat,
            binds: self.binds.deep_view(),
        }
    }
}

/// The bind of an optional address set: the array, or the null array
/// where the set is absent.
pub open spec fn array_or_null(addresses: Option<Seq<Seq<char>>>) -> BindValueView {
    match addresses {
        Some(a) => BindValueView::TextArray(a),
        None => BindValueView::NullTextArray,
    }
}

/// The binds at the five fixed positions.
pub open spec fn header_binds(o: ListQueryOptionsView) -> Seq<BindValueView> {
    seq![
        BindValueView::Integer(o.limit),
        BindValueView::Integer(o.offset),
        array_or_null(o.creators),
        array_or_null(o.auction_houses),
        array_or_null(o.offerers),
    ]
}

/// The binds of the attribute filters: for each filter, in declaration
/// order, its trait name and then its values.
pub open spec fn attribute_binds(filters: Seq<AttributeFilterView>) -> Seq<BindValueView> {
    Seq::new(
        2 * filters.len(),
        |k: int|
            if k % 2 == 0 {
                BindValueView::Text(filters[k / 2].trait_type)
            } else {
                BindValueView::TextArray(filters[k / 2].values)
            },
    )
}

/// The bind of the owner set: none where the dimension is absent.
pub open spec fn owners_binds(o: ListQueryOptionsView) -> Seq<BindValueView> {
    match o.owners {
        Some(a) => seq![BindValueView::TextArray(a)],
        None => Seq::empty(),
    }
}

/// The bind of the collection key: none where the dimension is absent.
pub open spec fn collection_binds(o: ListQueryOptionsView) -> Seq<BindValueView> {
    match o.collection {
        Some(key) => seq![BindValueView::Text(key)],
        None => Seq::empty(),
    }
}

/// All binds of a listing, in the order of their positions.
pub open spec fn plan_binds(o: ListQueryOptionsView) -> Seq<BindValueView> {
    header_binds(o) + attribute_binds(o.attribute_filters()) + owners_binds(o) + collection_binds(o)
}

/// The position of the trait name of the attribute filter declared as
/// number `i`, counting from zero. Its values are bound one position later.
pub open spec fn attribute_position(i: nat) -> nat {
    FIRST_ATTRIBUTE_POSITION as nat + 2 * i
}

/// The position of the owner set, where the dimension is present.
pub open spec fn owners_position(o: ListQueryOptionsView) -> nat {
    attribute_position(o.attribute_filters().len())
}

/// The position of the collection key, where the dimension is present.
pub open spec fn collection_position(o: ListQueryOptionsView) -> nat {
    owners_position(o) + owners_binds(o).len()
}

/// The joins of `n` attribute filters.
pub open spec fn attribute_joins(n: nat) -> Seq<JoinFragmentView> {
    Seq::new(
        n,
        |i: int|
            JoinFragmentView::Attribute {
                ordinal: i as nat,
                trait_type: attribute_position(i as nat),
                values: attribute_position(i as nat) + 1,
            },
    )
}

/// The bid lookup: present exactly where the offerer dimension is.
pub open spec fn bid_joins(o: ListQueryOptionsView) -> Seq<JoinFragmentView> {
    if o.offerers is Some {
        seq![
            JoinFragmentView::BidLookup {
                auction_houses: AUCTION_HOUSES_POSITION as nat,
                offerers: OFFERERS_POSITION as nat,
            },
        ]
    } else {
        Seq::empty()
    }
}

/// The collection join: present exactly where the collection dimension is.
pub open spec fn collection_joins(o: ListQueryOptionsView) -> Seq<JoinFragmentView> {
    if o.collection is Some {
        seq![JoinFragmentView::Collection { key: collection_position(o) }]
    } else {
        Seq::empty()
    }
}

/// All joins of a listing: the listing lookup, the bid lookup, one join per
/// attribute filter, the collection join.
pub open spec fn plan_joins(o: ListQueryOptionsView) -> Seq<JoinFragmentView> {
    seq![JoinFragmentView::ListingLookup { auction_houses: AUCTION_HOUSES_POSITION as nat }]
        + bid_joins(o) + attribute_joins(o.attribute_filters().len()) + collection_joins(o)
}

/// The owner condition: present exactly where the owner dimension is.
pub open spec fn owners_predicates(o: ListQueryOptionsView) -> Seq<PredicateFragmentView> {
    if o.owners is Some {
        seq![PredicateFragmentView::Owners { owners: owners_position(o) }]
    } else {
        Seq::empty()
    }
}

/// The listed condition: present exactly where only listed items are asked
/// for.
pub open spec fn listed_predicates(o: ListQueryOptionsView) -> Seq<PredicateFragmentView> {
    if o.listed_only() {
        seq![PredicateFragmentView::Listed]
    } else {
        Seq::empty()
    }
}

/// All conditions of a listing: owners, creators, listed.
pub open spec fn plan_predicates(o: ListQueryOptionsView) -> Seq<PredicateFragmentView> {
    owners_predicates(o) + seq![
        PredicateFragmentView::Creators { creators: CREATORS_POSITION as nat },
    ] + listed_predicates(o)
}

/// The plan of a listing.
pub open spec fn plan_of(o: ListQueryOptionsView) -> QueryPlanView {
    QueryPlanView {
        joins: plan_joins(o),
        predicates: plan_predicates(o),
        limit: LIMIT_POSITION as nat,
        offset: OFFSET_POSITION as nat,
        binds: plan_binds(o),
    }
}

impl QueryPlanView {
    /// Every position that the plan refers to is reserved in its binds,
    /// with a value of the type asked for.
    pub open spec fn well_bound(self) -> bool {
        &&& holds_integer(self.binds, self.limit)
        &&& holds_integer(self.binds, self.offset)
        &&& forall|i: int|
            0 <= i < self.joins.len() ==> (#[trigger] self.joins[i]).well_bound(self.binds)
        &&& forall|i: int|
            0 <= i < self.predicates.len() ==> (#[trigger] self.predicates[i]).well_bound(
                self.binds,
            )
    }
}

impl QueryPlan {
    /// Whether every position that the plan refers to is reserved in its
    /// binds, with a value of the type asked for.
    pub fn is_well_bound(&self) -> (ok: bool)
        ensures
            ok == self@.well_bound(),
    {
        if !position_holds_integer(&self.binds, self.limit) || !position_holds_integer(
            &self.binds,
            self.offset,
        ) {
            return false;
        }
        let mut i: usize = 0;
        while i < self.joins.len()
            invariant
                i <= self.joins.len(),
                forall|k: int|
                    0 <= k < i ==> (#[trigger] self@.joins[k]).well_bound(self@.binds),
            decreases self.joins.len() - i,
        {
            assert(self@.joins[i as int] == self.joins[i as int]@);
            if !self.joins[i].is_well_bound(&self.binds) {
                return false;
            }
            i = i + 1;
        }
        let mut j: usize = 0;
        while j < self.predicates.len()
            invariant
                j <= self.predicates.len(),
                forall|k: int|
                    0 <= k < self.joins.len() ==> (#[trigger] self@.joins[k]).well_bound(
                        self@.binds,
                    ),
                forall|k: int|
                    0 <= k < j ==> (#[trigger] self@.predicates[k]).well_bound(self@.binds),
            decreases self.predicates.len() - j,
        {
            assert(self@.predicates[j as int] == self.predicates[j as int]@);
            if !self.predicates[j].is_well_bound(&self.binds) {
                return false;
            }
            j = j + 1;
        }
        true
    }
}

/// The number of binds of a listing.
pub open spec fn bind_count(o: ListQueryOptionsView) -> nat {
    5 + 2 * o.attribute_filters().len() + owners_binds(o).len() + collection_binds(o).len()
}

/// Every bind has its place. The limit is bound first and the offset
/// second. The creators, the auction houses and the offerers are bound
/// third, fourth and fifth, each as a null array where absent. The
/// attribute filter declared as number `k`, counting from zero, binds its
/// trait name at position `6 + 2k` and its values one position later. The
/// owner set, where present, follows the last attribute filter, and the
/// collection key, where present, comes last.
pub proof fn lemma_bind_positions(o: ListQueryOptionsView)
    ensures
        plan_binds(o).len() == bind_count(o),
        plan_binds(o)[LIMIT_POSITION - 1] == BindValueView::Integer(o.limit),
        plan_binds(o)[OFFSET_POSITION - 1] == BindValueView::Integer(o.offset),
        plan_binds(o)[CREATORS_POSITION - 1] == array_or_null(o.creators),
        plan_binds(o)[AUCTION_HOUSES_POSITION - 1] == array_or_null(o.auction_houses),
        plan_binds(o)[OFFERERS_POSITION - 1] == array_or_null(o.offerers),
        forall|k: int|
            0 <= k < o.attribute_filters().len() ==> {
                &&& plan_binds(o)[#[trigger] attribute_position(k as nat) - 1]
                    == BindValueView::Text(o.attribute_filters()[k].trait_type)
                &&& plan_binds(o)[attribute_position(k as nat) as int]
                    == BindValueView::TextArray(o.attribute_filters()[k].values)
            },
        o.owners matches Some(addresses) ==> plan_binds(o)[owners_position(o) - 1]
            == BindValueView::TextArray(addresses),
        o.collection matches Some(key) ==> plan_binds(o)[collection_position(o) - 1]
            == BindValueView::Text(key),
{
    let filters = o.attribute_filters();
    assert(header_binds(o).len() == 5);
    assert(attribute_binds(filters).len() == 2 * filters.len());
    assert forall|k: int| 0 <= k < filters.len() implies {
        &&& plan_binds(o)[#[trigger] attribute_position(k as nat) - 1] == BindValueView::Text(
            filters[k].trait_type,
        )
        &&& plan_binds(o)[attribute_position(k as nat) as int] == BindValueView::TextArray(
            filters[k].values,
        )
    } by {
        assert(plan_binds(o)[5 + 2 * k] == attribute_binds(filters)[2 * k]);
        assert(plan_binds(o)[5 + 2 * k + 1] == attribute_binds(filters)[2 * k + 1]);
    }
}

/// Every position that a plan refers to is reserved in its binds, with a
/// value of the type that the text asks for at that position.
pub proof fn lemma_plan_well_bound(o: ListQueryOptionsView)
    ensures
        plan_of(o).well_bound(),
{
    lemma_bind_positions(o);
    let plan = plan_of(o);
    let n = o.attribute_filters().len();
    assert forall|i: int| 0 <= i < plan.joins.len() implies (#[trigger] plan.joins[i]).well_bound(
        plan.binds,
    ) by {
        let fixed = 1 + bid_joins(o).len();
        if i == 0 {
        } else if i < fixed {
            assert(plan.joins[i] == bid_joins(o)[i - 1]);
        } else if i < fixed + n {
            let k = i - fixed;
            assert(plan.joins[i] == attribute_joins(n)[k]);
            assert(plan.binds[attribute_position(k as nat) - 1] is Text);
            assert(plan.binds[attribute_position(k as nat) as int] is TextArray);
        } else {
            assert(plan.joins[i] == collection_joins(o)[i - fixed - n]);
        }
    }
    assert forall|i: int|
        0 <= i < plan.predicates.len() implies (#[trigger] plan.predicates[i]).well_bound(
        plan.binds,
    ) by {
        let first = owners_predicates(o).len();
        if i < first {
            assert(plan.predicates[i] == owners_predicates(o)[i]);
        } else if i == first {
        } else {
            assert(plan.predicates[i] == listed_predicates(o)[i - first - 1]);
        }
    }
}

/// The bind of an optional address set.
fn array_bind(addresses: &Option<Vec<String>>) -> (bind: BindValue)
    ensures
        bind@ == array_or_null(addresses.deep_view()),
{
    match addresses {
        Some(a) => BindValue::TextArray(clone_strings(a)),
        None => BindValue::NullTextArray,
    }
}

/// Reserves the pair of each attribute filter and pushes its join.
fn compile_attributes(
    filters: &Vec<AttributeFilter>,
    ledger: &mut BindLedger,
    joins: &mut Vec<JoinFragment>,
)
    requires
        old(ledger)@.len() == OFFERERS_POSITION,
    ensures
        final(ledger)@ == old(ledger)@ + attribute_binds(filters.deep_view()),
        final(joins).deep_view() == old(joins).deep_view() + attribute_joins(filters.len() as nat),
{
    let mut i: usize = 0;
    assert(ledger@ =~= old(ledger)@ + attribute_binds(filters.deep_view().take(0)));
    assert(joins.deep_view() =~= old(joins).deep_view() + attribute_joins(0));
    while i < filters.len()
        invariant
            i <= filters.len(),
            old(ledger)@.len() == OFFERERS_POSITION,
            ledger@ == old(ledger)@ + attribute_binds(filters.deep_view().take(i as int)),
            joins.deep_view() == old(joins).deep_view() + attribute_joins(i as nat),
        decreases filters.len() - i,
    {
        let ghost joins_before = joins.deep_view();
        let trait_type = ledger.reserve(BindValue::Text(filters[i].trait_type.clone()));
        let values = ledger.reserve(BindValue::TextArray(clone_strings(&filters[i].values)));
        joins.push(JoinFragment::Attribute { ordinal: i, trait_type, values });
        proof {
            let all = filters.deep_view();
            assert(all[i as int] == filters[i as int]@);
            assert(trait_type == attribute_position(i as nat));
            assert(values == attribute_position(i as nat) + 1);
            assert(attribute_binds(all.take(i + 1)) =~= attribute_binds(all.take(i as int)).push(
                BindValueView::Text(all[i as int].trait_type),
            ).push(BindValueView::TextArray(all[i as int].values)));
            assert(ledger@ =~= old(ledger)@ + attribute_binds(all.take(i + 1)));
            let pushed = JoinFragmentView::Attribute {
                ordinal: i as nat,
                trait_type: attribute_position(i as nat),
                values: attribute_position(i as nat) + 1,
            };
            assert(attribute_joins((i + 1) as nat) =~= attribute_joins(i as nat).push(pushed));
            assert(joins.deep_view() =~= joins_before.push(pushed));
            assert(joins.deep_view() =~= old(joins).deep_view() + attribute_joins((i + 1) as nat));
        }
        i = i + 1;
    }
    assert(filters.deep_view().take(i as int) =~= filters.deep_view());
}

/// Compiles the options of a listing into its plan.
pub fn compile_fragments(options: &ListQueryOptions) -> (plan: QueryPlan)
    ensures
        plan@ == plan_of(options@),
        plan@.well_bound(),
{
    proof {
        lemma_plan_well_bound(options@);
    }
    let mut ledger = BindLedger::new();
    let limit = ledger.reserve(BindValue::Integer(options.limit));
    let offset = ledger.reserve(BindValue::Integer(options.offset));
    let creators = ledger.reserve(array_bind(&options.creators));
    let auction_houses = ledger.reserve(array_bind(&options.auction_houses));
    let offerers = ledger.reserve(array_bind(&options.offerers));
    assert(ledger@ =~= header_binds(options@));

    let mut joins: Vec<JoinFragment> = Vec::new();
    joins.push(JoinFragment::ListingLookup { auction_houses });
    if options.offerers.is_some() {
        joins.push(JoinFragment::BidLookup { auction_houses, offerers });
    }
    let ghost fixed_joins = seq![
        JoinFragmentView::ListingLookup { auction_houses: AUCTION_HOUSES_POSITION as nat },
    ] + bid_joins(options@);
    assert(joins.deep_view() =~= fixed_joins);
    match &options.attributes {
        Some(filters) => {
            compile_attributes(filters, &mut ledger, &mut joins);
        },
        None => {
            assert(attribute_binds(options@.attribute_filters()) =~= Seq::empty());
            assert(attribute_joins(0) =~= Seq::empty());
        },
    }
    assert(ledger@ =~= header_binds(options@) + attribute_binds(options@.attribute_filters()));
    assert(joins.deep_view() =~= fixed_joins + attribute_joins(
        options@.attribute_filters().len(),
    ));

    let mut predicates: Vec<PredicateFragment> = Vec::new();
    match &options.owners {
        Some(addresses) => {
            let owners = ledger.reserve(BindValue::TextArray(clone_strings(addresses)));
            predicates.push(PredicateFragment::Owners { owners });
        },
        None => {},
    }
    assert(predicates.deep_view() =~= owners_predicates(options@));
    predicates.push(PredicateFragment::Creators { creators });
    match options.listed {
        Some(true) => {
            predicates.push(PredicateFragment::Listed);
        },
        _ => {},
    }
    assert(predicates.deep_view() =~= plan_predicates(options@));
    assert(ledger@ =~= header_binds(options@) + attribute_binds(options@.attribute_filters())
        + owners_binds(options@));
    match &options.collection {
        Some(address) => {
            let key = ledger.reserve(BindValue::Text(address.clone()));
            joins.push(JoinFragment::Collection { key });
        },
        None => {},
    }
    assert(joins.deep_view() =~= plan_joins(options@));
    assert(ledger@ =~= plan_binds(options@));
    QueryPlan { joins, predicates, limit, offset, binds: ledger.values() }
}

} // verus!
