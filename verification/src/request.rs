//! Requests as sets of filter dimensions, and their validation.
//!
//! A request lists its dimensions in any order. Validation refuses a
//! request that gives a dimension twice, unless it is an attribute filter,
//! and sorts what it accepts into the options of a listing: one place per
//! dimension, the attribute filters in the order of their declaration. The
//! order of the other dimensions in the request decides nothing.

use vstd::prelude::*;
use crate::denylist::{DenylistPredicates, DenylistPredicatesView};
use crate::error::QueryError;
use crate::metadatas::{
    list,
    list_statement,
    AttributeFilter,
    AttributeFilterView,
    ListQueryOptions,
    ListQueryOptionsView,
};
use crate::text::clone_strings;
use crate::statement::{CompiledStatement, CompiledStatementView};

verus! {

/// The dimensions by name.
#[derive(Clone, Copy, Debug, PartialEq, Eq, Structural)]
pub enum DimensionKind {
    Owners,
    Creators,
    AuctionHouses,
    Offerers,
    Attribute,
    ListedOnly,
    Collection,
}

impl DimensionKind {
    /// Whether a request may give the dimension more than once.
    pub open spec fn repeatable(self) -> bool {
        self == DimensionKind::Attribute
    }

    /// Whether the dimension names whose items are asked for.
    pub open spec fn bears_identity(self) -> bool {
        self == DimensionKind::Owners || self == DimensionKind::Creators || self
            == DimensionKind::AuctionHouses || self == DimensionKind::Offerers || self
            == DimensionKind::Collection
    }
}

/// One filter of a request.
#[derive(Clone, Debug, PartialEq, Eq)]
pub enum FilterDimension {
    /// The owner of record is one of the addresses.
    Owners(Vec<String>),
    /// A verified creator is one of the addresses.
    Creators(Vec<String>),
    /// Listings and bids count only within these auction houses.
    AuctionHouses(Vec<String>),
    /// One of the addresses has an active bid on the item.
    Offerers(Vec<String>),
    /// The item has the trait with one of the values.
    Attribute { trait_type: String, values: Vec<String> },
    /// If true, the item has an active listing.
    ListedOnly(bool),
    /// The item belongs to the collection.
    Collection(String),
}

/// The mathematical value of a [`FilterDimension`].
pub enum FilterDimensionView {
    Owners(Seq<Seq<char>>),
    Creators(Seq<Seq<char>>),
    AuctionHouses(Seq<Seq<char>>),
    Offerers(Seq<Seq<char>>),
    Attribute { trait_type: Seq<char>, values: Seq<Seq<char>> },
    ListedOnly(bool),
    Collection(Seq<char>),
}

impl View for FilterDimension {
    type V = FilterDimensionView;

    open spec fn view(&self) -> FilterDimensionView {
        match self {
            FilterDimension::Owners(a) => FilterDimensionView::Owners(a.deep_view()),
            FilterDimension::Creators(a) => FilterDimensionView::Creators(a.deep_view()),
            FilterDimension::AuctionHouses(a) => FilterDimensionView::AuctionHouses(a.deep_view()),
            FilterDimension::Offerers(a) => FilterDimensionView::Offerers(a.deep_view()),
            FilterDimension::Attribute { trait_type, values } => FilterDimensionView::Attribute {
                trait_type: trait_type@,
                values: values.deep_view(),
            },
            FilterDimension::ListedOnly(b) => FilterDimensionView::ListedOnly(*b),
            FilterDimension::Collection(key) => FilterDimensionView::Collection(key@),
        }
    }
}

impl DeepView for FilterDimension {
    type V = FilterDimensionView;

    open spec fn deep_view(&self) -> FilterDimensionView {
        self@
    }
}

impl FilterDimensionView {
    /// The name of the dimension.
    pub open spec fn kind(self) -> DimensionKind {
        match self {
            FilterDimensionView::Owners(_) => DimensionKind::Owners,
            FilterDimensionView::Creators(_) => DimensionKind::Creators,
            FilterDimensionView::AuctionHouses(_) => DimensionKind::AuctionHouses,
            FilterDimensionView::Offerers(_) => DimensionKind::Offerers,
            FilterDimensionView::Attribute { .. } => DimensionKind::Attribute,
            FilterDimensionView::ListedOnly(_) => DimensionKind::ListedOnly,
            FilterDimensionView::Collection(_) => DimensionKind::Collection,
        }
    }

    /// The addresses of a dimension that holds a set of them.
    pub open spec fn addresses(self) -> Option<Seq<Seq<char>>> {
        match self {
            FilterDimensionView::Owners(a) => Some(a),
            FilterDimensionView::Creators(a) => Some(a),
            FilterDimensionView::AuctionHouses(a) => Some(a),
            FilterDimensionView::Offerers(a) => Some(a),
            _ => None,
        }
    }
}

impl FilterDimension {
    /// The name of the dimension.
    pub fn kind(&self) -> (kind: DimensionKind)
        ensures
            kind == self@.kind(),
    {
        match self {
            FilterDimension::Owners(_) => DimensionKind::Owners,
            FilterDimension::Creators(_) => DimensionKind::Creators,
            FilterDimension::AuctionHouses(_) => DimensionKind::AuctionHouses,
            FilterDimension::Offerers(_) => DimensionKind::Offerers,
            FilterDimension::Attribute { .. } => DimensionKind::Attribute,
            FilterDimension::ListedOnly(_) => DimensionKind::ListedOnly,
            FilterDimension::Collection(_) => DimensionKind::Collection,
        }
    }
}

/// A request: its dimensions in the order in which the caller gave them,
/// and the page asked for.
#[derive(Clone, Debug, PartialEq, Eq)]
pub struct QueryRequest {
    pub dimensions: Vec<FilterDimension>,
    pub limit: u32,
    pub offset: u32,
}

/// The mathematical value of a [`QueryRequest`].
pub struct QueryRequestView {
    pub dimensions: Seq<FilterDimensionView>,
    pub limit: u32,
    pub offset: u32,
}

impl View for QueryRequest {
    type V = QueryRequestView;

    open spec fn view(&self) -> QueryRequestView {
        QueryRequestView {
            dimensions: self.dimensions.deep_view(),
            limit: self.limit,
            offset: self.offset,
        }
    }
}

/// No dimension is given twice, attribute filters aside.
pub open spec fn dimensions_unique(dimensions: Seq<FilterDimensionView>) -> bool {
    forall|i: int, j: int|
        0 <= i < j < dimensions.len() && #[trigger] dimensions[i].kind()
            == #[trigger] dimensions[j].kind() ==> dimensions[i].kind().repeatable()
}

/// The dimension of the given name that comes last, if there is any.
pub open spec fn slot(dimensions: Seq<FilterDimensionView>, kind: DimensionKind) -> Option<
    FilterDimensionView,
>
    decreases dimensions.len(),
{
    if dimensions.len() == 0 {
        None
    } else if dimensions.last().kind() == kind {
        Some(dimensions.last())
    } else {
        slot(dimensions.drop_last(), kind)
    }
}

/// The addresses of the dimension of the given name, if it is present.
pub open spec fn addresses_of(dimensions: Seq<FilterDimensionView>, kind: DimensionKind) -> Option<
    Seq<Seq<char>>,
> {
    match slot(dimensions, kind) {
        Some(dimension) => dimension.addresses(),
        None => None,
    }
}

/// The flag of the listed dimension, if it is present.
pub open spec fn listed_of(dimensions: Seq<FilterDimensionView>) -> Option<bool> {
    match slot(dimensions, DimensionKind::ListedOnly) {
        Some(FilterDimensionView::ListedOnly(flag)) => Some(flag),
        _ => None,
    }
}

/// The key of the collection dimension, if it is present.
pub open spec fn collection_of(dimensions: Seq<FilterDimensionView>) -> Option<Seq<char>> {
    match slot(dimensions, DimensionKind::Collection) {
        Some(FilterDimensionView::Collection(key)) => Some(key),
        _ => None,
    }
}

/// The attribute filters among the dimensions, in their order.
pub open spec fn attribute_filters_of(dimensions: Seq<FilterDimensionView>) -> Seq<
    AttributeFilterView,
>
    decreases dimensions.len(),
{
    if dimensions.len() == 0 {
        Seq::empty()
    } else {
        match dimensions.last() {
            FilterDimensionView::Attribute { trait_type, values } => attribute_filters_of(
                dimensions.drop_last(),
            ).push(AttributeFilterView { trait_type, values }),
            _ => attribute_filters_of(dimensions.drop_last()),
        }
    }
}

impl QueryRequestView {
    /// What validation accepts: no dimension twice, attribute filters
    /// aside, and a positive limit.
    pub open spec fn is_valid(self) -> bool {
        dimensions_unique(self.dimensions) && self.limit > 0
    }

    /// Why validation refuses a request that is not valid.
    pub open spec fn error(self) -> QueryError {
        if !dimensions_unique(self.dimensions) {
            QueryError::InvalidFilterCombination
        } else {
            QueryError::InvalidPagination
        }
    }

    /// Whether a dimension is present that names whose items are asked for.
    pub open spec fn has_identity(self) -> bool {
        exists|i: int|
            0 <= i < self.dimensions.len() && (#[trigger] self.dimensions[i].kind()).bears_identity()
    }

    /// The options that the request stands for.
    pub open spec fn options(self) -> ListQueryOptionsView {
        let filters = attribute_filters_of(self.dimensions);
        ListQueryOptionsView {
            owners: addresses_of(self.dimensions, DimensionKind::Owners),
            auction_houses: addresses_of(self.dimensions, DimensionKind::AuctionHouses),
            creators: addresses_of(self.dimensions, DimensionKind::Creators),
            offerers: addresses_of(self.dimensions, DimensionKind::Offerers),
            attributes: if filters.len() == 0 {
                None
            } else {
                Some(filters)
            },
            listed: listed_of(self.dimensions),
            collection: collection_of(self.dimensions),
            limit: self.limit as i64,
            offset: self.offset as i64,
        }
    }

    /// What validation returns.
    pub open spec fn validated(self) -> Result<ListQueryOptionsView, QueryError> {
        if self.is_valid() {
            Ok(self.options())
        } else {
            Err(self.error())
        }
    }

    /// What compilation returns.
    pub open spec fn compiled(self, denylist: DenylistPredicatesView) -> Result<
        CompiledStatementView,
        QueryError,
    > {
        match self.validated() {
            Ok(options) => Ok(list_statement(options, denylist)),
            Err(error) => Err(error),
        }
    }
}

/// The dimension, if there is one.
pub open spec fn optional_dimension(dimension: Option<FilterDimensionView>) -> Seq<
    FilterDimensionView,
> {
    match dimension {
        Some(d) => seq![d],
        None => Seq::empty(),
    }
}

/// The dimension of an optional owner set.
pub open spec fn owners_dimension(o: ListQueryOptionsView) -> Seq<FilterDimensionView> {
    optional_dimension(
        match o.owners {
            Some(a) => Some(FilterDimensionView::Owners(a)),
            None => None,
        },
    )
}

/// The dimension of an optional creator set.
pub open spec fn creators_dimension(o: ListQueryOptionsView) -> Seq<FilterDimensionView> {
    optional_dimension(
        match o.creators {
            Some(a) => Some(FilterDimensionView::Creators(a)),
            None => None,
        },
    )
}

/// The dimension of an optional auction house set.
pub open spec fn auction_houses_dimension(o: ListQueryOptionsView) -> Seq<FilterDimensionView> {
    optional_dimension(
        match o.auction_houses {
            Some(a) => Some(FilterDimensionView::AuctionHouses(a)),
            None => None,
        },
    )
}

/// The dimension of an optional offerer set.
pub open spec fn offerers_dimension(o: ListQueryOptionsView) -> Seq<FilterDimensionView> {
    optional_dimension(
        match o.offerers {
            Some(a) => Some(FilterDimensionView::Offerers(a)),
            None => None,
        },
    )
}

/// The dimensions of attribute filters, in their order.
pub open spec fn attribute_dimensions(filters: Seq<AttributeFilterView>) -> Seq<
    FilterDimensionView,
> {
    Seq::new(
        filters.len(),
        |i: int|
            FilterDimensionView::Attribute {
                trait_type: filters[i].trait_type,
                values: filters[i].values,
            },
    )
}

/// The dimension of an optional listed flag.
pub open spec fn listed_dimension(o: ListQueryOptionsView) -> Seq<FilterDimensionView> {
    optional_dimension(
        match o.listed {
            Some(flag) => Some(FilterDimensionView::ListedOnly(flag)),
            None => None,
        },
    )
}

/// The dimension of an optional collection key.
pub open spec fn collection_dimension(o: ListQueryOptionsView) -> Seq<FilterDimensionView> {
    optional_dimension(
        match o.collection {
            Some(key) => Some(FilterDimensionView::Collection(key)),
            None => None,
        },
    )
}

/// The dimensions that options stand for, in the canonical order of the
/// dimensions: owners, creators, auction houses, offerers, the attribute
/// filters, the listed flag, the collection.
pub open spec fn dimensions_of(o: ListQueryOptionsView) -> Seq<FilterDimensionView> {
    owners_dimension(o) + creators_dimension(o) + auction_houses_dimension(o)
        + offerers_dimension(o) + attribute_dimensions(o.attribute_filters()) + listed_dimension(o)
        + collection_dimension(o)
}

/// A `slot` is filled exactly if a dimension of the name is present, and
/// then by one of them.
pub proof fn lemma_slot(dimensions: Seq<FilterDimensionView>, kind: DimensionKind)
    ensures
        slot(dimensions, kind) matches Some(found) ==> found.kind() == kind && dimensions.contains(
            found,
        ),
        slot(dimensions, kind) is None ==> forall|i: int|
            0 <= i < dimensions.len() ==> (#[trigger] dimensions[i]).kind() != kind,
    decreases dimensions.len(),
{
    if dimensions.len() > 0 {
        lemma_slot(dimensions.drop_last(), kind);
        if dimensions.last().kind() != kind {
            match slot(dimensions, kind) {
                Some(found) => {
                    let i = choose|i: int|
                        0 <= i < dimensions.drop_last().len() && dimensions.drop_last()[i] == found;
                    assert(dimensions[i] == found);
                },
                None => {
                    assert forall|i: int| 0 <= i < dimensions.len() implies (
                    #[trigger] dimensions[i]).kind() != kind by {
                        if i < dimensions.len() - 1 {
                            assert(dimensions.drop_last()[i] == dimensions[i]);
                        }
                    }
                },
            }
        } else {
            assert(dimensions[dimensions.len() - 1] == dimensions.last());
        }
    }
}

/// A dimension added at the end takes the place of its name and leaves
/// the other places as they were.
pub proof fn lemma_slot_push(
    dimensions: Seq<FilterDimensionView>,
    added: FilterDimensionView,
    kind: DimensionKind,
)
    ensures
        slot(dimensions.push(added), kind) == if added.kind() == kind {
            Some(added)
        } else {
            slot(dimensions, kind)
        },
{
    assert(dimensions.push(added).drop_last() =~= dimensions);
    assert(dimensions.push(added).last() == added);
}

/// A dimension added at the end joins the attribute filters exactly if it
/// is one.
pub proof fn lemma_attribute_filters_push(
    dimensions: Seq<FilterDimensionView>,
    added: FilterDimensionView,
)
    ensures
        attribute_filters_of(dimensions.push(added)) == match added {
            FilterDimensionView::Attribute { trait_type, values } => attribute_filters_of(
                dimensions,
            ).push(AttributeFilterView { trait_type, values }),
            _ => attribute_filters_of(dimensions),
        },
{
    assert(dimensions.push(added).drop_last() =~= dimensions);
    assert(dimensions.push(added).last() == added);
}

/// Dimensions stay unique when an attribute filter is added, or a
/// dimension whose place is still empty.
pub proof fn lemma_unique_push(dimensions: Seq<FilterDimensionView>, added: FilterDimensionView)
    requires
        dimensions_unique(dimensions),
        added.kind().repeatable() || slot(dimensions, added.kind()) is None,
    ensures
        dimensions_unique(dimensions.push(added)),
{
    lemma_slot(dimensions, added.kind());
    let next = dimensions.push(added);
    assert forall|i: int, j: int|
        0 <= i < j < next.len() && #[trigger] next[i].kind()
            == #[trigger] next[j].kind() implies next[i].kind().repeatable() by {
        if j < dimensions.len() {
            assert(dimensions[i].kind() == dimensions[j].kind());
        } else {
            assert(dimensions[i].kind() == added.kind());
        }
    }
}

/// Among unique dimensions, the place of a name that is given once holds
/// a dimension exactly if that dimension is present, wherever it stands.
pub proof fn lemma_slot_is_membership(
    dimensions: Seq<FilterDimensionView>,
    dimension: FilterDimensionView,
)
    requires
        dimensions_unique(dimensions),
        !dimension.kind().repeatable(),
    ensures
        slot(dimensions, dimension.kind()) == Some(dimension) <==> dimensions.contains(dimension),
{
    let kind = dimension.kind();
    lemma_slot(dimensions, kind);
    if dimensions.contains(dimension) {
        let i = choose|i: int| 0 <= i < dimensions.len() && dimensions[i] == dimension;
        assert(dimensions[i].kind() == kind);
        let found = slot(dimensions, kind).unwrap();
        let j = choose|j: int| 0 <= j < dimensions.len() && dimensions[j] == found;
        assert(dimensions[j].kind() == dimensions[i].kind());
        if i < j {
            assert(dimensions[i].kind().repeatable());
        } else if j < i {
            assert(dimensions[j].kind().repeatable());
        }
    }
}

/// The view of the outcome of a validation.
pub open spec fn validated_view(outcome: Result<ListQueryOptions, QueryError>) -> Result<
    ListQueryOptionsView,
    QueryError,
> {
    match outcome {
        Ok(options) => Ok(options@),
        Err(error) => Err(error),
    }
}

/// The view of the outcome of a compilation.
pub open spec fn compiled_view(outcome: Result<CompiledStatement, QueryError>) -> Result<
    CompiledStatementView,
    QueryError,
> {
    match outcome {
        Ok(statement) => Ok(statement@),
        Err(error) => Err(error),
    }
}

/// The places that validation fills while it walks the dimensions.
struct Slots {
    owners: Option<Vec<String>>,
    auction_houses: Option<Vec<String>>,
    creators: Option<Vec<String>>,
    offerers: Option<Vec<String>>,
    attributes: Vec<AttributeFilter>,
    listed: Option<bool>,
    collection: Option<String>,
}

impl Slots {
    /// The places hold what the dimensions give.
    spec fn holds(self, dimensions: Seq<FilterDimensionView>) -> bool {
        &&& self.owners.deep_view() == addresses_of(dimensions, DimensionKind::Owners)
        &&& self.auction_houses.deep_view() == addresses_of(
            dimensions,
            DimensionKind::AuctionHouses,
        )
        &&& self.creators.deep_view() == addresses_of(dimensions, DimensionKind::Creators)
        &&& self.offerers.deep_view() == addresses_of(dimensions, DimensionKind::Offerers)
        &&& self.attributes.deep_view() == attribute_filters_of(dimensions)
        &&& self.listed == listed_of(dimensions)
        &&& self.collection.deep_view() == collection_of(dimensions)
    }

    /// Whether the place of the dimension of the given name is filled.
    spec fn filled(self, kind: DimensionKind) -> bool {
        match kind {
            DimensionKind::Owners => self.owners is Some,
            DimensionKind::Creators => self.creators is Some,
            DimensionKind::AuctionHouses => self.auction_houses is Some,
            DimensionKind::Offerers => self.offerers is Some,
            DimensionKind::Attribute => false,
            DimensionKind::ListedOnly => self.listed is Some,
            DimensionKind::Collection => self.collection is Some,
        }
    }

    /// Whether the place of the dimension of the given name is filled.
    fn is_filled(&self, kind: DimensionKind) -> (filled: bool)
        ensures
            filled == self.filled(kind),
    {
        match kind {
            DimensionKind::Owners => self.owners.is_some(),
            DimensionKind::Creators => self.creators.is_some(),
            DimensionKind::AuctionHouses => self.auction_houses.is_some(),
            DimensionKind::Offerers => self.offerers.is_some(),
            DimensionKind::Attribute => false,
            DimensionKind::ListedOnly => self.listed.is_some(),
            DimensionKind::Collection => self.collection.is_some(),
        }
    }

    /// Puts a copy of `dimension` into its place.
    fn fill(&mut self, dimension: &FilterDimension, Ghost(before): Ghost<Seq<FilterDimensionView>>)
        requires
            old(self).holds(before),
            !old(self).filled(dimension@.kind()),
        ensures
            final(self).holds(before.push(dimension@)),
    {
        proof {
            assert(before.push(dimension@).drop_last() =~= before);
            assert(before.push(dimension@).last() == dimension@);
        }
        match dimension {
            FilterDimension::Owners(a) => {
                self.owners = Some(clone_strings(a));
            },
            FilterDimension::Creators(a) => {
                self.creators = Some(clone_strings(a));
            },
            FilterDimension::AuctionHouses(a) => {
                self.auction_houses = Some(clone_strings(a));
            },
            FilterDimension::Offerers(a) => {
                self.offerers = Some(clone_strings(a));
            },
            FilterDimension::Attribute { trait_type, values } => {
                self.attributes.push(
                    AttributeFilter {
                        trait_type: trait_type.clone(),
                        values: clone_strings(values),
                    },
                );
                assert(self.attributes.deep_view() =~= attribute_filters_of(
                    before.push(dimension@),
                ));
            },
            FilterDimension::ListedOnly(flag) => {
                self.listed = Some(*flag);
            },
            FilterDimension::Collection(key) => {
                self.collection = Some(key.clone());
            },
        }
    }
}

/// A filled place tells of an earlier dimension of the same name; an empty
/// one tells that there is none.
proof fn lemma_filled(slots: Slots, dimensions: Seq<FilterDimensionView>, kind: DimensionKind)
    requires
        slots.holds(dimensions),
        !kind.repeatable(),
    ensures
        slots.filled(kind) <==> exists|i: int|
            0 <= i < dimensions.len() && (#[trigger] dimensions[i]).kind() == kind,
{
    lemma_slot(dimensions, kind);
    match slot(dimensions, kind) {
        Some(found) => {
            let i = choose|i: int| 0 <= i < dimensions.len() && dimensions[i] == found;
            assert(dimensions[i].kind() == kind);
        },
        None => {},
    }
}

impl QueryRequest {
    /// Validates the request and sorts its dimensions into the options of
    /// a listing. A dimension given twice, attribute filters aside, is
    /// refused as an invalid combination; after that, a limit of zero as
    /// invalid pagination.
    pub fn validate(&self) -> (outcome: Result<ListQueryOptions, QueryError>)
        ensures
            validated_view(outcome) == self@.validated(),
    {
        let mut slots = Slots {
            owners: None,
            auction_houses: None,
            creators: None,
            offerers: None,
            attributes: Vec::new(),
            listed: None,
            collection: None,
        };
        let ghost all = self@.dimensions;
        let mut i: usize = 0;
        assert(slots.attributes.deep_view() =~= attribute_filters_of(all.take(0)));
        while i < self.dimensions.len()
            invariant
                i <= self.dimensions.len(),
                all == self@.dimensions,
                slots.holds(all.take(i as int)),
                dimensions_unique(all.take(i as int)),
            decreases self.dimensions.len() - i,
        {
            let dimension = &self.dimensions[i];
            let kind = dimension.kind();
            proof {
                assert(all[i as int] == dimension@);
                if !kind.repeatable() {
                    lemma_filled(slots, all.take(i as int), kind);
                }
                assert(all.take(i + 1) =~= all.take(i as int).push(dimension@));
            }
            if slots.is_filled(kind) {
                proof {
                    let j = choose|j: int|
                        0 <= j < all.take(i as int).len() && (#[trigger] all.take(
                            i as int,
                        )[j]).kind() == kind;
                    assert(all[j].kind() == all[i as int].kind());
                }
                return Err(QueryError::InvalidFilterCombination);
            }
            slots.fill(dimension, Ghost(all.take(i as int)));
            proof {
                let next = all.take(i + 1);
                assert forall|a: int, b: int|
                    0 <= a < b < next.len() && #[trigger] next[a].kind()
                        == #[trigger] next[b].kind() implies next[a].kind().repeatable() by {
                    if b < i {
                        assert(all.take(i as int)[a].kind() == all.take(i as int)[b].kind());
                    } else {
                        assert(all.take(i as int)[a].kind() == kind);
                    }
                }
            }
            i = i + 1;
        }
        assert(all.take(i as int) =~= all);
        if self.limit == 0 {
            return Err(QueryError::InvalidPagination);
        }
        let attributes = if slots.attributes.len() == 0 {
            None
        } else {
            Some(slots.attributes)
        };
        Ok(
            ListQueryOptions {
                owners: slots.owners,
                auction_houses: slots.auction_houses,
                creators: slots.creators,
                offerers: slots.offerers,
                attributes,
                listed: slots.listed,
                collection: slots.collection,
                limit: self.limit as i64,
                offset: self.offset as i64,
            },
        )
    }

    /// Whether a dimension is present that names whose items are asked for.
    pub fn has_identity(&self) -> (found: bool)
        ensures
            found == self@.has_identity(),
    {
        let mut i: usize = 0;
        while i < self.dimensions.len()
            invariant
                i <= self.dimensions.len(),
                forall|k: int|
                    0 <= k < i ==> !(#[trigger] self@.dimensions[k].kind()).bears_identity(),
            decreases self.dimensions.len() - i,
        {
            let kind = self.dimensions[i].kind();
            assert(self@.dimensions[i as int] == self.dimensions[i as int]@);
            match kind {
                DimensionKind::Attribute => {},
                DimensionKind::ListedOnly => {},
                _ => {
                    return true;
                },
            }
            i = i + 1;
        }
        false
    }
}

/// Compiles a request into one statement, or refuses it before anything is
/// compiled.
pub fn compile(request: &QueryRequest, denylist: &DenylistPredicates) -> (outcome: Result<
    CompiledStatement,
    QueryError,
>)
    ensures
        compiled_view(outcome) == request@.compiled(denylist@),
{
    match request.validate() {
        Ok(options) => Ok(list(&options, denylist)),
        Err(error) => Err(error),
    }
}

} // verus!
