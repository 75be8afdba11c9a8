//! The decisions of the query entry points: what is refused before any
//! query is made, and what is asked for where the caller left a choice open.

use vstd::prelude::*;
use crate::error::QueryError;
use crate::metadatas::{AttributeFilter, ListQueryOptionsView};
use crate::text::clone_strings;
use crate::request::{
    attribute_dimensions,
    dimensions_of,
    optional_dimension,
    owners_dimension,
    FilterDimension,
    QueryRequest,
    QueryRequestView,
};

verus! {

/// The number of listings per seller that is taken where none is given.
pub const DEFAULT_LIMIT_PER_SELLER: i32 = 5;

/// The search index of the metadata documents.
pub const METADATAS_INDEX: &'static str = "metadatas";

/// The search index of the wallets with a name.
pub const NAME_SERVICE_INDEX: &'static str = "name_service";

/// The root of the queries.
#[derive(Clone, Copy, Debug, PartialEq, Eq, Structural)]
pub struct QueryRoot;

/// What a price chart is drawn from: the auction houses, the creators if
/// only theirs count, and the span of time. The type of a date is the
/// caller's.
#[derive(Clone, Debug, PartialEq, Eq)]
pub struct PriceChart<D> {
    pub auction_houses: Vec<String>,
    pub creators: Option<Vec<String>>,
    pub start_date: D,
    pub end_date: D,
}

/// A request for the connections from and to wallets.
#[derive(Clone, Debug, PartialEq, Eq)]
pub struct ConnectionsQuery {
    pub from: Vec<String>,
    pub to: Vec<String>,
    pub limit: i32,
    pub offset: i32,
}

/// A search for a term in one index, cut to a page.
#[derive(Clone, Debug, PartialEq, Eq)]
pub struct SearchQuery {
    pub index: String,
    pub term: String,
    pub offset: usize,
    pub limit: usize,
}

/// What the service features where the caller does not say.
#[derive(Clone, Debug, PartialEq, Eq)]
pub struct FeaturedListingsDefaults {
    pub auction_houses: Vec<String>,
    pub seller_exclusions: Vec<String>,
}

/// A request for featured listings, every choice made.
#[derive(Clone, Debug, PartialEq, Eq)]
pub struct FeaturedListingsQuery {
    pub auction_houses: Vec<String>,
    pub seller_exclusions: Vec<String>,
    pub limit_per_seller: i32,
    pub limit: i32,
    pub offset: i32,
}

/// The addresses given, or none at all.
pub open spec fn addresses_or_empty(addresses: Option<Seq<Seq<char>>>) -> Seq<Seq<char>> {
    match addresses {
        Some(a) => a,
        None => Seq::empty(),
    }
}

/// The addresses given, or else the default ones.
pub open spec fn addresses_or(addresses: Option<Seq<Seq<char>>>, default: Seq<Seq<char>>) -> Seq<
    Seq<char>,
> {
    match addresses {
        Some(a) => a,
        None => default,
    }
}

/// The number given, or else the default one.
pub open spec fn number_or(number: Option<i32>, default: i32) -> i32 {
    match number {
        Some(n) => n,
        None => default,
    }
}

/// The request that the arguments of an NFT listing make, or the reason
/// for which they are refused: first for naming nobody and nothing whose
/// items are asked for, then for a page that does not exist.
pub open spec fn nfts_request(o: ListQueryOptionsView, limit: i32, offset: i32) -> Result<
    QueryRequestView,
    QueryError,
> {
    if !o.has_identity() {
        Err(QueryError::NoFilter)
    } else if limit <= 0 || offset < 0 {
        Err(QueryError::InvalidPagination)
    } else {
        Ok(
            QueryRequestView {
                dimensions: dimensions_of(o),
                limit: limit as u32,
                offset: offset as u32,
            },
        )
    }
}

/// The view of an outcome that holds a request.
pub open spec fn request_view(outcome: Result<QueryRequest, QueryError>) -> Result<
    QueryRequestView,
    QueryError,
> {
    match outcome {
        Ok(request) => Ok(request@),
        Err(error) => Err(error),
    }
}

/// The search in `index`, or the refusal of a negative limit or offset.
fn search(index: &str, term: String, limit: i32, offset: i32) -> (outcome: Result<
    SearchQuery,
    QueryError,
>)
    ensures
        outcome is Err <==> limit < 0 || offset < 0,
        outcome matches Err(error) ==> error == QueryError::InvalidPagination,
        outcome matches Ok(query) ==> {
            &&& query.index@ == index@
            &&& query.term == term
            &&& query.offset == offset
            &&& query.limit == limit
        },
{
    if offset < 0 || limit < 0 {
        return Err(QueryError::InvalidPagination);
    }
    Ok(SearchQuery { index: index.to_owned(), term, offset: offset as usize, limit: limit as usize })
}

/// The given addresses, or an empty list.
fn unwrap_or_empty(addresses: Option<Vec<String>>) -> (list: Vec<String>)
    ensures
        list.deep_view() == addresses_or_empty(addresses.deep_view()),
{
    match addresses {
        Some(a) => a,
        None => {
            let list: Vec<String> = Vec::new();
            assert(list.deep_view() =~= Seq::<Seq<char>>::empty());
            list
        },
    }
}

/// The given addresses, or a copy of the default ones.
fn unwrap_or_copy(addresses: Option<Vec<String>>, default: &Vec<String>) -> (list: Vec<String>)
    ensures
        list.deep_view() == addresses_or(addresses.deep_view(), default.deep_view()),
{
    match addresses {
        Some(a) => a,
        None => clone_strings(default),
    }
}

/// Appends the dimension, if there is one.
fn push_optional(dimensions: &mut Vec<FilterDimension>, dimension: Option<FilterDimension>)
    ensures
        final(dimensions).deep_view() == old(dimensions).deep_view() + optional_dimension(
            dimension.deep_view(),
        ),
{
    match dimension {
        Some(d) => {
            dimensions.push(d);
        },
        None => {},
    }
    assert(dimensions.deep_view() =~= old(dimensions).deep_view() + optional_dimension(
        dimension.deep_view(),
    ));
}

/// Appends the dimensions of `filters`, in their order.
fn push_attribute_dimensions(dimensions: &mut Vec<FilterDimension>, filters: &Vec<AttributeFilter>)
    ensures
        final(dimensions).deep_view() == old(dimensions).deep_view() + attribute_dimensions(
            filters.deep_view(),
        ),
{
    let mut i: usize = 0;
    assert(dimensions.deep_view() =~= old(dimensions).deep_view() + attribute_dimensions(
        filters.deep_view().take(0),
    ));
    while i < filters.len()
        invariant
            i <= filters.len(),
            dimensions.deep_view() == old(dimensions).deep_view() + attribute_dimensions(
                filters.deep_view().take(i as int),
            ),
        decreases filters.len() - i,
    {
        let ghost before = dimensions.deep_view();
        let dimension = FilterDimension::Attribute {
            trait_type: filters[i].trait_type.clone(),
            values: clone_strings(&filters[i].values),
        };
        let ghost pushed = dimension@;
        dimensions.push(dimension);
        proof {
            let all = filters.deep_view();
            assert(all[i as int] == filters[i as int]@);
            assert(dimensions.deep_view() =~= before.push(pushed));
            assert(attribute_dimensions(all.take(i + 1)) =~= attribute_dimensions(
                all.take(i as int),
            ).push(pushed));
            assert(dimensions.deep_view() =~= old(dimensions).deep_view() + attribute_dimensions(
                all.take(i + 1),
            ));
        }
        i = i + 1;
    }
    assert(filters.deep_view().take(i as int) =~= filters.deep_view());
}

impl QueryRoot {
    /// Decides on the arguments of an NFT listing. At least one of owners,
    /// creators, offerers, auction houses and collection must be given, the
    /// limit must be positive and the offset must not be negative. What is
    /// accepted becomes a request with one dimension for each argument
    /// given and one for each attribute filter.
    pub fn nfts(
        &self,
        owners: Option<Vec<String>>,
        creators: Option<Vec<String>>,
        offerers: Option<Vec<String>>,
        attributes: Option<Vec<AttributeFilter>>,
        listed: Option<bool>,
        auction_houses: Option<Vec<String>>,
        collection: Option<String>,
        limit: i32,
        offset: i32,
    ) -> (outcome: Result<QueryRequest, QueryError>)
        ensures
            request_view(outcome) == nfts_request(
                ListQueryOptionsView {
                    owners: owners.deep_view(),
                    auction_houses: auction_houses.deep_view(),
                    creators: creators.deep_view(),
                    offerers: offerers.deep_view(),
                    attributes: attributes.deep_view(),
                    listed,
                    collection: collection.deep_view(),
                    limit: limit as i64,
                    offset: offset as i64,
                },
                limit,
                offset,
            ),
    {
        let ghost o = ListQueryOptionsView {
            owners: owners.deep_view(),
            auction_houses: auction_houses.deep_view(),
            creators: creators.deep_view(),
            offerers: offerers.deep_view(),
            attributes: attributes.deep_view(),
            listed,
            collection: collection.deep_view(),
            limit: limit as i64,
            offset: offset as i64,
        };
        if collection.is_none() && owners.is_none() && creators.is_none() && auction_houses.is_none()
            && offerers.is_none() {
            return Err(QueryError::NoFilter);
        }
        if limit <= 0 || offset < 0 {
            return Err(QueryError::InvalidPagination);
        }
        let mut dimensions: Vec<FilterDimension> = Vec::new();
        push_optional(
            &mut dimensions,
            match owners {
                Some(a) => Some(FilterDimension::Owners(a)),
                None => None,
            },
        );
        assert(dimensions.deep_view() =~= owners_dimension(o));
        push_optional(
            &mut dimensions,
            match creators {
                Some(a) => Some(FilterDimension::Creators(a)),
                None => None,
            },
        );
        push_optional(
            &mut dimensions,
            match auction_houses {
                Some(a) => Some(FilterDimension::AuctionHouses(a)),
                None => None,
            },
        );
        push_optional(
            &mut dimensions,
            match offerers {
                Some(a) => Some(FilterDimension::Offerers(a)),
                None => None,
            },
        );
        match &attributes {
            Some(filters) => {
                push_attribute_dimensions(&mut dimensions, filters);
            },
            None => {
                assert(dimensions.deep_view() =~= dimensions.deep_view() + attribute_dimensions(
                    o.attribute_filters(),
                ));
            },
        }
        push_optional(
            &mut dimensions,
            match listed {
                Some(flag) => Some(FilterDimension::ListedOnly(flag)),
                None => None,
            },
        );
        push_optional(
            &mut dimensions,
            match collection {
                Some(key) => Some(FilterDimension::Collection(key)),
                None => None,
            },
        );
        Ok(QueryRequest { dimensions, limit: limit as u32, offset: offset as u32 })
    }

    /// The price chart of the given auction houses and creators over the
    /// given span of time.
    pub fn charts<D>(
        &self,
        auction_houses: Vec<String>,
        creators: Option<Vec<String>>,
        start_date: D,
        end_date: D,
    ) -> (chart: PriceChart<D>)
        ensures
            chart.auction_houses == auction_houses,
            chart.creators == creators,
            chart.start_date == start_date,
            chart.end_date == end_date,
    {
        PriceChart { auction_houses, creators, start_date, end_date }
    }

    /// Decides on the arguments of a query for connections: one of the
    /// two sides at least must be given; a side that is not given is empty.
    pub fn connections(
        &self,
        from: Option<Vec<String>>,
        to: Option<Vec<String>>,
        limit: i32,
        offset: i32,
    ) -> (outcome: Result<ConnectionsQuery, QueryError>)
        ensures
            outcome is Err <==> from is None && to is None,
            outcome matches Err(error) ==> error == QueryError::NoFilter,
            outcome matches Ok(query) ==> {
                &&& query.from.deep_view() == addresses_or_empty(from.deep_view())
                &&& query.to.deep_view() == addresses_or_empty(to.deep_view())
                &&& query.limit == limit
                &&& query.offset == offset
            },
    {
        if from.is_none() && to.is_none() {
            return Err(QueryError::NoFilter);
        }
        Ok(
            ConnectionsQuery {
                from: unwrap_or_empty(from),
                to: unwrap_or_empty(to),
                limit,
                offset,
            },
        )
    }

    /// Decides on a search for metadata documents: the term is looked up
    /// in the index of the metadatas, and neither limit nor offset may be
    /// negative.
    pub fn metadata_jsons(&self, term: String, limit: i32, offset: i32) -> (outcome: Result<
        SearchQuery,
        QueryError,
    >)
        ensures
            outcome is Err <==> limit < 0 || offset < 0,
            outcome matches Err(error) ==> error == QueryError::InvalidPagination,
            outcome matches Ok(query) ==> {
                &&& query.index@ == METADATAS_INDEX@
                &&& query.term == term
                &&& query.offset == offset
                &&& query.limit == limit
            },
    {
        search(METADATAS_INDEX, term, limit, offset)
    }

    /// Decides on a search for profiles: the term is looked up in the
    /// index of the name service, and neither limit nor offset may be
    /// negative.
    pub fn profiles(&self, term: String, limit: i32, offset: i32) -> (outcome: Result<
        SearchQuery,
        QueryError,
    >)
        ensures
            outcome is Err <==> limit < 0 || offset < 0,
            outcome matches Err(error) ==> error == QueryError::InvalidPagination,
            outcome matches Ok(query) ==> {
                &&& query.index@ == NAME_SERVICE_INDEX@
                &&& query.term == term
                &&& query.offset == offset
                &&& query.limit == limit
            },
    {
        search(NAME_SERVICE_INDEX, term, limit, offset)
    }

    /// Fills in what a query for featured listings leaves open: the auction
    /// houses and the excluded sellers from `defaults`, five listings per
    /// seller, no offset.
    pub fn featured_listings(
        &self,
        defaults: &FeaturedListingsDefaults,
        auction_houses: Option<Vec<String>>,
        seller_exclusions: Option<Vec<String>>,
        limit_per_seller: Option<i32>,
        limit: i32,
        offset: Option<i32>,
    ) -> (query: FeaturedListingsQuery)
        ensures
            query.auction_houses.deep_view() == addresses_or(
                auction_houses.deep_view(),
                defaults.auction_houses.deep_view(),
            ),
            query.seller_exclusions.deep_view() == addresses_or(
                seller_exclusions.deep_view(),
                defaults.seller_exclusions.deep_view(),
            ),
            query.limit_per_seller == number_or(limit_per_seller, DEFAULT_LIMIT_PER_SELLER),
            query.limit == limit,
            query.offset == number_or(offset, 0),
    {
        FeaturedListingsQuery {
            auction_houses: unwrap_or_copy(auction_houses, &defaults.auction_houses),
            seller_exclusions: unwrap_or_copy(seller_exclusions, &defaults.seller_exclusions),
            limit_per_seller: match limit_per_seller {
                Some(n) => n,
                None => DEFAULT_LIMIT_PER_SELLER,
            },
            limit,
            offset: match offset {
                Some(n) => n,
                None => 0,
            },
        }
    }
}

} // verus!
