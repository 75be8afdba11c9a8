//! The typed fragments that a request compiles to, and their text.
//!
//! A fragment holds no value, only the positions of the binds that its text
//! refers to. The text of a fragment is fixed by its variant and positions.

use vstd::prelude::*;
use crate::ledger::{BindValue, BindValueView};
use crate::text::{decimal, placeholder, push_decimal, push_placeholder};

verus! {

pub const LISTING_LOOKUP_OPEN: &'static str = "    LEFT JOIN LATERAL (
        SELECT * FROM listing_receipts
            WHERE listing_receipts.metadata = metadata_jsons.metadata_address
                AND listing_receipts.seller = current_metadata_owners.owner_address
                AND listing_receipts.canceled_at IS NULL
                AND listing_receipts.purchase_receipt IS NULL
                AND (";

pub const LISTING_LOOKUP_ANY: &'static str = " IS NULL OR listing_receipts.auction_house = ANY(";

pub const LISTING_LOOKUP_CLOSE: &'static str = "))
            ORDER BY listing_receipts.price DESC
            LIMIT 1
    ) listing_receipts ON TRUE
";

pub const BID_LOOKUP_OPEN: &'static str = "    INNER JOIN LATERAL (
        SELECT * FROM bid_receipts
            WHERE bid_receipts.metadata = metadata_jsons.metadata_address
                AND (";

pub const BID_LOOKUP_ANY: &'static str = " IS NULL OR bid_receipts.auction_house = ANY(";

pub const BID_LOOKUP_BUYER: &'static str = "))
                AND bid_receipts.buyer = ANY(";

pub const BID_LOOKUP_CLOSE: &'static str = ")
                AND bid_receipts.canceled_at IS NULL
                AND bid_receipts.purchase_receipt IS NULL
    ) bid_receipts ON TRUE
";

pub const ATTRIBUTE_OPEN: &'static str = "    INNER JOIN LATERAL (
        SELECT * FROM attributes
            WHERE attributes.metadata_address = metadata_jsons.metadata_address
                AND attributes.trait_type = ";

pub const ATTRIBUTE_VALUE: &'static str = "
                AND attributes.value = ANY(";

pub const ATTRIBUTE_ALIAS: &'static str = ")
    ) attributes_";

pub const ATTRIBUTE_CLOSE: &'static str = " ON TRUE
";

pub const COLLECTION_OPEN: &'static str = "    INNER JOIN metadata_collection_keys ON (metadata_collection_keys.metadata_address = metadata_jsons.metadata_address AND metadata_collection_keys.collection_address = ";

pub const COLLECTION_CLOSE: &'static str = ")
";

pub const OWNERS_OPEN: &'static str = "    AND current_metadata_owners.owner_address = ANY(";

pub const OWNERS_CLOSE: &'static str = ")
";

pub const CREATORS_OPEN: &'static str = "    AND (";

pub const CREATORS_ANY: &'static str = " IS NULL OR metadata_creators.creator_address = ANY(";

pub const CREATORS_CLOSE: &'static str = "))
";

pub const LISTED: &'static str = "    AND listing_receipts.price IS NOT NULL
";

/// A join that a request contributes to the statement.
#[derive(Clone, Copy, Debug, PartialEq, Eq, Structural)]
pub enum JoinFragment {
    /// Left-outer lookup of the highest-priced active listing by the
    /// current owner, within the auction houses bound at `auction_houses`.
    ListingLookup { auction_houses: usize },
    /// Inner lookup of the active bids from the buyers bound at `offerers`,
    /// within the auction houses bound at `auction_houses`.
    BidLookup { auction_houses: usize, offerers: usize },
    /// Inner lookup of one trait: the name bound at `trait_type`, with a
    /// value among those bound at `values`. `ordinal` tells the instances
    /// of one statement apart.
    Attribute { ordinal: usize, trait_type: usize, values: usize },
    /// Inner join with the membership in the collection bound at `key`.
    Collection { key: usize },
}

/// A [`JoinFragment`] over unbounded positions.
pub enum JoinFragmentView {
    ListingLookup { auction_houses: nat },
    BidLookup { auction_houses: nat, offerers: nat },
    Attribute { ordinal: nat, trait_type: nat, values: nat },
    Collection { key: nat },
}

impl View for JoinFragment {
    type V = JoinFragmentView;

    open spec fn view(&self) -> JoinFragmentView {
        match self {
            JoinFragment::ListingLookup { auction_houses } => JoinFragmentView::ListingLookup {
                auction_houses: *auction_houses as nat,
            },
            JoinFragment::BidLookup { auction_houses, offerers } => JoinFragmentView::BidLookup {
                auction_houses: *auction_houses as nat,
                offerers: *offerers as nat,
            },
            JoinFragment::Attribute { ordinal, trait_type, values } => JoinFragmentView::Attribute {
                ordinal: *ordinal as nat,
                trait_type: *trait_type as nat,
                values: *values as nat,
            },
            JoinFragment::Collection { key } => JoinFragmentView::Collection { key: *key as nat },
        }
    }
}

impl DeepView for JoinFragment {
    type V = JoinFragmentView;

    open spec fn deep_view(&self) -> JoinFragmentView {
        self@
    }
}

/// A condition that a request contributes to the `WHERE` clause.
#[derive(Clone, Copy, Debug, PartialEq, Eq, Structural)]
pub enum PredicateFragment {
    /// The owner of record is among the addresses bound at `owners`.
    Owners { owners: usize },
    /// The creator is among the addresses bound at `creators`, or that bind
    /// is null.
    Creators { creators: usize },
    /// The listing lookup found a listing.
    Listed,
}

/// A [`PredicateFragment`] over unbounded positions.
pub enum PredicateFragmentView {
    Owners { owners: nat },
    Creators { creators: nat },
    Listed,
}

impl View for PredicateFragment {
    type V = PredicateFragmentView;

    open spec fn view(&self) -> PredicateFragmentView {
        match self {
            PredicateFragment::Owners { owners } => PredicateFragmentView::Owners {
                owners: *owners as nat,
            },
            PredicateFragment::Creators { creators } => PredicateFragmentView::Creators {
                creators: *creators as nat,
            },
            PredicateFragment::Listed => PredicateFragmentView::Listed,
        }
    }
}

impl DeepView for PredicateFragment {
    type V = PredicateFragmentView;

    open spec fn deep_view(&self) -> PredicateFragmentView {
        self@
    }
}

impl JoinFragmentView {
    /// The text of the join: one or more whole lines.
    pub open spec fn text(self) -> Seq<char> {
        match self {
            JoinFragmentView::ListingLookup { auction_houses } => LISTING_LOOKUP_OPEN@
                + placeholder(auction_houses) + LISTING_LOOKUP_ANY@ + placeholder(auction_houses)
                + LISTING_LOOKUP_CLOSE@,
            JoinFragmentView::BidLookup { auction_houses, offerers } => BID_LOOKUP_OPEN@
                + placeholder(auction_houses) + BID_LOOKUP_ANY@ + placeholder(auction_houses)
                + BID_LOOKUP_BUYER@ + placeholder(offerers) + BID_LOOKUP_CLOSE@,
            JoinFragmentView::Attribute { ordinal, trait_type, values } => ATTRIBUTE_OPEN@
                + placeholder(trait_type) + ATTRIBUTE_VALUE@ + placeholder(values)
                + ATTRIBUTE_ALIAS@ + decimal(ordinal) + ATTRIBUTE_CLOSE@,
            JoinFragmentView::Collection { key } => COLLECTION_OPEN@ + placeholder(key)
                + COLLECTION_CLOSE@,
        }
    }
}

impl PredicateFragmentView {
    /// The text of the condition: one whole line that starts with `AND`.
    pub open spec fn text(self) -> Seq<char> {
        match self {
            PredicateFragmentView::Owners { owners } => OWNERS_OPEN@ + placeholder(owners)
                + OWNERS_CLOSE@,
            PredicateFragmentView::Creators { creators } => CREATORS_OPEN@ + placeholder(creators)
                + CREATORS_ANY@ + placeholder(creators) + CREATORS_CLOSE@,
            PredicateFragmentView::Listed => LISTED@,
        }
    }
}

/// Position `p` is reserved in `binds` and holds an array of addresses or
/// the null array.
pub open spec fn holds_optional_array(binds: Seq<BindValueView>, p: nat) -> bool {
    1 <= p <= binds.len() && (binds[p - 1] is TextArray || binds[p - 1] is NullTextArray)
}

/// Position `p` is reserved in `binds` and holds an array of texts.
pub open spec fn holds_array(binds: Seq<BindValueView>, p: nat) -> bool {
    1 <= p <= binds.len() && binds[p - 1] is TextArray
}

/// Position `p` is reserved in `binds` and holds one text.
pub open spec fn holds_text(binds: Seq<BindValueView>, p: nat) -> bool {
    1 <= p <= binds.len() && binds[p - 1] is Text
}

/// Position `p` is reserved in `binds` and holds an integer.
pub open spec fn holds_integer(binds: Seq<BindValueView>, p: nat) -> bool {
    1 <= p <= binds.len() && binds[p - 1] is Integer
}

impl JoinFragmentView {
    /// Every position of the join is reserved in `binds`, with a value of
    /// the type that the text of the join asks for.
    pub open spec fn well_bound(self, binds: Seq<BindValueView>) -> bool {
        match self {
            JoinFragmentView::ListingLookup { auction_houses } => holds_optional_array(
                binds,
                auction_houses,
            ),
            JoinFragmentView::BidLookup { auction_houses, offerers } => holds_optional_array(
                binds,
                auction_houses,
            ) && holds_array(binds, offerers),
            JoinFragmentView::Attribute { ordinal, trait_type, values } => holds_text(
                binds,
                trait_type,
            ) && holds_array(binds, values),
            JoinFragmentView::Collection { key } => holds_text(binds, key),
        }
    }
}

impl PredicateFragmentView {
    /// Every position of the condition is reserved in `binds`, with a value
    /// of the type that the text of the condition asks for.
    pub open spec fn well_bound(self, binds: Seq<BindValueView>) -> bool {
        match self {
            PredicateFragmentView::Owners { owners } => holds_array(binds, owners),
            PredicateFragmentView::Creators { creators } => holds_optional_array(binds, creators),
            PredicateFragmentView::Listed => true,
        }
    }
}

/// The texts of `joins`, one after the other.
pub open spec fn joins_text(joins: Seq<JoinFragmentView>) -> Seq<char>
    decreases joins.len(),
{
    if joins.len() == 0 {
        Seq::empty()
    } else {
        joins_text(joins.drop_last()) + joins.last().text()
    }
}

/// The texts of `predicates`, one after the other.
pub open spec fn predicates_text(predicates: Seq<PredicateFragmentView>) -> Seq<char>
    decreases predicates.len(),
{
    if predicates.len() == 0 {
        Seq::empty()
    } else {
        predicates_text(predicates.drop_last()) + predicates.last().text()
    }
}

impl JoinFragment {
    /// Appends the text of the join to `out`.
    pub fn push_text(&self, out: &mut String)
        ensures
            final(out)@ == old(out)@ + self@.text(),
    {
        match self {
            JoinFragment::ListingLookup { auction_houses } => {
                out.append(LISTING_LOOKUP_OPEN);
                push_placeholder(out, *auction_houses);
                out.append(LISTING_LOOKUP_ANY);
                push_placeholder(out, *auction_houses);
                out.append(LISTING_LOOKUP_CLOSE);
            },
            JoinFragment::BidLookup { auction_houses, offerers } => {
                out.append(BID_LOOKUP_OPEN);
                push_placeholder(out, *auction_houses);
                out.append(BID_LOOKUP_ANY);
                push_placeholder(out, *auction_houses);
                out.append(BID_LOOKUP_BUYER);
                push_placeholder(out, *offerers);
                out.append(BID_LOOKUP_CLOSE);
            },
            JoinFragment::Attribute { ordinal, trait_type, values } => {
                out.append(ATTRIBUTE_OPEN);
                push_placeholder(out, *trait_type);
                out.append(ATTRIBUTE_VALUE);
                push_placeholder(out, *values);
                out.append(ATTRIBUTE_ALIAS);
                push_decimal(out, *ordinal);
                out.append(ATTRIBUTE_CLOSE);
            },
            JoinFragment::Collection { key } => {
                out.append(COLLECTION_OPEN);
                push_placeholder(out, *key);
                out.append(COLLECTION_CLOSE);
            },
        }
        assert(out@ =~= old(out)@ + self@.text());
    }
}

impl PredicateFragment {
    /// Appends the text of the condition to `out`.
    pub fn push_text(&self, out: &mut String)
        ensures
            final(out)@ == old(out)@ + self@.text(),
    {
        match self {
            PredicateFragment::Owners { owners } => {
                out.append(OWNERS_OPEN);
                push_placeholder(out, *owners);
                out.append(OWNERS_CLOSE);
            },
            PredicateFragment::Creators { creators } => {
                out.append(CREATORS_OPEN);
                push_placeholder(out, *creators);
                out.append(CREATORS_ANY);
                push_placeholder(out, *creators);
                out.append(CREATORS_CLOSE);
            },
            PredicateFragment::Listed => {
                out.append(LISTED);
            },
        }
        assert(out@ =~= old(out)@ + self@.text());
    }
}

/// Whether position `p` is reserved in `binds` and holds an array of
/// addresses or the null array.
fn position_holds_optional_array(binds: &Vec<BindValue>, p: usize) -> (holds: bool)
    ensures
        holds == holds_optional_array(binds.deep_view(), p as nat),
{
    if p < 1 || p > binds.len() {
        return false;
    }
    assert(binds.deep_view()[p - 1] == binds[p - 1]@);
    match &binds[p - 1] {
        BindValue::TextArray(_) => true,
        BindValue::NullTextArray => true,
        _ => false,
    }
}

/// Whether position `p` is reserved in `binds` and holds an array of texts.
fn position_holds_array(binds: &Vec<BindValue>, p: usize) -> (holds: bool)
    ensures
        holds == holds_array(binds.deep_view(), p as nat),
{
    if p < 1 || p > binds.len() {
        return false;
    }
    assert(binds.deep_view()[p - 1] == binds[p - 1]@);
    match &binds[p - 1] {
        BindValue::TextArray(_) => true,
        _ => false,
    }
}

/// Whether position `p` is reserved in `binds` and holds one text.
fn position_holds_text(binds: &Vec<BindValue>, p: usize) -> (holds: bool)
    ensures
        holds == holds_text(binds.deep_view(), p as nat),
{
    if p < 1 || p > binds.len() {
        return false;
    }
    assert(binds.deep_view()[p - 1] == binds[p - 1]@);
    match &binds[p - 1] {
        BindValue::Text(_) => true,
        _ => false,
    }
}

/// Whether position `p` is reserved in `binds` and holds an integer.
pub fn position_holds_integer(binds: &Vec<BindValue>, p: usize) -> (holds: bool)
    ensures
        holds == holds_integer(binds.deep_view(), p as nat),
{
    if p < 1 || p > binds.len() {
        return false;
    }
    assert(binds.deep_view()[p - 1] == binds[p - 1]@);
    match &binds[p - 1] {
        BindValue::Integer(_) => true,
        _ => false,
    }
}

impl JoinFragment {
    /// Whether every position of the join is reserved in `binds`, with a
    /// value of the type that the text of the join asks for.
    pub fn is_well_bound(&self, binds: &Vec<BindValue>) -> (ok: bool)
        ensures
            ok == self@.well_bound(binds.deep_view()),
    {
        match self {
            JoinFragment::ListingLookup { auction_houses } => position_holds_optional_array(
                binds,
                *auction_houses,
            ),
            JoinFragment::BidLookup { auction_houses, offerers } => position_holds_optional_array(
                binds,
                *auction_houses,
            ) && position_holds_array(binds, *offerers),
            JoinFragment::Attribute { ordinal: _, trait_type, values } => position_holds_text(
                binds,
                *trait_type,
            ) && position_holds_array(binds, *values),
            JoinFragment::Collection { key } => position_holds_text(binds, *key),
        }
    }
}

impl PredicateFragment {
    /// Whether every position of the condition is reserved in `binds`, with
    /// a value of the type that the text of the condition asks for.
    pub fn is_well_bound(&self, binds: &Vec<BindValue>) -> (ok: bool)
        ensures
            ok == self@.well_bound(binds.deep_view()),
    {
        match self {
            PredicateFragment::Owners { owners } => position_holds_array(binds, *owners),
            PredicateFragment::Creators { creators } => position_holds_optional_array(
                binds,
                *creators,
            ),
            PredicateFragment::Listed => true,
        }
    }
}

/// Appends the texts of `joins`, in order, to `out`.
pub fn push_joins(out: &mut String, joins: &Vec<JoinFragment>)
    ensures
        final(out)@ == old(out)@ + joins_text(joins.deep_view()),
{
    let mut i: usize = 0;
    assert(joins.deep_view().take(0) =~= Seq::<JoinFragmentView>::empty());
    assert(out@ =~= old(out)@ + joins_text(joins.deep_view().take(0)));
    while i < joins.len()
        invariant
            i <= joins.len(),
            out@ == old(out)@ + joins_text(joins.deep_view().take(i as int)),
        decreases joins.len() - i,
    {
        joins[i].push_text(out);
        proof {
            let all = joins.deep_view();
            assert(all.take(i + 1).drop_last() =~= all.take(i as int));
            assert(all.take(i + 1).last() == joins[i as int]@);
            assert(out@ =~= old(out)@ + joins_text(all.take(i + 1)));
        }
        i = i + 1;
    }
    assert(joins.deep_view().take(i as int) =~= joins.deep_view());
}

/// Appends the texts of `predicates`, in order, to `out`.
pub fn push_predicates(out: &mut String, predicates: &Vec<PredicateFragment>)
    ensures
        final(out)@ == old(out)@ + predicates_text(predicates.deep_view()),
{
    let mut i: usize = 0;
    assert(predicates.deep_view().take(0) =~= Seq::<PredicateFragmentView>::empty());
    assert(out@ =~= old(out)@ + predicates_text(predicates.deep_view().take(0)));
    while i < predicates.len()
        invariant
            i <= predicates.len(),
            out@ == old(out)@ + predicates_text(predicates.deep_view().take(i as int)),
        decreases predicates.len() - i,
    {
        predicates[i].push_text(out);
        proof {
            let all = predicates.deep_view();
            assert(all.take(i + 1).drop_last() =~= all.take(i as int));
            assert(all.take(i + 1).last() == predicates[i as int]@);
            assert(out@ =~= old(out)@ + predicates_text(all.take(i + 1)));
        }
        i = i + 1;
    }
    assert(predicates.deep_view().take(i as int) =~= predicates.deep_view());
}

} // verus!
