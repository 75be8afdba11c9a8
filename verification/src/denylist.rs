//! The two denylist conditions that every statement carries.
//!
//! The denylists themselves are kept elsewhere. Their keeper renders, for a
//! column that this module names, a boolean SQL expression that holds of the
//! addresses that are not denied. The compiler takes the two expressions as
//! they are: it neither reads nor changes them, and they refer to no bind.

use vstd::prelude::*;

verus! {

/// The column that the owner condition is rendered for: the owner of
/// record, who is the seller of any listing that the lookup finds.
pub const OWNER_ADDRESS_COLUMN: &'static str = "current_metadata_owners.owner_address";

/// The column that the listing condition is rendered for. It is null in
/// the rows of items without a listing.
pub const LISTING_ADDRESS_COLUMN: &'static str = "listing_receipts.address";

/// The two conditions, as rendered for [`OWNER_ADDRESS_COLUMN`] and
/// [`LISTING_ADDRESS_COLUMN`].
#[derive(Clone, Debug, PartialEq, Eq)]
pub struct DenylistPredicates {
    pub owner_address_ok: String,
    pub listing_address_ok: String,
}

/// The mathematical value of [`DenylistPredicates`].
pub struct DenylistPredicatesView {
    pub owner_address_ok: Seq<char>,
    pub listing_address_ok: Seq<char>,
}

impl View for DenylistPredicates {
    type V = DenylistPredicatesView;

    open spec fn view(&self) -> DenylistPredicatesView {
        DenylistPredicatesView {
            owner_address_ok: self.owner_address_ok@,
            listing_address_ok: self.listing_address_ok@,
        }
    }
}

} // verus!
