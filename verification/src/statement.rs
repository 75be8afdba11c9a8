//! The statement assembler: from a plan to the text of one statement.
//!
//! The parts of a statement stand in one order, whatever the request holds:
//! the selection with the fixed joins, the joins of the plan, the
//! `WHERE` clause with the fixed condition, the conditions of the plan, the
//! two denylist conditions, the ordering, the pagination.

use vstd::prelude::*;
use crate::denylist::{DenylistPredicates, DenylistPredicatesView};
use crate::fragment::{joins_text, predicates_text, push_joins, push_predicates};
use crate::ledger::{BindValue, BindValueView};
use crate::plan::{QueryPlan, QueryPlanView};
use crate::text::{placeholder, push_placeholder};

verus! {

/// The selected columns and the joins that every statement has.
pub const SELECT_CLAUSE: &'static str = "SELECT
    metadatas.address,
    metadatas.name,
    metadatas.seller_fee_basis_points,
    metadatas.mint_address,
    metadatas.primary_sale_happened,
    metadatas.uri,
    metadata_jsons.description,
    metadata_jsons.image,
    metadata_jsons.category,
    metadata_jsons.model,
    listing_receipts.price
FROM metadata_jsons
    INNER JOIN metadatas ON (metadatas.address = metadata_jsons.metadata_address)
    INNER JOIN metadata_creators ON (metadatas.address = metadata_creators.metadata_address)
    INNER JOIN current_metadata_owners ON (metadatas.mint_address = current_metadata_owners.mint_address)
";

/// The head of the conditions: only verified creator attributions count.
pub const WHERE_CLAUSE: &'static str = "WHERE metadata_creators.verified
";

pub const OWNER_DENYLIST_OPEN: &'static str = "    AND (";

pub const OWNER_DENYLIST_CLOSE: &'static str = ")
";

/// The listing condition is asked of the rows that have a listing.
pub const LISTING_DENYLIST_OPEN: &'static str = "    AND (listing_receipts.address IS NULL OR (";

pub const LISTING_DENYLIST_CLOSE: &'static str = "))
";

/// Listed items first, by falling price; equal prices by rising name.
pub const ORDER_CLAUSE: &'static str = "ORDER BY listing_receipts.price DESC NULLS LAST, metadatas.name ASC
";

pub const LIMIT_OPEN: &'static str = "LIMIT ";

pub const OFFSET_OPEN: &'static str = "
OFFSET ";

pub const STATEMENT_END: &'static str = ";";

/// A statement ready to run: its text and the values to bind, the value at
/// index `i` to the parameter `$i+1`.
#[derive(Clone, Debug, PartialEq, Eq)]
pub struct CompiledStatement {
    pub sql: String,
    pub binds: Vec<BindValue>,
}

/// The mathematical value of a [`CompiledStatement`].
pub struct CompiledStatementView {
    pub sql: Seq<char>,
    pub binds: Seq<BindValueView>,
}

impl View for CompiledStatement {
    type V = CompiledStatementView;

    open spec fn view(&self) -> CompiledStatementView {
        CompiledStatementView { sql: self.sql@, binds: self.binds.deep_view() }
    }
}

/// The two denylist conditions, each in parentheses of its own.
pub open spec fn denylist_text(denylist: DenylistPredicatesView) -> Seq<char> {
    OWNER_DENYLIST_OPEN@ + denylist.owner_address_ok + OWNER_DENYLIST_CLOSE@
        + LISTING_DENYLIST_OPEN@ + denylist.listing_address_ok + LISTING_DENYLIST_CLOSE@
}

/// The pagination: the limit, then the offset, each by its position.
pub open spec fn pagination_text(limit: nat, offset: nat) -> Seq<char> {
    LIMIT_OPEN@ + placeholder(limit) + OFFSET_OPEN@ + placeholder(offset) + STATEMENT_END@
}

/// The text of the statement of a plan.
pub open spec fn statement_text(plan: QueryPlanView, denylist: DenylistPredicatesView) -> Seq<
    char,
> {
    SELECT_CLAUSE@ + joins_text(plan.joins) + WHERE_CLAUSE@ + predicates_text(plan.predicates)
        + denylist_text(denylist) + ORDER_CLAUSE@ + pagination_text(plan.limit, plan.offset)
}

/// The statement of a plan: its text, and the binds of the plan unchanged.
pub open spec fn statement_of(
    plan: QueryPlanView,
    denylist: DenylistPredicatesView,
) -> CompiledStatementView {
    CompiledStatementView { sql: statement_text(plan, denylist), binds: plan.binds }
}

/// Appends the two denylist conditions to `out`.
fn push_denylist(out: &mut String, denylist: &DenylistPredicates)
    ensures
        final(out)@ == old(out)@ + denylist_text(denylist@),
{
    out.append(OWNER_DENYLIST_OPEN);
    out.append(denylist.owner_address_ok.as_str());
    out.append(OWNER_DENYLIST_CLOSE);
    out.append(LISTING_DENYLIST_OPEN);
    out.append(denylist.listing_address_ok.as_str());
    out.append(LISTING_DENYLIST_CLOSE);
    assert(out@ =~= old(out)@ + denylist_text(denylist@));
}

/// Appends the pagination to `out`.
fn push_pagination(out: &mut String, limit: usize, offset: usize)
    ensures
        final(out)@ == old(out)@ + pagination_text(limit as nat, offset as nat),
{
    out.append(LIMIT_OPEN);
    push_placeholder(out, limit);
    out.append(OFFSET_OPEN);
    push_placeholder(out, offset);
    out.append(STATEMENT_END);
    assert(out@ =~= old(out)@ + pagination_text(limit as nat, offset as nat));
}

/// Assembles the statement of `plan`. The plan must be well bound: a
/// statement whose text refers to a bind that is not there, or is of
/// another type, is never written.
pub fn assemble(plan: QueryPlan, denylist: &DenylistPredicates) -> (statement: CompiledStatement)
    requires
        plan@.well_bound(),
    ensures
        statement@ == statement_of(plan@, denylist@),
{
    let mut sql = String::new();
    sql.append(SELECT_CLAUSE);
    push_joins(&mut sql, &plan.joins);
    sql.append(WHERE_CLAUSE);
    push_predicates(&mut sql, &plan.predicates);
    push_denylist(&mut sql, denylist);
    sql.append(ORDER_CLAUSE);
    push_pagination(&mut sql, plan.limit, plan.offset);
    assert(sql@ =~= statement_text(plan@, denylist@));
    CompiledStatement { sql, binds: plan.binds }
}

} // verus!
