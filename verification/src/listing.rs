//! The admin listings of accounts and items: one page of rows, as summaries, with the
//! paging the request was served with.
use vstd::prelude::*;
use crate::datetime::{naive_text_of_micros, stored_time_text};
use crate::models::{AccountModel, InventoryTypeModel, ItemModel};
use crate::paging::{div_toward_zero, limit_used, page_and_limit, page_used, total_pages};
use crate::parsers::{uuid_text, uuid_to_string};
use crate::text::owned;

verus! {

/// The text of a stored time in a listing.
pub open spec fn time_text(micros: i64) -> Seq<char> {
    match naive_text_of_micros(micros) {
        Some(t) => t,
        None => Seq::empty(),
    }
}

/// An account as listed.
#[derive(Debug)]
pub struct AccountSummary {
    pub id: String,
    pub email: String,
    pub is_admin: bool,
    pub created_at: String,
}

/// A page of accounts.
#[derive(Debug)]
pub struct ListAccountsResponse {
    pub accounts: Vec<AccountSummary>,
    pub total: i64,
    pub page: i64,
    pub limit: i64,
    pub total_pages: i64,
}

/// An item as listed.
#[derive(Debug)]
pub struct ItemSummary {
    pub id: String,
    pub slug: String,
    pub inventory_type: String,
    pub created_at: String,
}

/// A page of items.
#[derive(Debug)]
pub struct ListItemsResponse {
    pub items: Vec<ItemSummary>,
    pub total: i64,
    pub page: i64,
    pub limit: i64,
    pub total_pages: i64,
}

/// Whether `s` lists `a`: its id as text, its e-mail, its admin flag, its creation time.
pub open spec fn account_summary_of(s: AccountSummary, a: AccountModel) -> bool {
    &&& s.id@ == uuid_text(a.id)
    &&& s.email == a.email
    &&& s.is_admin == a.is_admin
    &&& s.created_at@ == time_text(a.created_at)
}

/// Whether `s` lists `i`: its id as text, its slug, its kind of inventory, its creation time.
pub open spec fn item_summary_of(s: ItemSummary, i: ItemModel) -> bool {
    &&& s.id@ == uuid_text(i.id)
    &&& s.slug == i.slug
    &&& s.inventory_type@ == i.inventory_type.name()
    &&& s.created_at@ == time_text(i.created_at)
}

/// The page of accounts for a listing asked with `page` and `limit`, given the rows of
/// that page and the number of all matching accounts: the page is at least 1, the size
/// between 1 and 100, and the page count is the total divided by the size, rounded up.
pub fn list_accounts_response(rows: Vec<AccountModel>, total: i64, page: i64, limit: i64) -> (r:
    ListAccountsResponse)
    requires
        total + limit_used(limit) <= i64::MAX,
    ensures
        r.page == page_used(page),
        r.limit == limit_used(limit),
        r.total == total,
        r.total_pages as int == div_toward_zero(total + limit_used(limit) - 1, limit_used(limit) as int),
        r.accounts@.len() == rows@.len(),
        forall|k: int| 0 <= k < rows@.len() ==> account_summary_of(#[trigger] r.accounts@[k], rows@[k]),
{
    let (page, limit) = page_and_limit(page, limit);
    let pages = total_pages(total, limit);
    let mut accounts: Vec<AccountSummary> = Vec::new();
    let n = rows.len();
    for k in 0..n
        invariant
            n == rows@.len(),
            accounts@.len() == k,
            forall|j: int| 0 <= j < k ==> account_summary_of(#[trigger] accounts@[j], rows@[j]),
    {
        let a = &rows[k];
        accounts.push(
            AccountSummary {
                id: uuid_to_string(a.id),
                email: a.email.clone(),
                is_admin: a.is_admin,
                created_at: stored_time_text(a.created_at),
            },
        );
    }
    ListAccountsResponse { accounts, total, page, limit, total_pages: pages }
}

/// The page of items for a listing asked with `page` and `limit`; see
/// `list_accounts_response`.
pub fn list_items_response(rows: Vec<ItemModel>, total: i64, page: i64, limit: i64) -> (r:
    ListItemsResponse)
    requires
        total + limit_used(limit) <= i64::MAX,
    ensures
        r.page == page_used(page),
        r.limit == limit_used(limit),
        r.total == total,
        r.total_pages as int == div_toward_zero(total + limit_used(limit) - 1, limit_used(limit) as int),
        r.items@.len() == rows@.len(),
        forall|k: int| 0 <= k < rows@.len() ==> item_summary_of(#[trigger] r.items@[k], rows@[k]),
{
    let (page, limit) = page_and_limit(page, limit);
    let pages = total_pages(total, limit);
    let mut items: Vec<ItemSummary> = Vec::new();
    let n = rows.len();
    for k in 0..n
        invariant
            n == rows@.len(),
            items@.len() == k,
            forall|j: int| 0 <= j < k ==> item_summary_of(#[trigger] items@[j], rows@[j]),
    {
        let i = &rows[k];
        items.push(
            ItemSummary {
                id: uuid_to_string(i.id),
                slug: i.slug.clone(),
                inventory_type: owned(i.inventory_type.as_str()),
                created_at: stored_time_text(i.created_at),
            },
        );
    }
    ListItemsResponse { items, total, page, limit, total_pages: pages }
}

} // verus!
