use aurelis::listing::{list_accounts_response, list_items_response};
use aurelis::models::{AccountModel, InventoryTypeModel, ItemModel};

fn account(id: u128, email: &str, is_admin: bool) -> AccountModel {
    AccountModel {
        id,
        email: email.to_string(),
        password_hash: String::new(),
        is_admin,
        max_characters: 3,
        banned_at: None,
        banned_reason: None,
        suspended_until: None,
        created_at: 1_700_000_000_000_000,
    }
}

#[test]
fn account_listing_summarises_each_row() {
    let r = list_accounts_response(vec![account(0xab, "a@b.c", true), account(1, "x@y.z", false)], 41, 0, 500);
    assert_eq!((r.page, r.limit, r.total, r.total_pages), (1, 100, 41, 1));
    assert_eq!(r.accounts.len(), 2);
    assert_eq!(r.accounts[0].id, "00000000-0000-0000-0000-0000000000ab");
    assert_eq!((r.accounts[0].email.as_str(), r.accounts[0].is_admin), ("a@b.c", true));
    assert_eq!(r.accounts[0].created_at, "2023-11-14 22:13:20");
    assert!(!r.accounts[1].is_admin);
    let r = list_accounts_response(Vec::new(), 41, 3, 20);
    assert_eq!((r.page, r.limit, r.total_pages), (3, 20, 3));
}

#[test]
fn item_listing_summarises_each_row() {
    let rows = vec![ItemModel {
        id: 2,
        slug: "ruby".to_string(),
        inventory_type: InventoryTypeModel::QuestItem,
        max_stack: 5,
        created_at: 0,
    }];
    let r = list_items_response(rows, 1, 1, 20);
    assert_eq!((r.total, r.total_pages), (1, 1));
    assert_eq!(r.items[0].inventory_type, "quest_item");
    assert_eq!(r.items[0].slug, "ruby");
    assert_eq!(r.items[0].created_at, "1970-01-01 00:00:00");
}
