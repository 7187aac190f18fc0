use kasir_pos::amounts::parse_amount;
use kasir_pos::listing::{group_rows, ListFilter, TransactionFlatRow};
use kasir_pos::models::{AuthUser, Role};
use kasir_pos::pagination::{calculate_pagination, checked_pagination, total_pages, PaginationMeta};

fn row(tx: u64, cashier: u64, invoice: &str, item: u64, product: &str, subtotal: &str) -> TransactionFlatRow {
    TransactionFlatRow {
        transaction_id: tx,
        invoice_number: invoice.to_string(),
        total_amount: "2500.00".to_string(),
        payment_method: "cash".to_string(),
        paid_amount: "2600.00".to_string(),
        change_amount: "100.00".to_string(),
        status: "paid".to_string(),
        created_at: "2024-01-01 10:00:00".to_string(),
        cashier_id: cashier,
        cashier_username: format!("user{}", cashier),
        cashier_role: "Kasir".to_string(),
        transaction_item_id: item,
        price: "1000.00".to_string(),
        quantity: 2,
        subtotal: subtotal.to_string(),
        product_id: item * 10,
        product_name: product.to_string(),
        product_price: 1000,
    }
}

fn caller(id: u64, role: Role) -> AuthUser {
    AuthUser { user_id: id, username: "someone".to_string(), role }
}

#[test]
fn grouping_keeps_first_seen_order_and_all_items() {
    let rows = vec![
        row(9, 7, "INV-9", 1, "Kopi", "2000.00"),
        row(4, 7, "INV-4", 2, "Teh", "500.00"),
        row(9, 7, "INV-9", 3, "Gula", "500.00"),
    ];
    let sales = group_rows(&rows);
    assert_eq!(sales.len(), 2);
    assert_eq!(sales[0].id, 9);
    assert_eq!(sales[1].id, 4);
    assert_eq!(sales[0].items.len(), 2);
    assert_eq!(sales[0].items[0].product_name, "Kopi");
    assert_eq!(sales[0].items[1].product_name, "Gula");
    assert_eq!(sales[0].items[0].subtotal, 2000);
    assert_eq!(sales[0].items[1].product_id, 30);
    assert_eq!(sales[1].items.len(), 1);
    assert_eq!(sales[0].total_amount, 2500);
    assert_eq!(sales[0].paid_amount, 2600);
    assert_eq!(sales[0].change_amount, 100);
    assert_eq!(sales[0].cashier.id, 7);
    assert_eq!(sales[0].cashier.username, "user7");
    assert_eq!(sales[0].cashier.role, Role::Kasir);
    assert_eq!(sales[0].invoice_number, "INV-9");
}

#[test]
fn listed_cashier_keeps_the_stored_role() {
    let mut r = row(5, 1, "INV-5", 1, "Kopi", "1.00");
    r.cashier_role = "Admin".to_string();
    assert_eq!(group_rows(&vec![r])[0].cashier.role, Role::Admin);
}

#[test]
fn grouping_of_no_rows_is_empty() {
    assert!(group_rows(&Vec::new()).is_empty());
}

#[test]
fn unreadable_amounts_count_as_zero() {
    let mut r = row(1, 7, "INV-1", 1, "Kopi", "abc");
    r.total_amount = "12.50".to_string();
    let sales = group_rows(&vec![r]);
    assert_eq!(sales[0].items[0].subtotal, 0);
    assert_eq!(sales[0].total_amount, 0);
}

#[test]
fn repeated_grouping_gives_the_same_sales() {
    let rows = vec![row(2, 1, "INV-2", 1, "A", "1.00"), row(1, 1, "INV-1", 2, "B", "2.00")];
    assert_eq!(group_rows(&rows), group_rows(&rows));
}

#[test]
fn amounts_parse_whole_units() {
    assert_eq!(parse_amount("2500.00"), Some(2500));
    assert_eq!(parse_amount("2500"), Some(2500));
    assert_eq!(parse_amount("0.0"), Some(0));
    assert_eq!(parse_amount("7."), Some(7));
    assert_eq!(parse_amount("18446744073709551615"), Some(u64::MAX));
    assert_eq!(parse_amount("18446744073709551616"), None);
    assert_eq!(parse_amount("12.50"), None);
    assert_eq!(parse_amount(""), None);
    assert_eq!(parse_amount(".00"), None);
    assert_eq!(parse_amount("-5"), None);
    assert_eq!(parse_amount("1.0.0"), None);
}

#[test]
fn restricted_caller_sees_only_own_matching_sales() {
    let f = ListFilter::for_caller(&caller(7, Role::Kasir), Some("INV-".to_string()));
    assert_eq!(f.cashier_id, Some(7));
    let rows = vec![
        row(1, 7, "INV-1", 1, "A", "1.00"),
        row(2, 8, "INV-2", 2, "B", "1.00"),
        row(3, 7, "X-3", 3, "C", "1.00"),
    ];
    let visible: Vec<u64> = rows.iter().filter(|r| f.admits(r)).map(|r| r.transaction_id).collect();
    assert_eq!(visible, vec![1]);
}

#[test]
fn elevated_caller_is_not_restricted_by_cashier() {
    let f = ListFilter::for_caller(&caller(1, Role::Admin), None);
    assert_eq!(f.cashier_id, None);
    assert_eq!(f.search, None);
    assert!(f.admits(&row(1, 7, "INV-1", 1, "A", "1.00")));
    assert!(f.admits(&row(2, 8, "INV-2", 2, "B", "1.00")));
}

#[test]
fn search_ignores_case_and_covers_status_and_method() {
    let f = ListFilter::for_caller(&caller(1, Role::Admin), Some("PAID".to_string()));
    assert!(f.admits(&row(1, 7, "INV-1", 1, "A", "1.00")));
    let g = ListFilter::for_caller(&caller(1, Role::Admin), Some("CaSh".to_string()));
    assert!(g.admits(&row(1, 7, "INV-1", 1, "A", "1.00")));
    let h = ListFilter::for_caller(&caller(1, Role::Admin), Some("debit".to_string()));
    assert!(!h.admits(&row(1, 7, "INV-1", 1, "A", "1.00")));
    let empty = ListFilter::for_caller(&caller(1, Role::Admin), Some(String::new()));
    assert_eq!(empty.search, None);
}

#[test]
fn like_pattern_escapes_wildcards() {
    let f = ListFilter::for_caller(&caller(1, Role::Admin), Some("a%b_c".to_string()));
    let p: String = f.like_pattern().unwrap().into_iter().collect();
    assert_eq!(p, "%a\\%b\\_c%");
    let none = ListFilter::for_caller(&caller(1, Role::Admin), None);
    assert!(none.like_pattern().is_none());
}

#[test]
fn page_two_of_twenty_five_by_ten() {
    let (page, limit, offset) = calculate_pagination(Some(2), Some(10));
    assert_eq!((page, limit, offset), (2, 10, 10));
    let meta = PaginationMeta::new(page, limit, 25);
    assert_eq!(meta.total_pages, 3);
    assert_eq!(meta.total, 25);
    assert_eq!(meta.current_page, 2);
    let ids: Vec<u64> = (1..=25).collect();
    let shown = &ids[offset..(offset + limit).min(ids.len())];
    assert_eq!(shown.len(), 10);
    assert_eq!(shown[0], 11);
}

#[test]
fn pagination_defaults_and_rounding() {
    assert_eq!(calculate_pagination(None, None), (1, 10, 0));
    assert_eq!(calculate_pagination(Some(3), None), (3, 10, 20));
    assert_eq!(total_pages(0, 10), 0);
    assert_eq!(total_pages(10, 10), 1);
    assert_eq!(total_pages(11, 10), 2);
    assert_eq!(total_pages(u64::MAX, 1), u64::MAX);
    assert_eq!(total_pages(u64::MAX, 2), u64::MAX / 2 + 1);
}

#[test]
fn checked_pagination_refuses_out_of_range() {
    assert_eq!(checked_pagination(None, None), Some((1, 10, 0)));
    assert_eq!(checked_pagination(Some(2), Some(10)), Some((2, 10, 10)));
    assert_eq!(checked_pagination(Some(0), Some(10)), None);
    assert_eq!(checked_pagination(Some(1), Some(0)), None);
    assert_eq!(checked_pagination(Some(usize::MAX), Some(2)), None);
}
