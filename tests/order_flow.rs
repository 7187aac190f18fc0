use std::collections::HashMap;

use kasir_pos::models::{PaymentMethod, Status};
use kasir_pos::order::{
    price_line, reserve, settle, ErrorKind, OrderError, ProductSnapshot, TransactionItemCalculated,
    TransactionItemsPayload,
};
use kasir_pos::session::{OrderReceipt, OrderSession, OrderStep, Stage, StoreEvent};

/// An in-memory ledger: product price and stock, stored headers and items.
struct Ledger {
    products: HashMap<i64, (u64, u64)>,
    headers: Vec<(u64, String, u64, u64, u64)>,
    items: Vec<(u64, TransactionItemCalculated)>,
}

/// The writes of one unit of work, undone on rollback.
#[derive(Default)]
struct UnitOfWork {
    decrements: Vec<(i64, u64)>,
    headers: usize,
    items: usize,
}

impl Ledger {
    fn new(products: &[(i64, u64, u64)]) -> Ledger {
        Ledger {
            products: products.iter().map(|&(id, price, stock)| (id, (price, stock))).collect(),
            headers: Vec::new(),
            items: Vec::new(),
        }
    }

    fn stock(&self, id: i64) -> u64 {
        self.products[&id].1
    }

    /// Performs one step of `session`; `Some` once the session is done.
    fn perform(
        &mut self,
        session: &mut OrderSession,
        uow: &mut UnitOfWork,
    ) -> Option<Result<OrderReceipt, OrderError>> {
        let event = match session.next_step() {
            OrderStep::ReadProduct { product_id } => StoreEvent::ProductRow {
                row: self
                    .products
                    .get(&product_id)
                    .map(|&(price, stock)| ProductSnapshot { price, stock }),
            },
            OrderStep::Reserve { product_id, quantity } => {
                let entry = self.products.get_mut(&product_id).unwrap();
                match reserve(entry.1, quantity as u64) {
                    Some(left) => {
                        entry.1 = left;
                        uow.decrements.push((product_id, quantity as u64));
                        StoreEvent::Reserved { affected_rows: 1 }
                    }
                    None => StoreEvent::Reserved { affected_rows: 0 },
                }
            }
            OrderStep::InsertHeader => {
                let h = session.header();
                let id = self.headers.len() as u64 + 1;
                self.headers.push((id, h.invoice_number, h.total_amount, h.paid_amount, h.change_amount));
                uow.headers += 1;
                StoreEvent::HeaderStored { transaction_id: id }
            }
            OrderStep::InsertItem { transaction_id, item } => {
                self.items.push((transaction_id, item));
                uow.items += 1;
                StoreEvent::ItemStored
            }
            OrderStep::Commit => StoreEvent::Committed,
            OrderStep::Finish { .. } => return Some(Ok(session.receipt().unwrap())),
            OrderStep::Rollback { error } => {
                for &(id, q) in &uow.decrements {
                    self.products.get_mut(&id).unwrap().1 += q;
                }
                for _ in 0..uow.headers {
                    self.headers.pop();
                }
                for _ in 0..uow.items {
                    self.items.pop();
                }
                return Some(Err(error));
            }
        };
        session.apply(event);
        None
    }

    fn place(
        &mut self,
        method: &str,
        paid: u64,
        lines: &[(i64, i32)],
    ) -> Result<OrderReceipt, OrderError> {
        let items = lines
            .iter()
            .map(|&(product_id, quantity)| TransactionItemsPayload { product_id, quantity })
            .collect();
        let mut session = OrderSession::start(7, method, paid, items, "INV-test".to_string())?;
        let mut uow = UnitOfWork::default();
        loop {
            if let Some(done) = self.perform(&mut session, &mut uow) {
                return done;
            }
        }
    }
}

#[test]
fn order_two_products_commits_and_decrements_stock() {
    let mut ledger = Ledger::new(&[(1, 1000, 5), (2, 500, 5)]);
    let receipt = ledger.place("cash", 2600, &[(1, 2), (2, 1)]).unwrap();
    assert_eq!(receipt.header.total_amount, 2500);
    assert_eq!(receipt.header.change_amount, 100);
    assert_eq!(receipt.header.paid_amount, 2600);
    assert_eq!(receipt.header.payment_method, PaymentMethod::Cash);
    assert_eq!(receipt.header.status, Status::Paid);
    assert_eq!(receipt.header.invoice_number, "INV-test");
    assert_eq!(receipt.items.len(), 2);
    assert_eq!(receipt.items[0].subtotal, 2000);
    assert_eq!(receipt.items[0].price, 1000);
    assert_eq!(receipt.items[1].subtotal, 500);
    assert_eq!(ledger.stock(1), 3);
    assert_eq!(ledger.stock(2), 4);
    assert_eq!(ledger.headers.len(), 1);
    assert_eq!(ledger.items.len(), 2);
}

#[test]
fn order_beyond_stock_is_a_conflict_without_side_effects() {
    let mut ledger = Ledger::new(&[(1, 1000, 5)]);
    let err = ledger.place("cash", 100000, &[(1, 10)]).unwrap_err();
    assert_eq!(
        err,
        OrderError::InsufficientStock { product_id: 1, requested: 10, available: 5 }
    );
    assert_eq!(err.kind(), ErrorKind::Conflict);
    assert_eq!(ledger.stock(1), 5);
    assert!(ledger.headers.is_empty());
    assert!(ledger.items.is_empty());
}

#[test]
fn underpaid_order_is_invalid_and_rolls_back_reservations() {
    let mut ledger = Ledger::new(&[(1, 1000, 5), (2, 500, 5)]);
    let err = ledger.place("cash", 100, &[(1, 2), (2, 1)]).unwrap_err();
    assert_eq!(err, OrderError::Underpaid { paid: 100, total: 2500 });
    assert_eq!(err.kind(), ErrorKind::InvalidPayload);
    assert_eq!(err.kind().status_code(), 400);
    assert_eq!(ledger.stock(1), 5);
    assert_eq!(ledger.stock(2), 5);
    assert!(ledger.headers.is_empty());
}

#[test]
fn unknown_product_late_in_order_undoes_earlier_lines() {
    let mut ledger = Ledger::new(&[(1, 1000, 5)]);
    let err = ledger.place("debit", 5000, &[(1, 2), (99, 1)]).unwrap_err();
    assert_eq!(err, OrderError::ProductNotFound { product_id: 99 });
    assert_eq!(err.kind().status_code(), 404);
    assert_eq!(ledger.stock(1), 5);
    assert!(ledger.headers.is_empty());
}

#[test]
fn two_orders_for_the_last_unit_only_one_wins() {
    let mut ledger = Ledger::new(&[(3, 700, 1)]);
    let items = vec![TransactionItemsPayload { product_id: 3, quantity: 1 }];
    let mut a = OrderSession::start(1, "cash", 700, items.clone(), "INV-a".to_string()).unwrap();
    let mut b = OrderSession::start(2, "cash", 700, items, "INV-b".to_string()).unwrap();
    let mut ua = UnitOfWork::default();
    let mut ub = UnitOfWork::default();
    // Both read the product before either reserves.
    assert!(ledger.perform(&mut a, &mut ua).is_none());
    assert!(ledger.perform(&mut b, &mut ub).is_none());
    assert!(matches!(a.stage, Stage::Reserve { .. }));
    assert!(matches!(b.stage, Stage::Reserve { .. }));
    let mut ra = None;
    let mut rb = None;
    while ra.is_none() || rb.is_none() {
        if ra.is_none() {
            ra = ledger.perform(&mut a, &mut ua);
        }
        if rb.is_none() {
            rb = ledger.perform(&mut b, &mut ub);
        }
    }
    let ra = ra.unwrap();
    let rb = rb.unwrap();
    assert!(ra.is_ok());
    assert_eq!(rb.unwrap_err().kind(), ErrorKind::Conflict);
    assert_eq!(ledger.stock(3), 0);
    assert_eq!(ledger.headers.len(), 1);
}

#[test]
fn unknown_payment_method_and_empty_order_are_refused() {
    let items = vec![TransactionItemsPayload { product_id: 1, quantity: 1 }];
    let e = OrderSession::start(1, "qris", 10, items.clone(), "INV-x".to_string()).unwrap_err();
    assert_eq!(e, OrderError::UnknownPaymentMethod);
    let e = OrderSession::start(1, "Cash", 10, items, "INV-x".to_string()).unwrap_err();
    assert_eq!(e, OrderError::UnknownPaymentMethod);
    let e = OrderSession::start(1, "credit", 10, Vec::new(), "INV-x".to_string()).unwrap_err();
    assert_eq!(e, OrderError::EmptyOrder);
    assert_eq!(e.kind(), ErrorKind::InvalidPayload);
}

#[test]
fn store_failure_turns_into_rollback() {
    let items = vec![TransactionItemsPayload { product_id: 1, quantity: 1 }];
    let mut s = OrderSession::start(1, "cash", 10, items, "INV-x".to_string()).unwrap();
    assert_eq!(s.next_step(), OrderStep::ReadProduct { product_id: 1 });
    s.apply(StoreEvent::StoreFailed);
    assert_eq!(s.next_step(), OrderStep::Rollback { error: OrderError::Storage });
    s.apply(StoreEvent::Committed);
    assert_eq!(s.next_step(), OrderStep::Rollback { error: OrderError::Storage });
    assert_eq!(OrderError::Storage.kind().status_code(), 500);
}

#[test]
fn out_of_turn_event_fails_the_order() {
    let items = vec![TransactionItemsPayload { product_id: 1, quantity: 1 }];
    let mut s = OrderSession::start(1, "cash", 10, items, "INV-x".to_string()).unwrap();
    s.apply(StoreEvent::Committed);
    assert!(matches!(s.stage, Stage::Failed { error: OrderError::Storage }));
    assert!(s.receipt().is_none());
}

#[test]
fn price_line_prices_and_refuses() {
    let item = TransactionItemsPayload { product_id: 4, quantity: 3 };
    let ok = price_line(&item, Some(ProductSnapshot { price: 250, stock: 3 })).unwrap();
    assert_eq!(ok, TransactionItemCalculated { product_id: 4, quantity: 3, price: 250, subtotal: 750 });
    assert_eq!(
        price_line(&item, None),
        Err(OrderError::ProductNotFound { product_id: 4 })
    );
    assert_eq!(
        price_line(&item, Some(ProductSnapshot { price: 250, stock: 2 })),
        Err(OrderError::InsufficientStock { product_id: 4, requested: 3, available: 2 })
    );
    let zero = TransactionItemsPayload { product_id: 4, quantity: 0 };
    assert_eq!(
        price_line(&zero, Some(ProductSnapshot { price: 250, stock: 2 })),
        Err(OrderError::InvalidQuantity { product_id: 4, quantity: 0 })
    );
    assert_eq!(
        price_line(&item, Some(ProductSnapshot { price: u64::MAX, stock: 9 })),
        Err(OrderError::AmountTooLarge { product_id: 4 })
    );
}

#[test]
fn settle_totals_and_checks_payment() {
    let lines = vec![
        TransactionItemCalculated { product_id: 1, quantity: 2, price: 1000, subtotal: 2000 },
        TransactionItemCalculated { product_id: 2, quantity: 1, price: 500, subtotal: 500 },
    ];
    assert_eq!(settle(2600, &lines), Ok((2500, 100)));
    assert_eq!(settle(2500, &lines), Ok((2500, 0)));
    assert_eq!(settle(100, &lines), Err(OrderError::Underpaid { paid: 100, total: 2500 }));
    assert_eq!(settle(0, &Vec::new()), Ok((0, 0)));
    let huge = vec![
        TransactionItemCalculated { product_id: 1, quantity: 1, price: u64::MAX, subtotal: u64::MAX },
        TransactionItemCalculated { product_id: 2, quantity: 1, price: 1, subtotal: 1 },
    ];
    assert_eq!(settle(u64::MAX, &huge), Err(OrderError::TotalTooLarge));
}

#[test]
fn reserve_decrements_only_when_stock_covers() {
    assert_eq!(reserve(5, 2), Some(3));
    assert_eq!(reserve(1, 1), Some(0));
    assert_eq!(reserve(1, 2), None);
    // Attempts 3, 4, 2 against stock 6: 3 and 2 are granted, 4 is not.
    let mut stock = 6;
    let mut granted = 0;
    for q in [3u64, 4, 2] {
        if let Some(left) = reserve(stock, q) {
            stock = left;
            granted += q;
        }
    }
    assert_eq!(granted, 5);
    assert_eq!(stock + granted, 6);
}
