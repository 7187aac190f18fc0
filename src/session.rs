//! Placing an order as one unit of work. The session decides; whoever holds
//! the store performs each step it asks for and reports the outcome back.
//! Any failure turns the session into a rollback, so a failed order leaves
//! no header, no item and no stock decrement behind.
use vstd::prelude::*;
use crate::models::{accepted_method, validate_payment_method, PaymentMethod, Status};
use crate::order::{
    line_outcome, price_line, priced, total_of, OrderError, ProductSnapshot,
    TransactionItemCalculated, TransactionItemsPayload,
};

verus! {

/// Where a session stands.
#[derive(Debug, Clone, Copy, PartialEq, Eq, Structural)]
pub enum Stage {
    /// The next line's product must be read.
    Lookup,
    /// The next line is priced; its stock must be reserved.
    Reserve { line: TransactionItemCalculated, available: u64 },
    /// Every line is reserved and the payment covers the total.
    Header,
    /// The header is stored; `written` item rows are stored so far.
    ItemRows { transaction_id: u64, written: usize },
    /// The unit of work is committed.
    Committed { transaction_id: u64 },
    /// The order failed; the unit of work must be discarded.
    Failed { error: OrderError },
}

/// What the store reports after performing a step.
#[derive(Debug, Clone, Copy, PartialEq, Eq, Structural)]
pub enum StoreEvent {
    /// Price and stock of the product asked for, `None` if it does not exist.
    ProductRow { row: Option<ProductSnapshot> },
    /// Rows changed by the conditional decrement.
    Reserved { affected_rows: u64 },
    /// The header was stored under this id.
    HeaderStored { transaction_id: u64 },
    /// One item row was stored.
    ItemStored,
    /// The unit of work was committed.
    Committed,
    /// The store failed to perform the step.
    StoreFailed,
}

/// The step the store is asked to perform next.
#[derive(Debug, Clone, Copy, PartialEq, Eq, Structural)]
pub enum OrderStep {
    /// Read price and stock of the product.
    ReadProduct { product_id: i64 },
    /// Decrement the product's stock by `quantity` where stock covers it.
    Reserve { product_id: i64, quantity: i32 },
    /// Store the header that `OrderSession::header` describes.
    InsertHeader,
    /// Store one item row under the header.
    InsertItem { transaction_id: u64, item: TransactionItemCalculated },
    /// Commit the unit of work.
    Commit,
    /// The order is placed.
    Finish { transaction_id: u64 },
    /// Discard the unit of work and report the error.
    Rollback { error: OrderError },
}

/// The header row of a placed order.
#[derive(Debug, Clone, PartialEq, Eq)]
pub struct OrderHeader {
    pub invoice_number: String,
    pub cashier_id: u64,
    pub total_amount: u64,
    pub payment_method: PaymentMethod,
    pub paid_amount: u64,
    pub change_amount: u64,
    pub status: Status,
}

/// A committed order: its id, header and priced items.
#[derive(Debug, Clone, PartialEq, Eq)]
pub struct OrderReceipt {
    pub transaction_id: u64,
    pub header: OrderHeader,
    pub items: Vec<TransactionItemCalculated>,
}

/// One order in progress.
#[derive(Debug)]
pub struct OrderSession {
    pub cashier_id: u64,
    pub payment_method: PaymentMethod,
    pub paid_amount: u64,
    pub invoice_number: String,
    /// The requested lines, in input order.
    pub items: Vec<TransactionItemsPayload>,
    /// The lines reserved so far, priced, in input order.
    pub lines: Vec<TransactionItemCalculated>,
    /// Sum of the subtotals of `lines`.
    pub total: u64,
    pub stage: Stage,
}

/// Every reserved line is the requested line of the same position, priced.
pub open spec fn lines_match(
    items: Seq<TransactionItemsPayload>,
    lines: Seq<TransactionItemCalculated>,
) -> bool {
    &&& lines.len() <= items.len()
    &&& forall|i: int|
        0 <= i < lines.len() ==> #[trigger] lines[i] == priced(items[i], lines[i].price)
            && lines[i].quantity >= 1 && lines[i].price * lines[i].quantity <= u64::MAX
}

impl OrderSession {
    /// The session's own consistency: reserved lines match the request, the
    /// running total is their sum, and past the lines every line is reserved
    /// and paid for.
    pub open spec fn wf(&self) -> bool {
        &&& self.items@.len() > 0
        &&& lines_match(self.items@, self.lines@)
        &&& self.total == total_of(self.lines@)
        &&& match self.stage {
            Stage::Lookup => self.lines@.len() < self.items@.len(),
            Stage::Reserve { line, available } => {
                &&& self.lines@.len() < self.items@.len()
                &&& line == priced(self.items@[self.lines@.len() as int], line.price)
                &&& line.quantity >= 1
                &&& line.price * line.quantity <= u64::MAX
                &&& self.total + line.subtotal <= u64::MAX
            },
            Stage::Header => self.all_reserved(),
            Stage::ItemRows { written, .. } => self.all_reserved() && written <= self.lines@.len(),
            Stage::Committed { .. } => self.all_reserved(),
            Stage::Failed { .. } => true,
        }
    }

    /// Every line is reserved and the payment covers the total.
    pub open spec fn all_reserved(&self) -> bool {
        self.lines@.len() == self.items@.len() && self.total <= self.paid_amount
    }

    /// The stage after `ev` arrives.
    pub open spec fn next_stage(&self, ev: StoreEvent) -> Stage {
        match self.stage {
            Stage::Failed { .. } => self.stage,
            Stage::Committed { .. } => self.stage,
            _ => match ev {
                StoreEvent::StoreFailed => Stage::Failed { error: OrderError::Storage },
                _ => self.advance(ev),
            },
        }
    }

    /// The stage after `ev` arrives at an open session whose store did not fail.
    pub open spec fn advance(&self, ev: StoreEvent) -> Stage {
        let n = self.lines@.len();
        match (self.stage, ev) {
            (Stage::Lookup, StoreEvent::ProductRow { row }) => match line_outcome(
                self.items@[n as int],
                row,
            ) {
                Err(e) => Stage::Failed { error: e },
                Ok(line) => if self.total + line.subtotal > u64::MAX {
                    Stage::Failed { error: OrderError::TotalTooLarge }
                } else {
                    Stage::Reserve { line, available: row->Some_0.stock }
                },
            },
            (Stage::Reserve { line, available }, StoreEvent::Reserved { affected_rows }) => {
                if affected_rows == 0 {
                    Stage::Failed {
                        error: OrderError::InsufficientStock {
                            product_id: line.product_id,
                            requested: line.quantity,
                            available,
                        },
                    }
                } else if n + 1 < self.items@.len() {
                    Stage::Lookup
                } else if self.paid_amount < self.total + line.subtotal {
                    Stage::Failed {
                        error: OrderError::Underpaid {
                            paid: self.paid_amount,
                            total: (self.total + line.subtotal) as u64,
                        },
                    }
                } else {
                    Stage::Header
                }
            },
            (Stage::Header, StoreEvent::HeaderStored { transaction_id }) => Stage::ItemRows {
                transaction_id,
                written: 0,
            },
            (Stage::ItemRows { transaction_id, written }, StoreEvent::ItemStored) => {
                if written < n {
                    Stage::ItemRows { transaction_id, written: (written + 1) as usize }
                } else {
                    Stage::Failed { error: OrderError::Storage }
                }
            },
            (Stage::ItemRows { transaction_id, written }, StoreEvent::Committed) => {
                if written == n {
                    Stage::Committed { transaction_id }
                } else {
                    Stage::Failed { error: OrderError::Storage }
                }
            },
            _ => Stage::Failed { error: OrderError::Storage },
        }
    }

    /// Whether `ev` completes the reservation the session waits for.
    pub open spec fn accepts_reservation(&self, ev: StoreEvent) -> bool {
        &&& self.stage is Reserve
        &&& (ev matches StoreEvent::Reserved { affected_rows } && affected_rows > 0)
    }

    /// The reserved lines after `ev` arrives.
    pub open spec fn next_lines(&self, ev: StoreEvent) -> Seq<TransactionItemCalculated> {
        if self.accepts_reservation(ev) {
            self.lines@.push(self.stage->line)
        } else {
            self.lines@
        }
    }

    /// The step the session asks for.
    pub open spec fn step_of(&self) -> OrderStep {
        match self.stage {
            Stage::Lookup => OrderStep::ReadProduct {
                product_id: self.items@[self.lines@.len() as int].product_id,
            },
            Stage::Reserve { line, .. } => OrderStep::Reserve {
                product_id: line.product_id,
                quantity: line.quantity,
            },
            Stage::Header => OrderStep::InsertHeader,
            Stage::ItemRows { transaction_id, written } => if written < self.lines@.len() {
                OrderStep::InsertItem { transaction_id, item: self.lines@[written as int] }
            } else {
                OrderStep::Commit
            },
            Stage::Committed { transaction_id } => OrderStep::Finish { transaction_id },
            Stage::Failed { error } => OrderStep::Rollback { error },
        }
    }
}

/// Why an order cannot be opened: an unknown payment method, or no items.
pub open spec fn opening_error(method: Seq<char>, item_count: nat) -> Option<OrderError> {
    if accepted_method(method) is None {
        Some(OrderError::UnknownPaymentMethod)
    } else if item_count == 0 {
        Some(OrderError::EmptyOrder)
    } else {
        None
    }
}

impl OrderSession {
    /// Opens an order for `cashier_id`, paying `paid_amount` with `payment_method`
    /// for `items`, to be filed under `invoice_number`.
    pub fn start(
        cashier_id: u64,
        payment_method: &str,
        paid_amount: u64,
        items: Vec<TransactionItemsPayload>,
        invoice_number: String,
    ) -> (r: Result<OrderSession, OrderError>)
        ensures
            opening_error(payment_method@, items@.len()) matches Some(e) ==> r == Err::<
                OrderSession,
                OrderError,
            >(e),
            opening_error(payment_method@, items@.len()) is None ==> (r matches Ok(s) && {
                &&& s.wf()
                &&& s.stage == Stage::Lookup
                &&& s.cashier_id == cashier_id
                &&& Some(s.payment_method) == accepted_method(payment_method@)
                &&& s.paid_amount == paid_amount
                &&& s.invoice_number@ == invoice_number@
                &&& s.items@ == items@
                &&& s.lines@.len() == 0
            }),
    {
        let method = match validate_payment_method(payment_method) {
            Ok(m) => m,
            Err(_) => {
                return Err(OrderError::UnknownPaymentMethod);
            },
        };
        if items.len() == 0 {
            return Err(OrderError::EmptyOrder);
        }
        let s = OrderSession {
            cashier_id,
            payment_method: method,
            paid_amount,
            invoice_number,
            items,
            lines: Vec::new(),
            total: 0,
            stage: Stage::Lookup,
        };
        assert(s.lines@.len() == 0);
        Ok(s)
    }

    /// The step the store should perform next.
    pub fn next_step(&self) -> (r: OrderStep)
        requires
            self.wf(),
        ensures
            r == self.step_of(),
    {
        match self.stage {
            Stage::Lookup => OrderStep::ReadProduct {
                product_id: self.items[self.lines.len()].product_id,
            },
            Stage::Reserve { line, .. } => OrderStep::Reserve {
                product_id: line.product_id,
                quantity: line.quantity,
            },
            Stage::Header => OrderStep::InsertHeader,
            Stage::ItemRows { transaction_id, written } => if written < self.lines.len() {
                OrderStep::InsertItem { transaction_id, item: self.lines[written] }
            } else {
                OrderStep::Commit
            },
            Stage::Committed { transaction_id } => OrderStep::Finish { transaction_id },
            Stage::Failed { error } => OrderStep::Rollback { error },
        }
    }

    /// Takes in what the store reported for the last step.
    pub fn apply(&mut self, ev: StoreEvent)
        requires
            old(self).wf(),
        ensures
            final(self).wf(),
            final(self).stage == old(self).next_stage(ev),
            final(self).lines@ == old(self).next_lines(ev),
            final(self).items@ == old(self).items@,
            final(self).cashier_id == old(self).cashier_id,
            final(self).payment_method == old(self).payment_method,
            final(self).paid_amount == old(self).paid_amount,
            final(self).invoice_number@ == old(self).invoice_number@,
    {
        match self.stage {
            Stage::Failed { .. } => {
                return ;
            },
            Stage::Committed { .. } => {
                return ;
            },
            _ => {},
        }
        if let StoreEvent::StoreFailed = ev {
            self.stage = Stage::Failed { error: OrderError::Storage };
            return ;
        }
        let n = self.lines.len();
        match (self.stage, ev) {
            (Stage::Lookup, StoreEvent::ProductRow { row }) => {
                match price_line(&self.items[n], row) {
                    Err(e) => {
                        self.stage = Stage::Failed { error: e };
                    },
                    Ok(line) => {
                        match self.total.checked_add(line.subtotal) {
                            None => {
                                self.stage = Stage::Failed { error: OrderError::TotalTooLarge };
                            },
                            Some(_) => {
                                let available = match row {
                                    Some(p) => p.stock,
                                    None => 0,
                                };
                                self.stage = Stage::Reserve { line, available };
                            },
                        }
                    },
                }
            },
            (Stage::Reserve { line, available }, StoreEvent::Reserved { affected_rows }) => {
                if affected_rows == 0 {
                    self.stage = Stage::Failed {
                        error: OrderError::InsufficientStock {
                            product_id: line.product_id,
                            requested: line.quantity,
                            available,
                        },
                    };
                } else {
                    let ghost before = self.lines@;
                    self.lines.push(line);
                    self.total = self.total + line.subtotal;
                    assert(self.lines@.drop_last() =~= before);
                    if self.lines.len() < self.items.len() {
                        self.stage = Stage::Lookup;
                    } else if self.paid_amount < self.total {
                        self.stage = Stage::Failed {
                            error: OrderError::Underpaid { paid: self.paid_amount, total: self.total },
                        };
                    } else {
                        self.stage = Stage::Header;
                    }
                }
            },
            (Stage::Header, StoreEvent::HeaderStored { transaction_id }) => {
                self.stage = Stage::ItemRows { transaction_id, written: 0 };
            },
            (Stage::ItemRows { transaction_id, written }, StoreEvent::ItemStored) => {
                if written < n {
                    self.stage = Stage::ItemRows { transaction_id, written: written + 1 };
                } else {
                    self.stage = Stage::Failed { error: OrderError::Storage };
                }
            },
            (Stage::ItemRows { transaction_id, written }, StoreEvent::Committed) => {
                if written == n {
                    self.stage = Stage::Committed { transaction_id };
                } else {
                    self.stage = Stage::Failed { error: OrderError::Storage };
                }
            },
            _ => {
                self.stage = Stage::Failed { error: OrderError::Storage };
            },
        }
    }
}

/// Copies priced lines.
fn copy_lines(lines: &Vec<TransactionItemCalculated>) -> (r: Vec<TransactionItemCalculated>)
    ensures
        r@ == lines@,
{
    let mut out: Vec<TransactionItemCalculated> = Vec::new();
    let mut i: usize = 0;
    while i < lines.len()
        invariant
            i <= lines@.len(),
            out@ == lines@.take(i as int),
        decreases lines@.len() - i,
    {
        out.push(lines[i]);
        i = i + 1;
        assert(out@ =~= lines@.take(i as int));
    }
    assert(lines@.take(lines@.len() as int) =~= lines@);
    out
}

impl OrderSession {
    /// `h` is the header this session files: its invoice, cashier, method and
    /// payment, the total of its lines, and the change.
    pub open spec fn files_header(&self, h: OrderHeader) -> bool {
        &&& h.invoice_number@ == self.invoice_number@
        &&& h.cashier_id == self.cashier_id
        &&& h.total_amount == self.total
        &&& h.payment_method == self.payment_method
        &&& h.paid_amount == self.paid_amount
        &&& h.change_amount == self.paid_amount - self.total
        &&& h.status == Status::Paid
    }

    /// The header to store, once every line is reserved and paid for.
    pub fn header(&self) -> (r: OrderHeader)
        requires
            self.wf(),
            self.all_reserved(),
        ensures
            self.files_header(r),
    {
        OrderHeader {
            invoice_number: self.invoice_number.clone(),
            cashier_id: self.cashier_id,
            total_amount: self.total,
            payment_method: self.payment_method,
            paid_amount: self.paid_amount,
            change_amount: self.paid_amount - self.total,
            status: Status::Paid,
        }
    }

    /// The committed order, or `None` while it is not committed.
    pub fn receipt(&self) -> (r: Option<OrderReceipt>)
        requires
            self.wf(),
        ensures
            r is Some <==> self.stage is Committed,
            r matches Some(rc) ==> {
                &&& rc.transaction_id == self.stage->Committed_transaction_id
                &&& self.files_header(rc.header)
                &&& rc.items@ == self.lines@
            },
    {
        match self.stage {
            Stage::Committed { transaction_id } => Some(
                OrderReceipt {
                    transaction_id,
                    header: self.header(),
                    items: copy_lines(&self.lines),
                },
            ),
            _ => None,
        }
    }
}

/// Atomicity, once failed: a failed session ignores whatever the store
/// reports and asks for nothing but discarding the unit of work.
pub proof fn lemma_failed_order_rolls_back(s: OrderSession, ev: StoreEvent)
    requires
        s.wf(),
        s.stage is Failed,
    ensures
        s.next_stage(ev) == s.stage,
        s.next_lines(ev) == s.lines@,
        s.step_of() == (OrderStep::Rollback { error: s.stage->error }),
{
}

/// Atomicity, at the failing line: an unknown product, a quantity below one
/// or stock short of the quantity at the read fails the order, and so do a
/// conditional decrement that changed no row and, after the last line, an
/// amount paid below the total.
pub proof fn lemma_failed_line_fails_order(s: OrderSession, ev: StoreEvent)
    requires
        s.wf(),
        match (s.stage, ev) {
            (Stage::Lookup, StoreEvent::ProductRow { row }) => line_outcome(
                s.items@[s.lines@.len() as int],
                row,
            ) is Err,
            (Stage::Reserve { line, .. }, StoreEvent::Reserved { affected_rows }) => affected_rows
                == 0 || (s.lines@.len() + 1 == s.items@.len() && s.paid_amount < s.total
                + line.subtotal),
            _ => false,
        },
    ensures
        s.next_stage(ev) is Failed,
{
}

/// Atomicity, before any write: the session asks to store the header, an
/// item or to commit only when every requested line was reserved, priced
/// as requested, and the payment covers the total.
pub proof fn lemma_writes_follow_full_reservation(s: OrderSession)
    requires
        s.wf(),
        s.step_of() is InsertHeader || s.step_of() is InsertItem || s.step_of() is Commit
            || s.step_of() is Finish,
    ensures
        s.lines@.len() == s.items@.len(),
        s.total <= s.paid_amount,
        forall|i: int|
            0 <= i < s.lines@.len() ==> #[trigger] s.lines@[i] == priced(
                s.items@[i],
                s.lines@[i].price,
            ),
{
}

/// Financial identity of a committed order: the total is the sum of the
/// item subtotals, each subtotal is price times quantity, and the change is
/// the amount paid less the total.
pub proof fn lemma_committed_order_balances(s: OrderSession, h: OrderHeader)
    requires
        s.wf(),
        s.stage is Committed,
        s.files_header(h),
    ensures
        h.total_amount == total_of(s.lines@),
        h.change_amount == h.paid_amount - h.total_amount,
        h.paid_amount >= h.total_amount,
        forall|i: int|
            0 <= i < s.lines@.len() ==> #[trigger] s.lines@[i].subtotal == s.lines@[i].price
                * s.lines@[i].quantity,
{
    assert forall|i: int| 0 <= i < s.lines@.len() implies #[trigger] s.lines@[i].subtotal
        == s.lines@[i].price * s.lines@[i].quantity by {
        assert(s.lines@[i] == priced(s.items@[i], s.lines@[i].price));
    }
}

} // verus!
