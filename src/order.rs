//! Order calculation and stock reservation: pricing line items against a
//! product snapshot, totalling, settling the payment, and the conditional
//! stock decrement that keeps stock from going negative.
use vstd::prelude::*;

verus! {

/// The class of an error, which decides the status reported to the caller.
#[derive(Debug, Clone, Copy, PartialEq, Eq, Structural)]
pub enum ErrorKind {
    InvalidPayload,
    NotFound,
    Conflict,
    Forbidden,
    StorageError,
}

impl ErrorKind {
    /// The HTTP-style status code of the class.
    pub open spec fn code(self) -> u16 {
        match self {
            ErrorKind::InvalidPayload => 400,
            ErrorKind::NotFound => 404,
            ErrorKind::Conflict => 409,
            ErrorKind::Forbidden => 403,
            ErrorKind::StorageError => 500,
        }
    }

    /// The HTTP-style status code of the class.
    pub fn status_code(&self) -> (r: u16)
        ensures
            r == self.code(),
    {
        match self {
            ErrorKind::InvalidPayload => 400,
            ErrorKind::NotFound => 404,
            ErrorKind::Conflict => 409,
            ErrorKind::Forbidden => 403,
            ErrorKind::StorageError => 500,
        }
    }
}

/// Why an order was refused. Every variant carries the figures its message
/// reports.
#[derive(Debug, Clone, Copy, PartialEq, Eq, Structural)]
pub enum OrderError {
    /// The order lists no items.
    EmptyOrder,
    /// The payment method is not one of cash, debit or credit.
    UnknownPaymentMethod,
    /// A line asks for a quantity below one.
    InvalidQuantity { product_id: i64, quantity: i32 },
    /// A line names a product that does not exist.
    ProductNotFound { product_id: i64 },
    /// A line asks for more than the product has in stock.
    InsufficientStock { product_id: i64, requested: i32, available: u64 },
    /// An amount of the order does not fit the currency's range.
    AmountTooLarge { product_id: i64 },
    /// The order's total does not fit the currency's range.
    TotalTooLarge,
    /// The amount paid is below the order's total.
    Underpaid { paid: u64, total: u64 },
    /// The store failed or answered out of turn.
    Storage,
}

impl OrderError {
    /// The class of the error.
    pub open spec fn kind_of(self) -> ErrorKind {
        match self {
            OrderError::EmptyOrder => ErrorKind::InvalidPayload,
            OrderError::UnknownPaymentMethod => ErrorKind::InvalidPayload,
            OrderError::InvalidQuantity { .. } => ErrorKind::InvalidPayload,
            OrderError::ProductNotFound { .. } => ErrorKind::NotFound,
            OrderError::InsufficientStock { .. } => ErrorKind::Conflict,
            OrderError::AmountTooLarge { .. } => ErrorKind::InvalidPayload,
            OrderError::TotalTooLarge => ErrorKind::InvalidPayload,
            OrderError::Underpaid { .. } => ErrorKind::InvalidPayload,
            OrderError::Storage => ErrorKind::StorageError,
        }
    }

    /// The class of the error.
    pub fn kind(&self) -> (r: ErrorKind)
        ensures
            r == self.kind_of(),
    {
        match self {
            OrderError::EmptyOrder => ErrorKind::InvalidPayload,
            OrderError::UnknownPaymentMethod => ErrorKind::InvalidPayload,
            OrderError::InvalidQuantity { .. } => ErrorKind::InvalidPayload,
            OrderError::ProductNotFound { .. } => ErrorKind::NotFound,
            OrderError::InsufficientStock { .. } => ErrorKind::Conflict,
            OrderError::AmountTooLarge { .. } => ErrorKind::InvalidPayload,
            OrderError::TotalTooLarge => ErrorKind::InvalidPayload,
            OrderError::Underpaid { .. } => ErrorKind::InvalidPayload,
            OrderError::Storage => ErrorKind::StorageError,
        }
    }
}

/// One requested line of an order.
#[derive(Debug, Clone, Copy, PartialEq, Eq, Structural)]
pub struct TransactionItemsPayload {
    pub product_id: i64,
    pub quantity: i32,
}

/// Price and stock of a product as read inside the order's unit of work.
#[derive(Debug, Clone, Copy, PartialEq, Eq, Structural)]
pub struct ProductSnapshot {
    pub price: u64,
    pub stock: u64,
}

/// A priced line: the unit price captured at sale time and its subtotal.
#[derive(Debug, Clone, Copy, PartialEq, Eq, Structural)]
pub struct TransactionItemCalculated {
    pub product_id: i64,
    pub quantity: i32,
    pub price: u64,
    pub subtotal: u64,
}

/// The line `item` priced at `price`.
pub open spec fn priced(item: TransactionItemsPayload, price: u64) -> TransactionItemCalculated {
    TransactionItemCalculated {
        product_id: item.product_id,
        quantity: item.quantity,
        price,
        subtotal: (price * item.quantity) as u64,
    }
}

/// What checking one requested line against the product's snapshot gives:
/// the product must exist, the quantity be positive and covered by stock,
/// and the subtotal fit the currency's range.
pub open spec fn line_outcome(item: TransactionItemsPayload, row: Option<ProductSnapshot>) -> Result<
    TransactionItemCalculated,
    OrderError,
> {
    if item.quantity < 1 {
        Err(OrderError::InvalidQuantity { product_id: item.product_id, quantity: item.quantity })
    } else {
        match row {
            None => Err(OrderError::ProductNotFound { product_id: item.product_id }),
            Some(p) => if p.stock < item.quantity {
                Err(
                    OrderError::InsufficientStock {
                        product_id: item.product_id,
                        requested: item.quantity,
                        available: p.stock,
                    },
                )
            } else if p.price * item.quantity > u64::MAX {
                Err(OrderError::AmountTooLarge { product_id: item.product_id })
            } else {
                Ok(priced(item, p.price))
            },
        }
    }
}

/// Prices one requested line against the product's current snapshot
/// (`None` when no such product exists).
pub fn price_line(item: &TransactionItemsPayload, row: Option<ProductSnapshot>) -> (r: Result<
    TransactionItemCalculated,
    OrderError,
>)
    ensures
        r == line_outcome(*item, row),
{
    if item.quantity < 1 {
        return Err(
            OrderError::InvalidQuantity { product_id: item.product_id, quantity: item.quantity },
        );
    }
    match row {
        None => Err(OrderError::ProductNotFound { product_id: item.product_id }),
        Some(p) => {
            let q = item.quantity as u64;
            if p.stock < q {
                Err(
                    OrderError::InsufficientStock {
                        product_id: item.product_id,
                        requested: item.quantity,
                        available: p.stock,
                    },
                )
            } else {
                match p.price.checked_mul(q) {
                    None => Err(OrderError::AmountTooLarge { product_id: item.product_id }),
                    Some(subtotal) => Ok(
                        TransactionItemCalculated {
                            product_id: item.product_id,
                            quantity: item.quantity,
                            price: p.price,
                            subtotal,
                        },
                    ),
                }
            }
        },
    }
}

/// Sum of the subtotals of `lines`.
pub open spec fn total_of(lines: Seq<TransactionItemCalculated>) -> int
    decreases lines.len(),
{
    if lines.len() == 0 {
        0
    } else {
        total_of(lines.drop_last()) + lines.last().subtotal
    }
}

/// The order's total and change for `paid`, or why it cannot be settled.
pub open spec fn settlement(paid: u64, lines: Seq<TransactionItemCalculated>) -> Result<
    (u64, u64),
    OrderError,
> {
    if total_of(lines) > u64::MAX {
        Err(OrderError::TotalTooLarge)
    } else if paid < total_of(lines) {
        Err(OrderError::Underpaid { paid, total: total_of(lines) as u64 })
    } else {
        Ok((total_of(lines) as u64, (paid - total_of(lines)) as u64))
    }
}

proof fn lemma_total_monotone(lines: Seq<TransactionItemCalculated>, j: int)
    requires
        0 <= j <= lines.len(),
    ensures
        total_of(lines.take(j)) <= total_of(lines),
    decreases lines.len(),
{
    if j == lines.len() {
        assert(lines.take(j) =~= lines);
    } else {
        lemma_total_monotone(lines.drop_last(), j);
        assert(lines.drop_last().take(j) =~= lines.take(j));
    }
}

/// Totals the priced lines and checks the payment: the total is the sum of
/// the subtotals, the change is `paid` minus the total, and an amount paid
/// below the total is refused.
pub fn settle(paid: u64, lines: &Vec<TransactionItemCalculated>) -> (r: Result<(u64, u64), OrderError>)
    ensures
        r == settlement(paid, lines@),
{
    let mut total: u64 = 0;
    let mut i: usize = 0;
    while i < lines.len()
        invariant
            i <= lines@.len(),
            total == total_of(lines@.take(i as int)),
        decreases lines@.len() - i,
    {
        assert(lines@.take(i + 1).drop_last() =~= lines@.take(i as int));
        let s = lines[i].subtotal;
        match total.checked_add(s) {
            Some(t) => {
                total = t;
            },
            None => {
                proof {
                    lemma_total_monotone(lines@, i + 1);
                }
                return Err(OrderError::TotalTooLarge);
            },
        }
        i = i + 1;
    }
    assert(lines@.take(lines@.len() as int) =~= lines@);
    if paid < total {
        Err(OrderError::Underpaid { paid, total })
    } else {
        Ok((total, paid - total))
    }
}

/// Stock left after reserving `quantity` out of `stock`: the decrement takes
/// place only where the stock covers it, so stock never goes below zero.
pub open spec fn reserved(stock: u64, quantity: u64) -> Option<u64> {
    if quantity <= stock {
        Some((stock - quantity) as u64)
    } else {
        None
    }
}

/// The conditional decrement of the stock guard: `Some` with the stock left
/// when `stock` covers `quantity`, `None` (and no change) otherwise.
pub fn reserve(stock: u64, quantity: u64) -> (r: Option<u64>)
    ensures
        r == reserved(stock, quantity),
{
    if quantity <= stock {
        Some(stock - quantity)
    } else {
        None
    }
}

/// Stock left, and the sum of the quantities granted, after the attempts
/// `attempts` are served one after another against `stock`.
pub open spec fn serve_attempts(stock: u64, attempts: Seq<u64>) -> (u64, int)
    decreases attempts.len(),
{
    if attempts.len() == 0 {
        (stock, 0)
    } else {
        let (left, granted) = serve_attempts(stock, attempts.drop_last());
        match reserved(left, attempts.last()) {
            Some(after) => (after, granted + attempts.last()),
            None => (left, granted),
        }
    }
}

/// Stock conservation: however the reservation attempts against one product
/// are ordered, what is granted plus what is left equals the starting stock,
/// so the granted quantities never exceed it.
pub proof fn lemma_stock_conservation(stock: u64, attempts: Seq<u64>)
    ensures
        serve_attempts(stock, attempts).1 + serve_attempts(stock, attempts).0 == stock,
        0 <= serve_attempts(stock, attempts).1 <= stock,
    decreases attempts.len(),
{
    if attempts.len() > 0 {
        lemma_stock_conservation(stock, attempts.drop_last());
    }
}

} // verus!
