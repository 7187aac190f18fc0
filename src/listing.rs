//! Listing sales: which sales a caller may see and which match a search, and
//! folding the flat join rows (one per sale and item) back into sales that
//! carry their items, in the order the rows first name them.
use vstd::prelude::*;
use crate::amounts::{amount_or_zero, amount_value, parse_amount};
use crate::models::{parse_role_str, role_of, AuthUser, Role, UsersResponse};
use crate::text::{contains_ignore_case, has_infix, lower_of};

verus! {

/// One row of the listing join: a sale, its cashier, one of its items and
/// that item's product. Amounts arrive as decimal text.
#[derive(Debug, Clone, PartialEq, Eq)]
pub struct TransactionFlatRow {
    pub transaction_id: u64,
    pub invoice_number: String,
    pub total_amount: String,
    pub payment_method: String,
    pub paid_amount: String,
    pub change_amount: String,
    pub status: String,
    pub created_at: String,
    pub cashier_id: u64,
    pub cashier_username: String,
    pub cashier_role: String,
    pub transaction_item_id: u64,
    pub price: String,
    pub quantity: u32,
    pub subtotal: String,
    pub product_id: u64,
    pub product_name: String,
    pub product_price: i32,
}

impl TransactionFlatRow {
    /// The sale's total, if its text is an amount.
    pub fn get_total_amount(&self) -> (r: Option<u64>)
        ensures
            r == amount_value(self.total_amount@),
    {
        parse_amount(self.total_amount.as_str())
    }

    /// The amount paid, if its text is an amount.
    pub fn get_paid_amount(&self) -> (r: Option<u64>)
        ensures
            r == amount_value(self.paid_amount@),
    {
        parse_amount(self.paid_amount.as_str())
    }

    /// The change given, if its text is an amount.
    pub fn get_change_amount(&self) -> (r: Option<u64>)
        ensures
            r == amount_value(self.change_amount@),
    {
        parse_amount(self.change_amount.as_str())
    }

    /// The item's unit price, if its text is an amount.
    pub fn get_price(&self) -> (r: Option<u64>)
        ensures
            r == amount_value(self.price@),
    {
        parse_amount(self.price.as_str())
    }

    /// The item's subtotal, if its text is an amount.
    pub fn get_subtotal(&self) -> (r: Option<u64>)
        ensures
            r == amount_value(self.subtotal@),
    {
        parse_amount(self.subtotal.as_str())
    }
}

/// One item of a listed sale.
#[derive(Debug, Clone, PartialEq, Eq)]
pub struct TransactionItemsJoin {
    pub transaction_id: i64,
    pub product_id: i64,
    pub product_name: String,
    pub quantity: i32,
    pub price: u64,
    pub subtotal: u64,
}

/// A listed sale with its cashier and all of its items.
#[derive(Debug, Clone, PartialEq, Eq)]
pub struct TransactionResponse {
    pub id: u64,
    pub invoice_number: String,
    pub cashier: UsersResponse,
    pub total_amount: u64,
    pub payment_method: String,
    pub paid_amount: u64,
    pub change_amount: u64,
    pub status: String,
    pub created_at: String,
    pub items: Vec<TransactionItemsJoin>,
}

/// The sale ids that `rows` name, each once, in the order they first appear.
pub open spec fn first_seen_ids(rows: Seq<TransactionFlatRow>) -> Seq<u64>
    decreases rows.len(),
{
    if rows.len() == 0 {
        Seq::empty()
    } else {
        let before = first_seen_ids(rows.drop_last());
        if before.contains(rows.last().transaction_id) {
            before
        } else {
            before.push(rows.last().transaction_id)
        }
    }
}

/// Index of the first row of sale `id` (the number of rows when none is).
pub open spec fn first_row_index(rows: Seq<TransactionFlatRow>, id: u64) -> int
    decreases rows.len(),
{
    if rows.len() == 0 {
        0
    } else if rows[0].transaction_id == id {
        0
    } else {
        1 + first_row_index(rows.drop_first(), id)
    }
}

/// The item that a join row carries.
pub open spec fn item_of(row: TransactionFlatRow) -> TransactionItemsJoin {
    TransactionItemsJoin {
        transaction_id: row.transaction_id as i64,
        product_id: row.product_id as i64,
        product_name: row.product_name,
        quantity: row.quantity as i32,
        price: amount_or_zero(row.price@),
        subtotal: amount_or_zero(row.subtotal@),
    }
}

/// The items of sale `id`, in row order.
pub open spec fn items_of(rows: Seq<TransactionFlatRow>, id: u64) -> Seq<TransactionItemsJoin>
    decreases rows.len(),
{
    if rows.len() == 0 {
        Seq::empty()
    } else if rows.last().transaction_id == id {
        items_of(rows.drop_last(), id).push(item_of(rows.last()))
    } else {
        items_of(rows.drop_last(), id)
    }
}

/// `t` is the sale that `row` heads, carrying `items`: amounts that are not
/// readable as amounts count as zero, and the cashier keeps the stored role.
pub open spec fn heads(t: TransactionResponse, row: TransactionFlatRow, items: Seq<TransactionItemsJoin>) -> bool {
    &&& t.id == row.transaction_id
    &&& t.invoice_number == row.invoice_number
    &&& t.cashier == (UsersResponse {
        id: row.cashier_id,
        username: row.cashier_username,
        role: role_of(row.cashier_role@),
    })
    &&& t.total_amount == amount_or_zero(row.total_amount@)
    &&& t.payment_method == row.payment_method
    &&& t.paid_amount == amount_or_zero(row.paid_amount@)
    &&& t.change_amount == amount_or_zero(row.change_amount@)
    &&& t.status == row.status
    &&& t.created_at == row.created_at
    &&& t.items@ == items
}

/// `sales` folds `rows`: one sale per distinct id, in first-seen order, each
/// headed by its first row and carrying all of its items in row order.
pub open spec fn is_grouping(rows: Seq<TransactionFlatRow>, sales: Seq<TransactionResponse>) -> bool {
    &&& sales.len() == first_seen_ids(rows).len()
    &&& forall|k: int|
        0 <= k < sales.len() ==> heads(
            #[trigger] sales[k],
            rows[first_row_index(rows, first_seen_ids(rows)[k])],
            items_of(rows, first_seen_ids(rows)[k]),
        )
}

proof fn lemma_first_seen_ids(rows: Seq<TransactionFlatRow>)
    ensures
        first_seen_ids(rows).no_duplicates(),
        forall|id: u64|
            first_seen_ids(rows).contains(id) <==> exists|j: int|
                0 <= j < rows.len() && #[trigger] rows[j].transaction_id == id,
    decreases rows.len(),
{
    if rows.len() > 0 {
        let init = rows.drop_last();
        let before = first_seen_ids(init);
        let last = rows.last().transaction_id;
        lemma_first_seen_ids(init);
        let ids = first_seen_ids(rows);
        assert(ids.contains(last)) by {
            if !before.contains(last) {
                assert(ids[before.len() as int] == last);
            }
        }
        assert forall|id: u64| before.contains(id) implies ids.contains(id) by {
            let i = choose|i: int| 0 <= i < before.len() && before[i] == id;
            assert(ids[i] == id);
        }
        assert forall|id: u64| ids.contains(id) implies before.contains(id) || id == last by {
            let i = choose|i: int| 0 <= i < ids.len() && ids[i] == id;
            if i < before.len() {
                assert(before[i] == id);
            }
        }
        assert forall|id: u64|
            ids.contains(id) <==> exists|j: int|
                0 <= j < rows.len() && #[trigger] rows[j].transaction_id == id by {
            if exists|j: int| 0 <= j < rows.len() && #[trigger] rows[j].transaction_id == id {
                let j = choose|j: int| 0 <= j < rows.len() && #[trigger] rows[j].transaction_id == id;
                if j < rows.len() - 1 {
                    assert(init[j].transaction_id == id);
                }
            }
            if ids.contains(id) {
                if before.contains(id) {
                    let j = choose|j: int| 0 <= j < init.len() && #[trigger] init[j].transaction_id == id;
                    assert(rows[j].transaction_id == id);
                } else {
                    assert(rows[rows.len() - 1].transaction_id == id);
                }
            }
        }
    }
}

proof fn lemma_first_row_index(rows: Seq<TransactionFlatRow>, id: u64, i: int)
    requires
        0 <= i < rows.len(),
        rows[i].transaction_id == id,
        forall|j: int| 0 <= j < i ==> rows[j].transaction_id != id,
    ensures
        first_row_index(rows, id) == i,
    decreases i,
{
    if i > 0 {
        lemma_first_row_index(rows.drop_first(), id, i - 1);
    }
}

/// Whether `id` is among `ids`.
fn holds_id(ids: &Vec<u64>, id: u64) -> (r: bool)
    ensures
        r == ids@.contains(id),
{
    let mut i: usize = 0;
    while i < ids.len()
        invariant
            i <= ids@.len(),
            forall|j: int| 0 <= j < i ==> ids@[j] != id,
        decreases ids@.len() - i,
    {
        if ids[i] == id {
            return true;
        }
        i = i + 1;
    }
    false
}

/// The sale ids of `rows`, each once, in first-seen order.
fn sale_ids(rows: &Vec<TransactionFlatRow>) -> (r: Vec<u64>)
    ensures
        r@ == first_seen_ids(rows@),
{
    let mut ids: Vec<u64> = Vec::new();
    let mut i: usize = 0;
    while i < rows.len()
        invariant
            i <= rows@.len(),
            ids@ == first_seen_ids(rows@.take(i as int)),
        decreases rows@.len() - i,
    {
        let id = rows[i].transaction_id;
        assert(rows@.take(i + 1).drop_last() =~= rows@.take(i as int));
        if !holds_id(&ids, id) {
            ids.push(id);
        }
        i = i + 1;
    }
    assert(rows@.take(rows@.len() as int) =~= rows@);
    ids
}

/// The index of the first row of sale `id`, which `rows` must name.
fn first_row(rows: &Vec<TransactionFlatRow>, id: u64) -> (r: usize)
    requires
        exists|j: int| 0 <= j < rows@.len() && #[trigger] rows@[j].transaction_id == id,
    ensures
        r == first_row_index(rows@, id),
        r < rows@.len(),
{
    let mut i: usize = 0;
    while i < rows.len()
        invariant
            i <= rows@.len(),
            forall|j: int| 0 <= j < i ==> rows@[j].transaction_id != id,
            exists|j: int| 0 <= j < rows@.len() && #[trigger] rows@[j].transaction_id == id,
        decreases rows@.len() - i,
    {
        if rows[i].transaction_id == id {
            proof {
                lemma_first_row_index(rows@, id, i as int);
            }
            return i;
        }
        i = i + 1;
    }
    assert(false);
    0
}

/// The item a join row carries.
fn row_item(row: &TransactionFlatRow) -> (r: TransactionItemsJoin)
    ensures
        r == item_of(*row),
{
    let price = match row.get_price() {
        Some(v) => v,
        None => 0,
    };
    let subtotal = match row.get_subtotal() {
        Some(v) => v,
        None => 0,
    };
    TransactionItemsJoin {
        transaction_id: row.transaction_id as i64,
        product_id: row.product_id as i64,
        product_name: row.product_name.clone(),
        quantity: row.quantity as i32,
        price,
        subtotal,
    }
}

/// The items of sale `id`, in row order.
fn sale_items(rows: &Vec<TransactionFlatRow>, id: u64) -> (r: Vec<TransactionItemsJoin>)
    ensures
        r@ == items_of(rows@, id),
{
    let mut items: Vec<TransactionItemsJoin> = Vec::new();
    let mut i: usize = 0;
    while i < rows.len()
        invariant
            i <= rows@.len(),
            items@ == items_of(rows@.take(i as int), id),
        decreases rows@.len() - i,
    {
        assert(rows@.take(i + 1).drop_last() =~= rows@.take(i as int));
        if rows[i].transaction_id == id {
            items.push(row_item(&rows[i]));
        }
        i = i + 1;
    }
    assert(rows@.take(rows@.len() as int) =~= rows@);
    items
}

/// The sale that `row` heads, carrying `items`.
fn sale_from(row: &TransactionFlatRow, items: Vec<TransactionItemsJoin>) -> (r: TransactionResponse)
    ensures
        heads(r, *row, items@),
{
    let total_amount = match row.get_total_amount() {
        Some(v) => v,
        None => 0,
    };
    let paid_amount = match row.get_paid_amount() {
        Some(v) => v,
        None => 0,
    };
    let change_amount = match row.get_change_amount() {
        Some(v) => v,
        None => 0,
    };
    TransactionResponse {
        id: row.transaction_id,
        invoice_number: row.invoice_number.clone(),
        cashier: UsersResponse {
            id: row.cashier_id,
            username: row.cashier_username.clone(),
            role: parse_role_str(row.cashier_role.as_str()),
        },
        total_amount,
        payment_method: row.payment_method.clone(),
        paid_amount,
        change_amount,
        status: row.status.clone(),
        created_at: row.created_at.clone(),
        items,
    }
}

/// Folds the flat join rows into sales: one per distinct sale id, in the
/// order the rows first name them, each with all of its items in row order.
/// Amount text that does not read as a whole-unit amount (a non-zero
/// fraction included) counts as zero, so that one unreadable field does not
/// fail the listing; the row getters report such text as `None`.
pub fn group_rows(rows: &Vec<TransactionFlatRow>) -> (r: Vec<TransactionResponse>)
    ensures
        is_grouping(rows@, r@),
{
    let ids = sale_ids(rows);
    proof {
        lemma_first_seen_ids(rows@);
    }
    let mut sales: Vec<TransactionResponse> = Vec::new();
    let mut k: usize = 0;
    while k < ids.len()
        invariant
            ids@ == first_seen_ids(rows@),
            k <= ids@.len(),
            sales@.len() == k,
            forall|id: u64|
                ids@.contains(id) <==> exists|j: int|
                    0 <= j < rows@.len() && #[trigger] rows@[j].transaction_id == id,
            forall|m: int|
                0 <= m < k ==> heads(
                    #[trigger] sales@[m],
                    rows@[first_row_index(rows@, ids@[m])],
                    items_of(rows@, ids@[m]),
                ),
        decreases ids@.len() - k,
    {
        let id = ids[k];
        assert(ids@.contains(id));
        let at = first_row(rows, id);
        let items = sale_items(rows, id);
        sales.push(sale_from(&rows[at], items));
        k = k + 1;
    }
    sales
}

/// Sales listed for `t` and `u` agree: same header fields, same items.
pub open spec fn same_sale(t: TransactionResponse, u: TransactionResponse) -> bool {
    &&& t.id == u.id
    &&& t.invoice_number == u.invoice_number
    &&& t.cashier == u.cashier
    &&& t.total_amount == u.total_amount
    &&& t.payment_method == u.payment_method
    &&& t.paid_amount == u.paid_amount
    &&& t.change_amount == u.change_amount
    &&& t.status == u.status
    &&& t.created_at == u.created_at
    &&& t.items@ == u.items@
}

/// Idempotent read: the same rows always fold into the same sales, so
/// repeating a listing over unchanged data gives the same result.
pub proof fn lemma_grouping_is_determined(
    rows: Seq<TransactionFlatRow>,
    a: Seq<TransactionResponse>,
    b: Seq<TransactionResponse>,
)
    requires
        is_grouping(rows, a),
        is_grouping(rows, b),
    ensures
        a.len() == b.len(),
        forall|k: int| 0 <= k < a.len() ==> same_sale(#[trigger] a[k], b[k]),
{
    assert forall|k: int| 0 <= k < a.len() implies same_sale(#[trigger] a[k], b[k]) by {
        let id = first_seen_ids(rows)[k];
        assert(heads(a[k], rows[first_row_index(rows, id)], items_of(rows, id)));
        assert(heads(b[k], rows[first_row_index(rows, id)], items_of(rows, id)));
    }
}

/// Grouping lists each sale once, and every sale that a row names.
pub proof fn lemma_grouping_lists_each_sale_once(
    rows: Seq<TransactionFlatRow>,
    sales: Seq<TransactionResponse>,
)
    requires
        is_grouping(rows, sales),
    ensures
        forall|k: int, m: int|
            0 <= k < sales.len() && 0 <= m < sales.len() && k != m ==> #[trigger] sales[k].id
                != #[trigger] sales[m].id,
        forall|j: int|
            0 <= j < rows.len() ==> exists|k: int|
                0 <= k < sales.len() && #[trigger] sales[k].id == #[trigger] rows[j].transaction_id,
{
    lemma_first_seen_ids(rows);
    let ids = first_seen_ids(rows);
    assert forall|k: int| 0 <= k < sales.len() implies #[trigger] sales[k].id == ids[k] by {
        assert(heads(sales[k], rows[first_row_index(rows, ids[k])], items_of(rows, ids[k])));
        assert(ids.contains(ids[k]));
        lemma_first_row_lands(rows, ids[k]);
    }
    assert forall|j: int| 0 <= j < rows.len() implies exists|k: int|
        0 <= k < sales.len() && #[trigger] sales[k].id == #[trigger] rows[j].transaction_id by {
        assert(ids.contains(rows[j].transaction_id));
        let k = choose|k: int| 0 <= k < ids.len() && ids[k] == rows[j].transaction_id;
        assert(sales[k].id == ids[k]);
    }
}

proof fn lemma_first_row_lands(rows: Seq<TransactionFlatRow>, id: u64)
    requires
        exists|j: int| 0 <= j < rows.len() && #[trigger] rows[j].transaction_id == id,
    ensures
        0 <= first_row_index(rows, id) < rows.len(),
        rows[first_row_index(rows, id)].transaction_id == id,
    decreases rows.len(),
{
    if rows[0].transaction_id != id {
        let j = choose|j: int| 0 <= j < rows.len() && #[trigger] rows[j].transaction_id == id;
        assert(rows.drop_first()[j - 1].transaction_id == id);
        lemma_first_row_lands(rows.drop_first(), id);
    }
}

/// Which sales a listing covers: a cashier restriction and a search term.
#[derive(Debug, Clone, PartialEq, Eq)]
pub struct ListFilter {
    /// Only sales of this cashier, when set.
    pub cashier_id: Option<u64>,
    /// Only sales whose invoice number, status or payment method contains
    /// this term, ignoring letter case, when set.
    pub search: Option<String>,
}

/// The cashier a caller's listing is restricted to: none for the elevated
/// role, the caller itself for the restricted one.
pub open spec fn scope_of(caller: AuthUser) -> Option<u64> {
    match caller.role {
        Role::Admin => None,
        Role::Kasir => Some(caller.user_id),
    }
}

/// `term` occurs in `field`, ignoring letter case.
pub open spec fn mentions(field: Seq<char>, term: Seq<char>) -> bool {
    has_infix(lower_of(field), lower_of(term))
}

/// The characters of `t` with the LIKE wildcards `%` and `_` and the escape
/// character `\` each preceded by `\`.
pub open spec fn escaped(t: Seq<char>) -> Seq<char>
    decreases t.len(),
{
    if t.len() == 0 {
        Seq::empty()
    } else {
        let c = t.last();
        if c == '\\' || c == '%' || c == '_' {
            escaped(t.drop_last()) + seq!['\\', c]
        } else {
            escaped(t.drop_last()).push(c)
        }
    }
}

impl ListFilter {
    /// The filter for `caller` searching for `search`; an empty term
    /// searches for nothing.
    pub fn for_caller(caller: &AuthUser, search: Option<String>) -> (r: ListFilter)
        ensures
            r.cashier_id == scope_of(*caller),
            match search {
                Some(t) => if t@.len() > 0 {
                    r.search == Some(t)
                } else {
                    r.search is None
                },
                None => r.search is None,
            },
    {
        let cashier_id = match caller.role {
            Role::Admin => None,
            Role::Kasir => Some(caller.user_id),
        };
        let search = match search {
            Some(t) => if t.as_str().is_empty() {
                None
            } else {
                Some(t)
            },
            None => None,
        };
        ListFilter { cashier_id, search }
    }

    /// Whether a sale of `cashier_id` with these invoice number, status and
    /// payment method is covered.
    pub open spec fn covers(
        &self,
        cashier_id: u64,
        invoice_number: Seq<char>,
        status: Seq<char>,
        payment_method: Seq<char>,
    ) -> bool {
        &&& match self.cashier_id {
            Some(c) => cashier_id == c,
            None => true,
        }
        &&& match self.search {
            Some(t) => mentions(invoice_number, t@) || mentions(status, t@) || mentions(
                payment_method,
                t@,
            ),
            None => true,
        }
    }

    /// Whether the sale of `row` is covered.
    pub fn admits(&self, row: &TransactionFlatRow) -> (r: bool)
        ensures
            r == self.covers(
                row.cashier_id,
                row.invoice_number@,
                row.status@,
                row.payment_method@,
            ),
    {
        let in_scope = match self.cashier_id {
            Some(c) => row.cashier_id == c,
            None => true,
        };
        if !in_scope {
            return false;
        }
        match &self.search {
            Some(t) => contains_ignore_case(row.invoice_number.as_str(), t.as_str())
                || contains_ignore_case(row.status.as_str(), t.as_str()) || contains_ignore_case(
                row.payment_method.as_str(),
                t.as_str(),
            ),
            None => true,
        }
    }

    /// The SQL LIKE pattern that matches the search term anywhere, with the
    /// term's own wildcards escaped; `None` when there is no term.
    pub fn like_pattern(&self) -> (r: Option<Vec<char>>)
        ensures
            match self.search {
                Some(t) => r matches Some(p) && p@ == seq!['%'] + escaped(t@) + seq!['%'],
                None => r is None,
            },
    {
        match &self.search {
            None => None,
            Some(t) => {
                let cs = crate::text::chars_of(t.as_str());
                let mut out: Vec<char> = Vec::new();
                out.push('%');
                let mut i: usize = 0;
                while i < cs.len()
                    invariant
                        i <= cs@.len(),
                        out@ == seq!['%'] + escaped(cs@.take(i as int)),
                    decreases cs@.len() - i,
                {
                    let c = cs[i];
                    assert(cs@.take(i + 1).drop_last() =~= cs@.take(i as int));
                    if c == '\\' || c == '%' || c == '_' {
                        out.push('\\');
                    }
                    out.push(c);
                    i = i + 1;
                    assert(out@ =~= seq!['%'] + escaped(cs@.take(i as int)));
                }
                assert(cs@.take(cs@.len() as int) =~= cs@);
                out.push('%');
                Some(out)
            },
        }
    }
}

/// Visibility scoping: under a caller's filter, a restricted caller is
/// shown only its own sales, and an elevated caller's view does not depend
/// on who the cashier was.
pub proof fn lemma_visibility_scoping(
    caller: AuthUser,
    f: ListFilter,
    cashier_id: u64,
    other_cashier_id: u64,
    invoice_number: Seq<char>,
    status: Seq<char>,
    payment_method: Seq<char>,
)
    requires
        f.cashier_id == scope_of(caller),
    ensures
        caller.role == Role::Kasir && f.covers(cashier_id, invoice_number, status, payment_method)
            ==> cashier_id == caller.user_id,
        caller.role == Role::Admin ==> f.covers(cashier_id, invoice_number, status, payment_method)
            == f.covers(other_cashier_id, invoice_number, status, payment_method),
{
}

} // verus!
