//! Domain records: users and roles, products, categories and the closed sets
//! that orders draw from.
use vstd::prelude::*;
use crate::text::{lower_of, lowercase, same_text};

verus! {

/// The two permission levels: `Admin` sees everything, `Kasir` (cashier) only
/// its own sales.
#[derive(Debug, Clone, Copy, PartialEq, Eq, Structural)]
pub enum Role {
    Admin,
    Kasir,
}

impl Role {
    /// The lower-case name under which the role is stored and sent.
    pub open spec fn name(self) -> Seq<char> {
        match self {
            Role::Admin => "admin"@,
            Role::Kasir => "kasir"@,
        }
    }

    /// The role's lower-case name.
    pub fn to_string(&self) -> (r: String)
        ensures
            r@ == self.name(),
    {
        match self {
            Role::Admin => String::from_str("admin"),
            Role::Kasir => String::from_str("kasir"),
        }
    }

    /// Whether this is the elevated role.
    pub fn is_admin(&self) -> (r: bool)
        ensures
            r == (*self == Role::Admin),
    {
        match self {
            Role::Admin => true,
            Role::Kasir => false,
        }
    }
}

/// The role named by a stored role string: `admin` in any letter case is
/// `Admin`; everything else falls back to `Kasir`.
pub open spec fn role_of(s: Seq<char>) -> Role {
    if lower_of(s) == "admin"@ {
        Role::Admin
    } else {
        Role::Kasir
    }
}

/// Reads a stored role name, case-insensitively; unknown names fall back to
/// the restricted role.
pub fn parse_role_str(role_str: &str) -> (r: Role)
    ensures
        r == role_of(role_str@),
{
    let lower = lowercase(role_str);
    if same_text(lower.as_str(), "admin") {
        Role::Admin
    } else {
        Role::Kasir
    }
}

/// How an order was paid.
#[derive(Debug, Clone, Copy, PartialEq, Eq, Structural)]
pub enum PaymentMethod {
    Cash,
    Qris,
    Debit,
    Credit,
}

impl PaymentMethod {
    /// The stored name of the method.
    pub open spec fn name(self) -> Seq<char> {
        match self {
            PaymentMethod::Cash => "cash"@,
            PaymentMethod::Qris => "qris"@,
            PaymentMethod::Debit => "debit"@,
            PaymentMethod::Credit => "credit"@,
        }
    }

    /// The stored name of the method.
    pub fn to_string(&self) -> (r: String)
        ensures
            r@ == self.name(),
    {
        match self {
            PaymentMethod::Cash => String::from_str("cash"),
            PaymentMethod::Qris => String::from_str("qris"),
            PaymentMethod::Debit => String::from_str("debit"),
            PaymentMethod::Credit => String::from_str("credit"),
        }
    }
}

/// The methods an order may be placed with, by exact name: cash, debit or
/// credit.
pub open spec fn accepted_method(s: Seq<char>) -> Option<PaymentMethod> {
    if s == "cash"@ {
        Some(PaymentMethod::Cash)
    } else if s == "debit"@ {
        Some(PaymentMethod::Debit)
    } else if s == "credit"@ {
        Some(PaymentMethod::Credit)
    } else {
        None
    }
}

/// The message with which a payment method outside cash, debit and credit
/// is refused.
pub const PAYMENT_METHOD_MESSAGE: &'static str = "Metode pembayaran harus cash, debit, atau credit";

/// The characters of the refusal message for an unknown payment method.
pub open spec fn payment_method_message() -> Seq<char> {
    "Metode pembayaran harus cash, debit, atau credit"@
}

/// The payment method an order names, if it is one that orders accept;
/// otherwise the message naming the accepted methods.
pub fn validate_payment_method(method: &str) -> (r: Result<PaymentMethod, &'static str>)
    ensures
        match accepted_method(method@) {
            Some(m) => r == Ok::<PaymentMethod, &'static str>(m),
            None => r matches Err(msg) && msg@ == payment_method_message(),
        },
{
    if same_text(method, "cash") {
        Ok(PaymentMethod::Cash)
    } else if same_text(method, "debit") {
        Ok(PaymentMethod::Debit)
    } else if same_text(method, "credit") {
        Ok(PaymentMethod::Credit)
    } else {
        Err(PAYMENT_METHOD_MESSAGE)
    }
}

/// Lifecycle state of a sale.
#[derive(Debug, Clone, Copy, PartialEq, Eq, Structural)]
pub enum Status {
    Paid,
    Cancelled,
}

impl Status {
    /// The stored name of the status.
    pub open spec fn name(self) -> Seq<char> {
        match self {
            Status::Paid => "paid"@,
            Status::Cancelled => "cancelled"@,
        }
    }

    /// The stored name of the status.
    pub fn to_string(&self) -> (r: String)
        ensures
            r@ == self.name(),
    {
        match self {
            Status::Paid => String::from_str("paid"),
            Status::Cancelled => String::from_str("cancelled"),
        }
    }
}

/// The authenticated caller of a request.
#[derive(Debug, Clone, PartialEq, Eq)]
pub struct AuthUser {
    pub user_id: u64,
    pub username: String,
    pub role: Role,
}

/// A user as shown to callers, without the password hash.
#[derive(Debug, Clone, PartialEq, Eq)]
pub struct UsersResponse {
    pub id: u64,
    pub username: String,
    pub role: Role,
}

} // verus!
