//! Records managed by the back office (products, categories, users) and the
//! rules their payloads must meet before they are stored.
use vstd::prelude::*;
use crate::models::Role;
use crate::text::chars_of;

verus! {

/// A product as stored.
#[derive(Debug, Clone, PartialEq, Eq)]
pub struct Barang {
    pub id: u64,
    pub nama: String,
    pub harga: u64,
    pub stok: u32,
    pub category_id: u64,
}

/// A product as listed, with its category's title.
#[derive(Debug, Clone, PartialEq, Eq)]
pub struct BarangResponse {
    pub id: u64,
    pub nama: String,
    pub harga: u64,
    pub stok: u32,
    pub category_id: u64,
    pub category_title: String,
}

/// A product to create or update.
#[derive(Debug, Clone, PartialEq, Eq)]
pub struct BarangPayload {
    pub nama: String,
    pub harga: u64,
    pub stok: u32,
    pub category_id: u64,
}

/// A category as stored.
#[derive(Debug, Clone, PartialEq, Eq)]
pub struct Category {
    pub id: u64,
    pub title: String,
}

/// A category as listed.
#[derive(Debug, Clone, PartialEq, Eq)]
pub struct CategoryResponse {
    pub id: u64,
    pub title: String,
}

/// A category to create or update.
#[derive(Debug, Clone, PartialEq, Eq)]
pub struct CategoryPayload {
    pub title: String,
}

/// A user as stored, with the password hash.
#[derive(Debug, Clone, PartialEq, Eq)]
pub struct User {
    pub id: u64,
    pub username: String,
    pub password: String,
    pub role: Role,
}

/// A user to create.
#[derive(Debug, Clone, PartialEq, Eq)]
pub struct UserPayload {
    pub username: String,
    pub password: String,
    pub role: Role,
}

/// A user to update; the password stays as it is when none is given.
#[derive(Debug, Clone, PartialEq, Eq)]
pub struct UserUpdatePayload {
    pub username: String,
    pub password: Option<String>,
    pub role: Role,
}

/// A search by name.
#[derive(Debug, Clone, PartialEq, Eq)]
pub struct SearchQuery {
    pub name: String,
}

/// Credentials offered at login.
#[derive(Debug, Clone, PartialEq, Eq)]
pub struct LoginPayload {
    pub username: String,
    pub password: String,
}

/// Why a category request failed.
#[derive(Debug, Clone, Copy, PartialEq, Eq)]
pub enum CategoryError {
    DatabaseError(&'static str),
    NotFound(&'static str),
    InvalidPayload(&'static str),
}

impl CategoryError {
    /// The HTTP status code of the error: 500, 404 or 400.
    pub fn status_code(&self) -> (r: u16)
        ensures
            r == (match self {
                CategoryError::DatabaseError(_) => 500u16,
                CategoryError::NotFound(_) => 404u16,
                CategoryError::InvalidPayload(_) => 400u16,
            }),
    {
        match self {
            CategoryError::DatabaseError(_) => 500,
            CategoryError::NotFound(_) => 404,
            CategoryError::InvalidPayload(_) => 400,
        }
    }
}

/// Number of characters of `s`, counted as `usize`.
fn char_count(s: &str) -> (r: usize)
    ensures
        r == s@.len(),
{
    chars_of(s).len()
}

/// A product name has 3 to 100 characters.
pub open spec fn product_name_ok(s: Seq<char>) -> bool {
    3 <= s.len() <= 100
}

/// A category title has 3 to 50 characters.
pub open spec fn category_title_ok(s: Seq<char>) -> bool {
    3 <= s.len() <= 50
}

/// A username has 3 to 50 characters.
pub open spec fn username_ok(s: Seq<char>) -> bool {
    3 <= s.len() <= 50
}

/// A password has at least 6 characters.
pub open spec fn password_ok(s: Seq<char>) -> bool {
    s.len() >= 6
}

impl BarangPayload {
    /// Checks the payload: a name of 3 to 100 characters and a price, stock
    /// and category id of at least one; the message names the first failure.
    pub fn validate(&self) -> (r: Result<(), &'static str>)
        ensures
            r is Ok <==> product_name_ok(self.nama@) && self.harga >= 1 && self.stok >= 1
                && self.category_id >= 1,
    {
        let n = char_count(self.nama.as_str());
        if n < 3 || n > 100 {
            Err("Nama harus antara 3-100 karakter")
        } else if self.harga < 1 {
            Err("Harga harus lebih dari 0")
        } else if self.stok < 1 {
            Err("Stok harus lebih dari 0")
        } else if self.category_id < 1 {
            Err("Category ID harus lebih dari 0")
        } else {
            Ok(())
        }
    }
}

impl CategoryPayload {
    /// Checks the payload: a title of 3 to 50 characters.
    pub fn validate(&self) -> (r: Result<(), &'static str>)
        ensures
            r is Ok <==> category_title_ok(self.title@),
    {
        let n = char_count(self.title.as_str());
        if n < 3 || n > 50 {
            Err("Title harus antara 3-50 karakter")
        } else {
            Ok(())
        }
    }
}

impl UserPayload {
    /// Checks the payload: a username of 3 to 50 characters and a password
    /// of at least 6.
    pub fn validate(&self) -> (r: Result<(), &'static str>)
        ensures
            r is Ok <==> username_ok(self.username@) && password_ok(self.password@),
    {
        let n = char_count(self.username.as_str());
        if n < 3 || n > 50 {
            Err("Username harus antara 3-50 karakter")
        } else if char_count(self.password.as_str()) < 6 {
            Err("Password harus minimal 6 karakter")
        } else {
            Ok(())
        }
    }
}

impl UserUpdatePayload {
    /// Checks the payload: a username of 3 to 50 characters and, when a new
    /// password is given, one of at least 6.
    pub fn validate(&self) -> (r: Result<(), &'static str>)
        ensures
            r is Ok <==> username_ok(self.username@) && match self.password {
                Some(p) => password_ok(p@),
                None => true,
            },
    {
        let n = char_count(self.username.as_str());
        if n < 3 || n > 50 {
            return Err("Username harus antara 3-50 karakter");
        }
        match &self.password {
            Some(p) => if char_count(p.as_str()) < 6 {
                Err("Password harus minimal 6 karakter")
            } else {
                Ok(())
            },
            None => Ok(()),
        }
    }
}

} // verus!
