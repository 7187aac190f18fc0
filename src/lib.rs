//! Point-of-sale core: order placement, stock reservation and role-scoped
//! transaction listing, with the supporting identity and pagination rules.

pub mod amounts;
pub mod auth;
pub mod catalog;
pub mod invoice;
pub mod listing;
pub mod models;
pub mod order;
pub mod pagination;
pub mod session;
pub mod text;
