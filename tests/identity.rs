use argon2::password_hash::{PasswordHasher, SaltString};
use kasir_pos::auth::{admin_check, bearer_token, verify_password, Claims, UserError};
use kasir_pos::catalog::{BarangPayload, CategoryError, CategoryPayload, UserPayload, UserUpdatePayload};
use kasir_pos::invoice::{invoice_number_for, new_invoice_number};
use kasir_pos::models::{parse_role_str, validate_payment_method, AuthUser, PaymentMethod, Role};
use kasir_pos::text::{contains_ignore_case, same_text};

fn token(header: &str) -> Option<String> {
    bearer_token(header).map(|t| t.into_iter().collect())
}

#[test]
fn bearer_token_strips_the_scheme() {
    assert_eq!(token("Bearer abc.def"), Some("abc.def".to_string()));
    assert_eq!(token("Bearer Bearer xyz"), Some("xyz".to_string()));
    assert_eq!(token("Bearer "), Some(String::new()));
    assert_eq!(token("bearer abc"), None);
    assert_eq!(token("Basic abc"), None);
    assert_eq!(token("Bear"), None);
}

#[test]
fn roles_parse_case_insensitively() {
    assert_eq!(parse_role_str("admin"), Role::Admin);
    assert_eq!(parse_role_str("ADMIN"), Role::Admin);
    assert_eq!(parse_role_str("Kasir"), Role::Kasir);
    assert_eq!(parse_role_str("manager"), Role::Kasir);
    assert_eq!(Role::Admin.to_string(), "admin");
    assert_eq!(Role::Kasir.to_string(), "kasir");
}

#[test]
fn payment_methods_are_a_closed_set() {
    assert_eq!(validate_payment_method("cash"), Ok(PaymentMethod::Cash));
    assert_eq!(validate_payment_method("debit"), Ok(PaymentMethod::Debit));
    assert_eq!(validate_payment_method("credit"), Ok(PaymentMethod::Credit));
    let refused = Err("Metode pembayaran harus cash, debit, atau credit");
    assert_eq!(validate_payment_method("qris"), refused);
    assert_eq!(validate_payment_method("CASH"), refused);
    assert_eq!(validate_payment_method(""), refused);
    assert_eq!(PaymentMethod::Credit.to_string(), "credit");
}

#[test]
fn admin_gate() {
    let admin = AuthUser { user_id: 1, username: "a".to_string(), role: Role::Admin };
    let kasir = AuthUser { user_id: 2, username: "k".to_string(), role: Role::Kasir };
    assert_eq!(admin_check(&admin), Ok(()));
    let e = admin_check(&kasir).unwrap_err();
    assert_eq!(e, UserError::Forbidden("Anda bukan admin"));
    assert_eq!(e.status_code(), 403);
    assert_eq!(UserError::DatabaseError("x").status_code(), 500);
}

#[test]
fn passwords_check_against_argon2_hashes() {
    let salt = SaltString::from_b64("c29tZXNhbHRzb21lc2FsdA").unwrap();
    let hash = argon2::Argon2::default()
        .hash_password(b"rahasia123", &salt)
        .unwrap()
        .to_string();
    assert_eq!(verify_password("rahasia123", &hash).unwrap(), true);
    assert_eq!(verify_password("salah", &hash).unwrap(), false);
    assert!(verify_password("rahasia123", "").is_err());
    assert!(verify_password("rahasia123", "not-a-phc-string").is_err());
}

#[test]
fn claims_expire_after_one_day() {
    let c = Claims::new(5, "budi".to_string(), Role::Kasir, 1_700_000_000).unwrap();
    assert_eq!(c.exp, 1_700_086_400);
    assert_eq!(c.sub, "budi");
    let who = c.caller();
    assert_eq!(who.user_id, 5);
    assert_eq!(who.role, Role::Kasir);
    assert!(Claims::new(5, "budi".to_string(), Role::Kasir, u64::MAX).is_none());
}

#[test]
fn invoice_numbers() {
    assert_eq!(invoice_number_for("abc"), "INV-abc");
    let a = new_invoice_number();
    let b = new_invoice_number();
    assert!(a.starts_with("INV-"));
    assert_eq!(a.len(), 40);
    for (i, c) in a[4..].chars().enumerate() {
        if [8, 13, 18, 23].contains(&i) {
            assert_eq!(c, '-');
        } else {
            assert!(c.is_ascii_digit() || ('a'..='f').contains(&c));
        }
    }
    assert_ne!(a, b);
}

#[test]
fn text_helpers() {
    assert!(same_text("kasir", "kasir"));
    assert!(!same_text("kasir", "Kasir"));
    assert!(contains_ignore_case("INV-ABC", "inv-"));
    assert!(contains_ignore_case("anything", ""));
    assert!(!contains_ignore_case("ab", "abc"));
}

#[test]
fn payload_rules() {
    let ok = BarangPayload { nama: "Kopi".to_string(), harga: 1, stok: 1, category_id: 1 };
    assert!(ok.validate().is_ok());
    let short = BarangPayload { nama: "Ko".to_string(), ..ok.clone() };
    assert!(short.validate().is_err());
    let free = BarangPayload { harga: 0, ..ok.clone() };
    assert!(free.validate().is_err());
    assert!(CategoryPayload { title: "Minuman".to_string() }.validate().is_ok());
    assert!(CategoryPayload { title: "x".repeat(51) }.validate().is_err());
    let user = UserPayload { username: "budi".to_string(), password: "123456".to_string(), role: Role::Kasir };
    assert!(user.validate().is_ok());
    assert!(UserPayload { password: "12345".to_string(), ..user }.validate().is_err());
    let upd = UserUpdatePayload { username: "budi".to_string(), password: None, role: Role::Admin };
    assert!(upd.validate().is_ok());
    assert!(UserUpdatePayload { password: Some("1".to_string()), ..upd }.validate().is_err());
    assert_eq!(CategoryError::NotFound("x").status_code(), 404);
    assert_eq!(CategoryError::InvalidPayload("x").status_code(), 400);
    assert_eq!(CategoryError::DatabaseError("x").status_code(), 500);
}
