//! Invoice numbers: a fixed prefix followed by a random UUID, unique by the
//! randomness of the token alone.
use vstd::prelude::*;
use vstd::string::StringExecFns;

verus! {

/// A lower-case hexadecimal digit.
pub open spec fn is_lower_hex(c: char) -> bool {
    ('0' <= c && c <= '9') || ('a' <= c && c <= 'f')
}

/// `t` is a UUID in hyphenated form: 36 characters, hyphens at positions 8,
/// 13, 18 and 23, lower-case hexadecimal digits elsewhere.
pub open spec fn is_hyphenated_uuid(t: Seq<char>) -> bool {
    &&& t.len() == 36
    &&& forall|i: int|
        0 <= i < 36 ==> if i == 8 || i == 13 || i == 18 || i == 23 {
            #[trigger] t[i] == '-'
        } else {
            is_lower_hex(t[i])
        }
}

/// Relies on `uuid::Uuid::new_v4` for a random version-4 UUID, written by its
/// `Display` impl (lower-case hex) in the 36-character hyphenated form.
#[verifier::external_body]
fn random_uuid() -> (r: String)
    ensures
        is_hyphenated_uuid(r@),
{
    uuid::Uuid::new_v4().to_string()
}

/// The invoice number filed under the random token `token`.
pub open spec fn invoice_for(token: Seq<char>) -> Seq<char> {
    "INV-"@ + token
}

/// The invoice number for `token`: `INV-` followed by the token.
pub fn invoice_number_for(token: &str) -> (r: String)
    ensures
        r@ == invoice_for(token@),
{
    String::from_str("INV-").concat(token)
}

/// A fresh invoice number: `INV-` followed by a random hyphenated UUID.
pub fn new_invoice_number() -> (r: String)
    ensures
        exists|token: Seq<char>| is_hyphenated_uuid(token) && r@ == invoice_for(token),
{
    let token = random_uuid();
    invoice_number_for(token.as_str())
}

} // verus!
