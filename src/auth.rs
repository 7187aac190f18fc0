//! Identity at the edge of a request: the bearer token of an Authorization
//! header, the claims a session token carries, the admin gate, and checking a
//! password against its stored Argon2 hash.
use vstd::prelude::*;
use crate::models::{AuthUser, Role};
use crate::text::chars_of;

verus! {

#[verifier::external_type_specification]
#[verifier::external_body]
pub struct ExPasswordHashError(password_hash::Error);

/// Whether `phc` parses as a PHC password-hash string.
pub uninterp spec fn phc_parses(phc: Seq<char>) -> bool;

/// Whether Argon2 with default settings accepts `password` against the
/// parsed PHC string `phc`.
pub uninterp spec fn argon2_accepts(password: Seq<char>, phc: Seq<char>) -> bool;

/// Relies on `password_hash::PasswordHash::new`: parses a PHC string,
/// refusing the empty string; the outcome depends on the text alone.
#[verifier::external_body]
fn parse_phc(phc: &str) -> (r: Result<(), password_hash::Error>)
    ensures
        r is Ok <==> phc_parses(phc@),
        phc@.len() == 0 ==> r is Err,
{
    password_hash::PasswordHash::new(phc).map(|_| ())
}

/// Relies on `argon2::Argon2::default` and its `PasswordVerifier::verify_password`:
/// recomputes the hash of `password` with the parameters and salt of `phc`
/// and compares; the outcome depends on the two texts alone.
#[verifier::external_body]
fn argon2_verify(password: &str, phc: &str) -> (r: bool)
    requires
        phc_parses(phc@),
    ensures
        r == argon2_accepts(password@, phc@),
{
    match password_hash::PasswordHash::new(phc) {
        Ok(parsed) => argon2::PasswordVerifier::verify_password(
            &argon2::Argon2::default(),
            password.as_bytes(),
            &parsed,
        ).is_ok(),
        Err(_) => false,
    }
}

/// Checks `password` against the stored hash `hashed_password`: `Ok` with
/// the verdict when the hash parses, the parse error when it does not.
pub fn verify_password(password: &str, hashed_password: &str) -> (r: Result<bool, password_hash::Error>)
    ensures
        r is Ok <==> phc_parses(hashed_password@),
        r matches Ok(b) ==> b == argon2_accepts(password@, hashed_password@),
{
    match parse_phc(hashed_password) {
        Err(e) => Err(e),
        Ok(()) => Ok(argon2_verify(password, hashed_password)),
    }
}

/// The scheme word that opens a bearer Authorization header.
pub open spec fn bearer_prefix() -> Seq<char> {
    "Bearer "@
}

/// `s` with every leading repetition of the bearer prefix removed.
pub open spec fn strip_bearer(s: Seq<char>) -> Seq<char>
    decreases s.len(),
{
    if s.len() >= 7 && s.take(7) == bearer_prefix() {
        strip_bearer(s.skip(7))
    } else {
        s
    }
}

/// The token of an Authorization header value: present only when the value
/// starts with `Bearer `, and then the value with every leading `Bearer `
/// removed.
pub fn bearer_token(header: &str) -> (r: Option<Vec<char>>)
    ensures
        match r {
            Some(t) => header@.len() >= 7 && header@.take(7) == bearer_prefix() && t@
                == strip_bearer(header@),
            None => !(header@.len() >= 7 && header@.take(7) == bearer_prefix()),
        },
{
    let cs = chars_of(header);
    let prefix = chars_of("Bearer ");
    proof {
        reveal_strlit("Bearer ");
    }
    assert(prefix@.len() == 7);
    let n = cs.len();
    assert(cs@.skip(0) =~= cs@);
    let mut at: usize = 0;
    loop
        invariant
            cs@ == header@,
            prefix@ == bearer_prefix(),
            n == cs@.len(),
            at <= n,
            strip_bearer(cs@.skip(at as int)) == strip_bearer(header@),
            at == 0 || (header@.len() >= 7 && header@.take(7) == bearer_prefix()),
            prefix@.len() == 7,
        ensures
            at <= n,
            strip_bearer(header@) == cs@.skip(at as int),
            header@.len() >= 7 && header@.take(7) == bearer_prefix(),
        decreases n - at,
    {
        let mut matched = n - at >= 7;
        let mut k: usize = 0;
        while matched && k < 7
            invariant
                matched ==> at + 7 <= n,
                n == cs@.len(),
                at <= n,
                k <= 7,
                matched ==> forall|j: int| 0 <= j < k ==> cs@[at + j] == prefix@[j],
                !matched ==> (at + 7 > n || exists|j: int|
                    0 <= j < 7 && at + j < n && cs@[at + j] != prefix@[j]),
                prefix@.len() == 7,
            decreases 7 - k,
        {
            if cs[at + k] != prefix[k] {
                matched = false;
                assert(cs@[at + k] != prefix@[k as int]);
            }
            assert(matched ==> cs@[at + k] == prefix@[k as int]);
            k = k + 1;
        }
        let ghost rest = cs@.skip(at as int);
        if matched {
            assert(rest.take(7) =~= bearer_prefix());
            assert(rest.skip(7) =~= cs@.skip(at + 7));
            if at == 0 {
                assert(header@.take(7) =~= rest.take(7));
            }
            at = at + 7;
        } else {
            assert(!(rest.len() >= 7 && rest.take(7) == bearer_prefix())) by {
                if rest.len() >= 7 && rest.take(7) == bearer_prefix() {
                    assert(at + 7 <= n);
                    let j = choose|j: int| 0 <= j < 7 && at + j < n && cs@[at + j] != prefix@[j];
                    assert(rest.take(7)[j] == cs@[at + j]);
                    assert(forall|j: int| 0 <= j < 7 ==> rest.take(7)[j] == cs@[at + j]);
                    assert(forall|j: int| 0 <= j < 7 ==> cs@[at + j] == prefix@[j]);
                }
            }
            if at == 0 {
                assert(rest =~= header@);
                return None;
            }
            assert(strip_bearer(rest) == rest);
            break ;
        }
    }
    let mut out: Vec<char> = Vec::new();
    let mut i: usize = at;
    while i < n
        invariant
            at <= i <= n,
            n == cs@.len(),
            out@ == cs@.subrange(at as int, i as int),
        decreases n - i,
    {
        out.push(cs[i]);
        i = i + 1;
        assert(out@ =~= cs@.subrange(at as int, i as int));
    }
    assert(out@ =~= cs@.skip(at as int));
    Some(out)
}

/// Why a request was refused on account of its caller.
#[derive(Debug, Clone, Copy, PartialEq, Eq)]
pub enum UserError {
    Forbidden(&'static str),
    DatabaseError(&'static str),
}

impl UserError {
    /// The HTTP status code of the error: 403 or 500.
    pub fn status_code(&self) -> (r: u16)
        ensures
            r == (match self {
                UserError::Forbidden(_) => 403u16,
                UserError::DatabaseError(_) => 500u16,
            }),
    {
        match self {
            UserError::Forbidden(_) => 403,
            UserError::DatabaseError(_) => 500,
        }
    }
}

/// The message with which a non-admin caller is refused.
pub open spec fn not_admin_message() -> Seq<char> {
    "Anda bukan admin"@
}

/// Lets only the elevated role through; anyone else is refused as
/// forbidden, with the message that the caller is not an admin.
pub fn admin_check(auth_user: &AuthUser) -> (r: Result<(), UserError>)
    ensures
        r is Ok <==> auth_user.role == Role::Admin,
        r matches Err(e) ==> (e matches UserError::Forbidden(m) && m@ == not_admin_message()),
{
    match auth_user.role {
        Role::Admin => Ok(()),
        Role::Kasir => Err(UserError::Forbidden("Anda bukan admin")),
    }
}

/// How long a session token stays valid, in seconds: one day.
pub const TOKEN_LIFETIME_SECS: u64 = 86400;

/// What a session token states about its holder.
#[derive(Debug, Clone, PartialEq, Eq)]
pub struct Claims {
    pub sub: String,
    pub user_id: u64,
    pub role: Role,
    pub exp: usize,
}

impl Claims {
    /// Claims for `username` issued at `now_secs` (seconds since the Unix
    /// epoch), expiring one day later; `None` when that instant does not fit.
    pub fn new(user_id: u64, username: String, role: Role, now_secs: u64) -> (r: Option<Claims>)
        ensures
            r is Some <==> now_secs + TOKEN_LIFETIME_SECS <= usize::MAX,
            r matches Some(c) ==> {
                &&& c.sub == username
                &&& c.user_id == user_id
                &&& c.role == role
                &&& c.exp == now_secs + TOKEN_LIFETIME_SECS
            },
    {
        match now_secs.checked_add(TOKEN_LIFETIME_SECS) {
            None => None,
            Some(exp) => if exp as u128 <= usize::MAX as u128 {
                Some(Claims { sub: username, user_id, role, exp: exp as usize })
            } else {
                None
            },
        }
    }

    /// The caller that the claims describe.
    pub fn caller(&self) -> (r: AuthUser)
        ensures
            r.user_id == self.user_id,
            r.username == self.sub,
            r.role == self.role,
    {
        AuthUser { user_id: self.user_id, username: self.sub.clone(), role: self.role }
    }
}

} // verus!
