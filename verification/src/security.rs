//! PIN hashing and verification (argon2) and the role/permission matrix.

use vstd::prelude::*;
use vstd::string::StringExecFns;
use argon2::password_hash::{PasswordHash, PasswordHasher, PasswordVerifier, Salt, SaltString};
use argon2::Argon2;
use rand_core::OsRng;
use crate::models::SessionInfo;
use crate::text::{str_eq, utf8_len};

verus! {

// ---------------------------------------------------------------------------
// argon2
// ---------------------------------------------------------------------------

/// Whether `pin` verifies against the PHC-format hash `hash` under argon2's
/// default parameters (what `Argon2::verify_password` answers).
pub uninterp spec fn argon2_pin_matches(pin: Seq<char>, hash: Seq<char>) -> bool;

/// A character of standard Base64 (`A-Z`, `a-z`, `0-9`, `+`, `/`).
pub open spec fn b64_char(c: char) -> bool {
    ('A' <= c && c <= 'Z') || ('a' <= c && c <= 'z') || ('0' <= c && c <= '9') || c == '+' || c == '/'
}

/// The unpadded Base64 text of a 16-byte salt: 22 Base64 characters, the
/// last of which carries no bits beyond the salt's 128 (so the text decodes
/// back to exactly 16 bytes).
pub open spec fn salt_text_16(s: Seq<char>) -> bool {
    &&& s.len() == 22
    &&& forall|i: int| 0 <= i < 22 ==> b64_char(#[trigger] s[i])
    &&& (s[21] == 'A' || s[21] == 'Q' || s[21] == 'g' || s[21] == 'w')
}

/// `SaltString::generate` with the operating system's RNG, as its text. The
/// salt is 16 random bytes (`Salt::RECOMMENDED_LENGTH`) encoded in unpadded
/// Base64; nothing is claimed of which bytes they are.
#[verifier::external_body]
fn fresh_salt() -> (r: String)
    ensures
        salt_text_16(r@),
{
    SaltString::generate(&mut OsRng).as_str().to_string()
}

/// `Argon2::default().hash_password(pin, salt)`, serialised as a PHC string,
/// with the salt given as its Base64 text (`Salt::from_b64`). The claims: a
/// hash it produces verifies against the same pin (the verifier re-runs argon2
/// with the salt and parameters recorded in the string and compares outputs);
/// and it succeeds for a pin of at most `0xFFFF_FFFF` bytes with a 16-byte
/// salt, the only limits it checks on its inputs being the password length
/// and the salt's text and decoded length. Errors are passed on as text.
#[verifier::external_body]
fn argon2_hash(pin: &str, salt: &str) -> (r: Result<String, String>)
    ensures
        r matches Ok(h) ==> argon2_pin_matches(pin@, h@),
        utf8_len(pin@) <= 0xFFFF_FFFF && salt_text_16(salt@) ==> r is Ok,
{
    match Salt::from_b64(salt) {
        Ok(s) => Argon2::default().hash_password(pin.as_bytes(), s).map(|h| h.to_string()).map_err(|e| e.to_string()),
        Err(e) => Err(e.to_string()),
    }
}

/// `Argon2::default().verify_password(pin, PasswordHash::new(hash))`. A hash
/// that does not parse as a PHC string verifies nothing; in particular one
/// that is empty or does not start with `$` does not parse.
#[verifier::external_body]
fn argon2_verify(pin: &str, hash: &str) -> (r: bool)
    ensures
        r == argon2_pin_matches(pin@, hash@),
        (hash@.len() == 0 || hash@[0] != '$') ==> !r,
{
    match PasswordHash::new(hash) {
        Ok(parsed) => Argon2::default().verify_password(pin.as_bytes(), &parsed).is_ok(),
        Err(_) => false,
    }
}

/// Hashes a PIN with argon2 and a fresh random salt. It succeeds for any PIN
/// of at most `0xFFFF_FFFF` bytes, and the same PIN verifies against the hash.
pub fn hash_pin(pin: &str) -> (r: Result<String, String>)
    ensures
        r matches Ok(h) ==> argon2_pin_matches(pin@, h@),
        utf8_len(pin@) <= 0xFFFF_FFFF ==> r is Ok,
{
    let salt = fresh_salt();
    argon2_hash(pin, salt.as_str())
}

/// Checks a PIN against a stored hash; a hash that is empty or does not
/// start with `$` (not a PHC string) verifies nothing.
pub fn verify_pin(pin: &str, hash: &str) -> (r: bool)
    ensures
        r == argon2_pin_matches(pin@, hash@),
        (hash@.len() == 0 || hash@[0] != '$') ==> !r,
{
    argon2_verify(pin, hash)
}

/// Index of the first stored hash the PIN verifies against (sign-in tries the
/// active cashiers in order).
pub fn find_pin_match(pin: &str, hashes: &Vec<String>) -> (r: Option<usize>)
    ensures
        match r {
            Some(i) => i < hashes.len() && argon2_pin_matches(pin@, hashes@[i as int]@)
                && forall|k: int| 0 <= k < i ==> !argon2_pin_matches(pin@, #[trigger] hashes@[k]@),
            None => forall|k: int| 0 <= k < hashes.len() ==> !argon2_pin_matches(pin@, #[trigger] hashes@[k]@),
        },
{
    let mut i: usize = 0;
    while i < hashes.len()
        invariant
            i <= hashes.len(),
            forall|k: int| 0 <= k < i ==> !argon2_pin_matches(pin@, #[trigger] hashes@[k]@),
        decreases hashes.len() - i,
    {
        if verify_pin(pin, hashes[i].as_str()) {
            return Some(i);
        }
        i = i + 1;
    }
    None
}

/// Manager override: index of the first (role, hash) pair whose PIN matches and
/// whose role may perform `action`.
pub fn find_override(pin: &str, roles: &Vec<String>, hashes: &Vec<String>, action: &str) -> (r: Option<usize>)
    requires
        roles.len() == hashes.len(),
    ensures
        match r {
            Some(i) => i < hashes.len() && argon2_pin_matches(pin@, hashes@[i as int]@)
                && role_can_spec(roles@[i as int]@, action@)
                && forall|k: int| 0 <= k < i ==> !(argon2_pin_matches(pin@, #[trigger] hashes@[k]@)
                    && role_can_spec(roles@[k]@, action@)),
            None => forall|k: int| 0 <= k < hashes.len() ==> !(argon2_pin_matches(pin@, #[trigger] hashes@[k]@)
                && role_can_spec(roles@[k]@, action@)),
        },
{
    let mut i: usize = 0;
    while i < hashes.len()
        invariant
            i <= hashes.len(),
            roles.len() == hashes.len(),
            forall|k: int| 0 <= k < i ==> !(argon2_pin_matches(pin@, #[trigger] hashes@[k]@)
                && role_can_spec(roles@[k]@, action@)),
        decreases hashes.len() - i,
    {
        if verify_pin(pin, hashes[i].as_str()) && role_can(roles[i].as_str(), action) {
            return Some(i);
        }
        i = i + 1;
    }
    None
}

// ---------------------------------------------------------------------------
// Roles and permissions
// ---------------------------------------------------------------------------

/// Actions only a manager (or an admin) may perform.
pub open spec fn manager_only(action: Seq<char>) -> bool {
    ||| action == "void"@
    ||| action == "refund"@
    ||| action == "no_sale"@
    ||| action == "paid_out"@
    ||| action == "price_override"@
    ||| action == "shift_close_override"@
    ||| action == "product_delete"@
    ||| action == "settings"@
    ||| action == "manage_cashiers"@
    ||| action == "open_drawer"@
    ||| action == "configure_devices"@
    ||| action == "backup"@
    ||| action == "restore"@
    ||| action == "diagnostics"@
}

/// Admins may do anything; manager-only actions need a manager; any role may
/// do the rest.
pub open spec fn role_can_spec(role: Seq<char>, action: Seq<char>) -> bool {
    if role == "admin"@ {
        true
    } else if manager_only(action) {
        role == "manager"@
    } else {
        true
    }
}

/// Whether `action` is reserved for managers.
pub fn is_manager_only(action: &str) -> (r: bool)
    ensures
        r == manager_only(action@),
{
    str_eq(action, "void") || str_eq(action, "refund") || str_eq(action, "no_sale")
        || str_eq(action, "paid_out") || str_eq(action, "price_override")
        || str_eq(action, "shift_close_override") || str_eq(action, "product_delete")
        || str_eq(action, "settings") || str_eq(action, "manage_cashiers")
        || str_eq(action, "open_drawer") || str_eq(action, "configure_devices")
        || str_eq(action, "backup") || str_eq(action, "restore") || str_eq(action, "diagnostics")
}

/// The role/permission matrix.
pub fn role_can(role: &str, action: &str) -> (r: bool)
    ensures
        r == role_can_spec(role@, action@),
{
    if str_eq(role, "admin") {
        return true;
    }
    if is_manager_only(action) {
        return str_eq(role, "manager");
    }
    true
}

/// The roles an account may have.
pub fn is_valid_role(role: &str) -> (r: bool)
    ensures
        r == (role@ == "cashier"@ || role@ == "manager"@ || role@ == "admin"@),
{
    str_eq(role, "cashier") || str_eq(role, "manager") || str_eq(role, "admin")
}

/// Why an action was refused.
pub enum Denial {
    NotSignedIn,
    Forbidden,
}

/// The signed-in cashier, when there is one and their role may do `action`.
pub fn authorize(session: &Option<SessionInfo>, action: &str) -> (r: Result<SessionInfo, Denial>)
    ensures
        session is None ==> r matches Err(Denial::NotSignedIn),
        session matches Some(s) ==> (if role_can_spec(s.role@, action@) {
            r == Ok::<SessionInfo, Denial>(*s)
        } else {
            r matches Err(Denial::Forbidden)
        }),
{
    match session {
        None => Err(Denial::NotSignedIn),
        Some(s) => {
            if role_can(s.role.as_str(), action) {
                Ok(s.clone())
            } else {
                Err(Denial::Forbidden)
            }
        },
    }
}

/// The void/refund gate: allowed when the role may do it, or when a manager
/// already approved through the override PIN.
pub fn gate(sess: &SessionInfo, action: &str, approved: Option<i64>) -> (r: Result<(), String>)
    ensures
        (role_can_spec(sess.role@, action@) || approved is Some) ==> r is Ok,
        !(role_can_spec(sess.role@, action@) || approved is Some) ==> (r matches Err(m)
            && m@ == requires_manager_spec(action@)),
{
    if role_can(sess.role.as_str(), action) || approved.is_some() {
        Ok(())
    } else {
        Err(requires_manager_message(action))
    }
}

pub open spec fn requires_manager_spec(action: Seq<char>) -> Seq<char> {
    "'"@ + action + "' requires a manager"@
}

/// "'<action>' requires a manager".
pub fn requires_manager_message(action: &str) -> (r: String)
    ensures
        r@ == requires_manager_spec(action@),
{
    let mut m = String::from_str("'");
    m.append(action);
    m.append("' requires a manager");
    m
}

pub open spec fn permission_denied_spec(action: Seq<char>) -> Seq<char> {
    "Permission denied — '"@ + action + "'"@
}

/// "Permission denied — '<action>'".
pub fn permission_denied_message(action: &str) -> (r: String)
    ensures
        r@ == permission_denied_spec(action@),
{
    let mut m = String::from_str("Permission denied — '");
    m.append(action);
    m.append("'");
    m
}

/// "Permission denied — '<action>' requires a manager".
pub fn permission_requires_manager_message(action: &str) -> (r: String)
    ensures
        r@ == "Permission denied — '"@ + action@ + "' requires a manager"@,
{
    let mut m = String::from_str("Permission denied — '");
    m.append(action);
    m.append("' requires a manager");
    m
}

/// A permission check that the role failed: granted only by a stored
/// per-cashier override whose `allowed` flag is 1.
pub fn resolve_override(action: &str, override_allowed: Option<i64>) -> (r: Result<bool, String>)
    ensures
        override_allowed == Some(1i64) ==> r == Ok::<bool, String>(true),
        override_allowed != Some(1i64) ==> (r matches Err(m) && m@ == permission_denied_spec(action@)),
{
    if override_allowed == Some(1i64) {
        Ok(true)
    } else {
        Err(permission_denied_message(action))
    }
}

// ---------------------------------------------------------------------------
// Laws
// ---------------------------------------------------------------------------

/// Permissions only widen up the hierarchy: whatever a cashier may do a manager
/// may do, and whatever a manager may do an admin may do.
pub proof fn lemma_roles_are_ordered(action: Seq<char>)
    ensures
        role_can_spec("cashier"@, action) ==> role_can_spec("manager"@, action),
        role_can_spec("manager"@, action) ==> role_can_spec("admin"@, action),
        role_can_spec("admin"@, action),
{
    reveal_strlit("cashier");
    reveal_strlit("manager");
    reveal_strlit("admin");
    assert("manager"@ != "admin"@) by {
        assert("manager"@.len() != "admin"@.len());
    }
}

/// A cashier is refused exactly the manager-only actions.
pub proof fn lemma_cashier_refused_exactly_manager_only(action: Seq<char>)
    ensures
        role_can_spec("cashier"@, action) == !manager_only(action),
{
    reveal_strlit("cashier");
    reveal_strlit("manager");
    reveal_strlit("admin");
    assert("cashier"@ != "admin"@) by {
        assert("cashier"@[0] != "admin"@[0]);
    }
    assert("cashier"@ != "manager"@) by {
        assert("cashier"@[0] != "manager"@[0]);
    }
}

} // verus!
