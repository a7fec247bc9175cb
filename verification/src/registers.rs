//! Register identity: each lane has a stable UUID-style global id, plus the
//! rules for naming, (de)activating and selecting registers.

use vstd::prelude::*;
use vstd::string::StringExecFns;
use rand_core::{OsRng, RngCore};
use crate::backup::{hex_digit, hex_text, to_hex};
use crate::text::{chars_of, is_blank, is_blank_str, parse_i64, parse_i64_spec, push_char, string_from_chars};

verus! {

// ---------------------------------------------------------------------------
// Global ids
// ---------------------------------------------------------------------------

/// The bytes with the RFC 4122 version-4 and variant bits applied.
pub open spec fn with_v4_bits(b: Seq<u8>) -> Seq<u8> {
    b.update(6, (b[6] & 0x0f) | 0x40).update(8, (b[8] & 0x3f) | 0x80)
}

/// Canonical 8-4-4-4-12 lower-case hex form of 16 bytes.
pub open spec fn uuid_text(b: Seq<u8>) -> Seq<char> {
    let h = hex_text(b);
    h.subrange(0, 8) + "-"@ + h.subrange(8, 12) + "-"@ + h.subrange(12, 16) + "-"@
        + h.subrange(16, 20) + "-"@ + h.subrange(20, 32)
}

/// Applies the version-4 and variant bits to `bytes` and formats them as a
/// canonical UUID.
pub fn format_uuid_v4(bytes: &mut [u8; 16]) -> (r: String)
    ensures
        final(bytes)@ == with_v4_bits(old(bytes)@),
        r@ == uuid_text(final(bytes)@),
{
    bytes[6] = (bytes[6] & 0x0f) | 0x40;
    bytes[8] = (bytes[8] & 0x3f) | 0x80;
    let mut v: Vec<u8> = Vec::new();
    let mut i: usize = 0;
    while i < 16
        invariant
            i <= 16,
            v@ == bytes@.take(i as int),
        decreases 16 - i,
    {
        v.push(bytes[i]);
        i = i + 1;
        assert(v@ =~= bytes@.take(i as int));
    }
    assert(v@ =~= bytes@);
    let h = to_hex(&v);
    proof {
        lemma_hex_len(v@);
    }
    let hv = chars_of(h.as_str());
    let mut s = string_from_chars(&hv, 0, 8);
    push_char(&mut s, '-');
    let t = string_from_chars(&hv, 8, 12);
    s.append(t.as_str());
    push_char(&mut s, '-');
    let t = string_from_chars(&hv, 12, 16);
    s.append(t.as_str());
    push_char(&mut s, '-');
    let t = string_from_chars(&hv, 16, 20);
    s.append(t.as_str());
    push_char(&mut s, '-');
    let t = string_from_chars(&hv, 20, 32);
    s.append(t.as_str());
    proof {
        reveal_strlit("-");
    }
    assert(s@ =~= uuid_text(bytes@));
    s
}

proof fn lemma_hex_len(b: Seq<u8>)
    ensures
        hex_text(b).len() == 2 * b.len(),
    decreases b.len(),
{
    if b.len() > 0 {
        lemma_hex_len(b.drop_last());
    }
}

/// The two hex digits of byte `k` sit at positions `2k` and `2k + 1`.
proof fn lemma_hex_at(b: Seq<u8>, k: int)
    requires
        0 <= k < b.len(),
    ensures
        hex_text(b)[2 * k] == hex_digit((b[k] / 16) as int),
        hex_text(b)[2 * k + 1] == hex_digit((b[k] % 16) as int),
    decreases b.len(),
{
    lemma_hex_len(b.drop_last());
    if k < b.len() - 1 {
        lemma_hex_at(b.drop_last(), k);
    }
}

/// A formatted id is 36 characters with hyphens at 8, 13, 18 and 23, its
/// version digit (position 14) is '4' and its variant digit (position 19) is
/// one of '8', '9', 'a', 'b'.
pub proof fn lemma_uuid_shape(b: Seq<u8>)
    requires
        b.len() == 16,
    ensures
        uuid_text(with_v4_bits(b)).len() == 36,
        uuid_text(with_v4_bits(b))[8] == '-',
        uuid_text(with_v4_bits(b))[13] == '-',
        uuid_text(with_v4_bits(b))[18] == '-',
        uuid_text(with_v4_bits(b))[23] == '-',
        uuid_text(with_v4_bits(b))[14] == '4',
        ({
            let c = uuid_text(with_v4_bits(b))[19];
            c == '8' || c == '9' || c == 'a' || c == 'b'
        }),
{
    reveal_strlit("-");
    let w = with_v4_bits(b);
    lemma_hex_len(w);
    lemma_hex_at(w, 6);
    lemma_hex_at(w, 8);
    let b6 = b[6];
    let b8 = b[8];
    assert(((b6 & 0x0f) | 0x40) / 16 == 4) by (bit_vector);
    assert(8 <= ((b8 & 0x3f) | 0x80) / 16 <= 11) by (bit_vector);
    let u = uuid_text(w);
    let h = hex_text(w);
    assert(u[14] == h[12]);
    assert(u[19] == h[16]);
}

/// Sixteen bytes from the operating system's RNG (`OsRng::fill_bytes`).
/// Nothing is claimed of their value.
#[verifier::external_body]
fn os_random_bytes() -> [u8; 16] {
    let mut bytes = [0u8; 16];
    OsRng.fill_bytes(&mut bytes);
    bytes
}

/// A fresh global id: "reg-" and a random version-4 UUID.
pub fn new_register_global_id() -> (r: String)
    ensures
        exists|b: Seq<u8>| b.len() == 16 && r@ == "reg-"@ + uuid_text(with_v4_bits(b)),
{
    let mut bytes = os_random_bytes();
    let ghost raw = bytes@;
    let u = format_uuid_v4(&mut bytes);
    let mut s = String::from_str("reg-");
    s.append(u.as_str());
    assert(raw.len() == 16 && s@ == "reg-"@ + uuid_text(with_v4_bits(raw)));
    s
}

// ---------------------------------------------------------------------------
// Registers
// ---------------------------------------------------------------------------

pub struct Register {
    pub id: i64,
    pub global_id: String,
    pub name: String,
    pub active: bool,
    pub created_at: String,
}

pub struct RegisterInput {
    pub id: Option<i64>,
    pub name: String,
}

/// A register needs a name that is not blank.
pub fn check_register_input(input: &RegisterInput) -> (r: Result<(), String>)
    ensures
        is_blank(input.name@) ==> (r matches Err(m) && m@ == "Register name is required"@),
        !is_blank(input.name@) ==> r is Ok,
{
    if is_blank_str(input.name.as_str()) {
        return Err(String::from_str("Register name is required"));
    }
    Ok(())
}

/// The last active register may not be deactivated.
pub fn check_set_active(active: bool, active_count: i64) -> (r: Result<(), String>)
    ensures
        !active && active_count <= 1 ==> (r matches Err(m) && m@ == "Cannot deactivate the only active register"@),
        !(!active && active_count <= 1) ==> r is Ok,
{
    if !active && active_count <= 1 {
        return Err(String::from_str("Cannot deactivate the only active register"));
    }
    Ok(())
}

/// A terminal may only be set to an existing, active register.
pub fn check_select_register(found_active: Option<i64>) -> (r: Result<(), String>)
    ensures
        found_active is Some ==> r is Ok,
        found_active is None ==> (r matches Err(m) && m@ == "That register does not exist or is inactive"@),
{
    if found_active.is_none() {
        return Err(String::from_str("That register does not exist or is inactive"));
    }
    Ok(())
}

/// The register this terminal is configured as: the setting parsed as an
/// integer, register 1 when it does not parse.
pub fn configured_register_id(setting: &str) -> (r: i64)
    ensures
        r as int == (match parse_i64_spec(setting@) { Some(v) => v, None => 1 }),
{
    match parse_i64(setting) {
        Some(v) => v,
        None => 1,
    }
}

/// The stored global id of the register, or the default id of register 1.
pub fn global_id_or_default(gid: Option<String>) -> (r: String)
    ensures
        gid matches Some(g) ==> r == g,
        gid is None ==> r@ == "reg-00000000-0000-0000-0000-000000000001"@,
{
    match gid {
        Some(g) => g,
        None => String::from_str("reg-00000000-0000-0000-0000-000000000001"),
    }
}

} // verus!
