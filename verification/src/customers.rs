//! Loyalty customers: phone normalisation, registration checks and the
//! register's customer search.

use vstd::prelude::*;
use vstd::string::StringExecFns;
use crate::text::{chars_of, contains, is_ascii_digit, is_blank, is_blank_str, seq_contains, trim, trim_bounds, push_char};

verus! {

pub struct Customer {
    pub id: i64,
    pub name: String,
    pub phone: String,
    pub email: Option<String>,
    pub loyalty_points: i64,
    pub created_at: String,
}

/// The ASCII digits of `s`, in order.
pub open spec fn digits_of(s: Seq<char>) -> Seq<char>
    decreases s.len(),
{
    if s.len() == 0 {
        Seq::empty()
    } else if is_ascii_digit(s.last()) {
        digits_of(s.drop_last()).push(s.last())
    } else {
        digits_of(s.drop_last())
    }
}

/// The stored phone form: digits only, a leading US country code dropped from
/// an 11-digit number.
pub open spec fn normalize_phone_spec(raw: Seq<char>) -> Seq<char> {
    let d = digits_of(raw);
    if d.len() == 11 && d[0] == '1' { d.drop_first() } else { d }
}

/// The ASCII digits of `s`.
pub fn digits_only(s: &str) -> (r: String)
    ensures
        r@ == digits_of(s@),
{
    let v = chars_of(s);
    let mut out = String::new();
    let mut i: usize = 0;
    while i < v.len()
        invariant
            v@ == s@,
            i <= v.len(),
            out@ == digits_of(v@.take(i as int)),
        decreases v.len() - i,
    {
        proof {
            assert(v@.take(i + 1).drop_last() =~= v@.take(i as int));
        }
        let c = v[i];
        if '0' <= c && c <= '9' {
            push_char(&mut out, c);
        }
        i = i + 1;
    }
    assert(v@.take(v.len() as int) =~= v@);
    out
}

/// Keeps only digits and drops a leading US country code (stored form is 10
/// digits).
pub fn normalize_phone(raw: &str) -> (r: String)
    ensures
        r@ == normalize_phone_spec(raw@),
{
    let digits = digits_only(raw);
    let v = chars_of(digits.as_str());
    if v.len() == 11 && v[0] == '1' {
        let r = crate::text::string_from_chars(&v, 1, 11);
        assert(r@ =~= v@.drop_first());
        r
    } else {
        digits
    }
}

/// Registration input after its checks: the trimmed name and the stored phone.
pub struct NewCustomer {
    pub name: String,
    pub phone: String,
}

/// A customer registers with a 10-digit US phone (after normalising) and a
/// name that is not blank.
pub fn check_new_customer(name: &str, phone: &str) -> (r: Result<NewCustomer, String>)
    ensures
        normalize_phone_spec(phone@).len() != 10 ==> (r matches Err(m) && m@ == "Enter a valid 10-digit US phone number"@),
        normalize_phone_spec(phone@).len() == 10 && is_blank(name@) ==> (r matches Err(m) && m@ == "Name is required"@),
        normalize_phone_spec(phone@).len() == 10 && !is_blank(name@) ==> (r matches Ok(c) && c.phone@ == normalize_phone_spec(phone@)
            && exists|a: int, b: int| trim_bounds(name@, a, b) && c.name@ == name@.subrange(a, b)),
{
    let p = normalize_phone(phone);
    let pv = chars_of(p.as_str());
    if pv.len() != 10 {
        return Err(String::from_str("Enter a valid 10-digit US phone number"));
    }
    if is_blank_str(name) {
        return Err(String::from_str("Name is required"));
    }
    Ok(NewCustomer { name: trim(name), phone: p })
}

/// A failed insert reads "already registered" when the phone is taken.
pub fn customer_insert_error(message: &str) -> (r: String)
    ensures
        seq_contains(message@, "UNIQUE"@) ==> r@ == "That phone number is already registered"@,
        !seq_contains(message@, "UNIQUE"@) ==> r@ == message@,
{
    if contains(message, "UNIQUE") {
        String::from_str("That phone number is already registered")
    } else {
        String::from_str(message)
    }
}

/// LIKE patterns for the register's customer search: by name (contains) and by
/// any run of the phone digits, so the last four digits are enough. `None` for a
/// blank query (no search).
pub struct CustomerSearch {
    pub name_like: String,
    pub phone_like: String,
}

pub fn customer_search(query: &str) -> (r: Option<CustomerSearch>)
    ensures
        is_blank(query@) ==> r is None,
        !is_blank(query@) ==> (r matches Some(s) && exists|a: int, b: int| trim_bounds(query@, a, b) && {
            let q = query@.subrange(a, b);
            &&& s.name_like@ == "%"@ + q + "%"@
            &&& s.phone_like@ == (if digits_of(q).len() == 0 { "§none§"@ } else { "%"@ + digits_of(q) + "%"@ })
        }),
{
    let q = trim(query);
    let ghost (qa, qb) = choose|a: int, b: int| #[trigger] trim_bounds(query@, a, b) && q@ == query@.subrange(a, b);
    if q.as_str().is_empty() {
        assert(is_blank(query@)) by {
            assert forall|i: int| 0 <= i < query@.len() implies crate::text::unicode_whitespace(#[trigger] query@[i]) by {
                if !(i < qa || i >= qb) {
                    assert(false);
                }
            }
        }
        return None;
    }
    assert(!is_blank(query@)) by {
        assert(!crate::text::unicode_whitespace(query@[qa]));
    }
    let digits = digits_only(q.as_str());
    let phone_like = if digits.as_str().is_empty() {
        String::from_str("§none§")
    } else {
        let mut p = String::from_str("%");
        p.append(digits.as_str());
        p.append("%");
        p
    };
    let mut name_like = String::from_str("%");
    name_like.append(q.as_str());
    name_like.append("%");
    Some(CustomerSearch { name_like, phone_like })
}

// ---------------------------------------------------------------------------
// Laws
// ---------------------------------------------------------------------------

proof fn lemma_all_digits_kept(d: Seq<char>)
    requires
        forall|i: int| 0 <= i < d.len() ==> is_ascii_digit(#[trigger] d[i]),
    ensures
        digits_of(d) == d,
    decreases d.len(),
{
    if d.len() > 0 {
        lemma_all_digits_kept(d.drop_last());
        assert(is_ascii_digit(d[d.len() - 1]));
        assert(d.drop_last().push(d.last()) =~= d);
    }
}

proof fn lemma_digits_are_digits(s: Seq<char>)
    ensures
        forall|i: int| 0 <= i < digits_of(s).len() ==> is_ascii_digit(#[trigger] digits_of(s)[i]),
    decreases s.len(),
{
    if s.len() > 0 {
        let p = s.drop_last();
        lemma_digits_are_digits(p);
        let dp = digits_of(p);
        let ds = digits_of(s);
        assert forall|i: int| 0 <= i < ds.len() implies is_ascii_digit(#[trigger] ds[i]) by {
            if is_ascii_digit(s.last()) {
                assert(ds == dp.push(s.last()));
                if i < dp.len() {
                    assert(ds[i] == dp[i]);
                }
            } else {
                assert(ds == dp);
            }
        }
    }
}

/// Normalising a phone number that is already in stored form changes nothing,
/// so a lookup by a stored number finds it again.
pub proof fn lemma_normalize_phone_idempotent(raw: Seq<char>)
    ensures
        normalize_phone_spec(normalize_phone_spec(raw)) == normalize_phone_spec(raw),
{
    let d = digits_of(raw);
    lemma_digits_are_digits(raw);
    let n = normalize_phone_spec(raw);
    assert forall|i: int| 0 <= i < n.len() implies is_ascii_digit(#[trigger] n[i]) by {
        if d.len() == 11 && d[0] == '1' {
            assert(n[i] == d[i + 1]);
        }
    }
    lemma_all_digits_kept(n);
}

} // verus!
