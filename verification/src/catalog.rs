//! Catalog rules: product identity checks, database error wording and the
//! search pattern of the scan/search box.

use vstd::prelude::*;
use vstd::string::StringExecFns;
use crate::text::{contains, dec_int, is_blank, is_blank_str, push_i64, seq_contains, trim, trim_bounds};

verus! {

/// A product needs a SKU and a name that are not blank.
pub fn check_product_identity(sku: &str, name: &str) -> (r: Result<(), String>)
    ensures
        (is_blank(name@) || is_blank(sku@)) ==> (r matches Err(m) && m@ == "SKU and name are required"@),
        !(is_blank(name@) || is_blank(sku@)) ==> r is Ok,
{
    if is_blank_str(name) || is_blank_str(sku) {
        return Err(String::from_str("SKU and name are required"));
    }
    Ok(())
}

/// A duplicate-SKU failure reads "That SKU is already in use"; other failures
/// keep their text.
pub fn friendly_product_error(message: &str) -> (r: String)
    ensures
        seq_contains(message@, "UNIQUE"@) && seq_contains(message@, "sku"@) ==> r@ == "That SKU is already in use"@,
        !(seq_contains(message@, "UNIQUE"@) && seq_contains(message@, "sku"@)) ==> r@ == message@,
{
    if contains(message, "UNIQUE") && contains(message, "sku") {
        String::from_str("That SKU is already in use")
    } else {
        String::from_str(message)
    }
}

/// The promotion of a product saved without one.
pub fn default_promo() -> (r: String)
    ensures
        r@ == "none"@,
{
    String::from_str("none")
}

/// LIKE pattern of the product search: the trimmed query anywhere in the text.
pub fn contains_pattern(query: &str) -> (r: String)
    ensures
        exists|a: int, b: int| #[trigger] trim_bounds(query@, a, b) && r@ == "%"@ + query@.subrange(a, b) + "%"@,
{
    let q = trim(query);
    let mut p = String::from_str("%");
    p.append(q.as_str());
    p.append("%");
    p
}

/// SKU of a department's open-price item: "OPEN-<department id>".
pub fn open_price_sku(category_id: i64) -> (r: String)
    ensures
        r@ == "OPEN-"@ + dec_int(category_id as int),
{
    let mut s = String::from_str("OPEN-");
    push_i64(&mut s, category_id);
    s
}

/// Name of a department's open-price item: "<department> — Open Price".
pub fn open_price_name(category: &str) -> (r: String)
    ensures
        r@ == category@ + " — Open Price"@,
{
    let mut s = String::from_str(category);
    s.append(" — Open Price");
    s
}

} // verus!
