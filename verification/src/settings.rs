//! Store settings: which keys may be saved, and typed reads with defaults.

use vstd::prelude::*;
use vstd::string::StringExecFns;
use crate::text::{parse_i64, parse_i64_spec, str_eq};

verus! {

pub open spec fn known_key(k: Seq<char>) -> bool {
    ||| k == "store_name"@
    ||| k == "receipt_footer"@
    ||| k == "default_tax_pct"@
    ||| k == "loyalty_threshold"@
    ||| k == "loyalty_reward"@
    ||| k == "low_stock_default"@
    ||| k == "theme"@
    ||| k == "dev_receipt_mode"@
    ||| k == "dev_drawer_mode"@
    ||| k == "dev_drawer_card"@
    ||| k == "dev_printer_forcefail"@
    ||| k == "receipt_paper_width"@
    ||| k == "receipt_auto_print"@
    ||| k == "receipt_copies"@
    ||| k == "store_address"@
    ||| k == "store_phone"@
    ||| k == "store_tax_id"@
}

/// Every setting the store reads can be saved: the store's name, address,
/// phone and tax id, the receipt footer, paper width, auto-print and copies,
/// the default tax rate, the loyalty threshold and reward, the low-stock
/// default, the theme, and the device modes.
pub proof fn lemma_store_settings_are_saved()
    ensures
        known_key("store_name"@),
        known_key("store_address"@),
        known_key("store_phone"@),
        known_key("store_tax_id"@),
        known_key("receipt_footer"@),
        known_key("receipt_paper_width"@),
        known_key("receipt_auto_print"@),
        known_key("receipt_copies"@),
        known_key("default_tax_pct"@),
        known_key("loyalty_threshold"@),
        known_key("loyalty_reward"@),
        known_key("low_stock_default"@),
        known_key("theme"@),
        known_key("dev_receipt_mode"@),
        known_key("dev_drawer_mode"@),
        known_key("dev_drawer_card"@),
        known_key("dev_printer_forcefail"@),
{
    reveal_strlit("store_name");
    reveal_strlit("receipt_footer");
    reveal_strlit("default_tax_pct");
    reveal_strlit("loyalty_threshold");
    reveal_strlit("loyalty_reward");
    reveal_strlit("low_stock_default");
    reveal_strlit("theme");
    reveal_strlit("dev_receipt_mode");
    reveal_strlit("dev_drawer_mode");
    reveal_strlit("dev_drawer_card");
    reveal_strlit("dev_printer_forcefail");
    reveal_strlit("receipt_paper_width");
    reveal_strlit("receipt_auto_print");
    reveal_strlit("receipt_copies");
    reveal_strlit("store_address");
    reveal_strlit("store_phone");
    reveal_strlit("store_tax_id");
}

/// Whether a settings key may be saved; unknown keys are ignored.
pub fn is_known_setting_key(k: &str) -> (r: bool)
    ensures
        r == known_key(k@),
{
    str_eq(k, "store_name") || str_eq(k, "receipt_footer") || str_eq(k, "default_tax_pct")
        || str_eq(k, "loyalty_threshold") || str_eq(k, "loyalty_reward") || str_eq(k, "low_stock_default")
        || str_eq(k, "theme") || str_eq(k, "dev_receipt_mode") || str_eq(k, "dev_drawer_mode")
        || str_eq(k, "dev_drawer_card") || str_eq(k, "dev_printer_forcefail")
        || str_eq(k, "receipt_paper_width") || str_eq(k, "receipt_auto_print") || str_eq(k, "receipt_copies")
        || str_eq(k, "store_address") || str_eq(k, "store_phone") || str_eq(k, "store_tax_id")
}

/// An integer setting: the stored value when it parses, else the default.
pub fn setting_i64_or(value: Option<&str>, default: i64) -> (r: i64)
    ensures
        r as int == (match value {
            Some(v) => match parse_i64_spec(v@) { Some(n) => n, None => default as int },
            None => default as int,
        }),
{
    match value {
        Some(v) => match parse_i64(v) {
            Some(n) => n,
            None => default,
        },
        None => default,
    }
}

/// A text setting: the stored value, else the default.
pub fn setting_str_or(value: Option<String>, default: &str) -> (r: String)
    ensures
        value matches Some(v) ==> r == v,
        value is None ==> r@ == default@,
{
    match value {
        Some(v) => v,
        None => String::from_str(default),
    }
}

} // verus!
