//! Purchasing: case/unit conversion, purchase-order validation, receiving
//! against an order, cost updates and inventory adjustment reasons.

use vstd::prelude::*;
use vstd::string::StringExecFns;
use crate::pricing::{in_i64, trunc_div};
use crate::text::{dec_int, is_blank, is_blank_str, push_i64, str_eq};

verus! {

pub open spec fn pack_or_one(pack_size: int) -> int {
    if pack_size >= 1 { pack_size } else { 1 }
}

/// Selling units in `cases` cases: cases times the pack size (a pack size
/// below one counts as one).
pub fn cases_to_units(cases: i64, pack_size: i64) -> (r: i64)
    requires
        in_i64(cases * pack_or_one(pack_size as int)),
    ensures
        r as int == cases * pack_or_one(pack_size as int),
{
    let pack: i64 = if pack_size >= 1 { pack_size } else { 1 };
    cases * pack
}

/// Extended cost of a purchase-order line: cases times the case cost.
pub fn extended_cost(cases: i64, unit_cost: i64) -> (r: i64)
    requires
        in_i64(cases * unit_cost),
    ensures
        r as int == cases * unit_cost,
{
    cases * unit_cost
}

// ---------------------------------------------------------------------------
// Vendors
// ---------------------------------------------------------------------------

pub struct Vendor {
    pub id: i64,
    pub name: String,
    pub contact: Option<String>,
    pub phone: Option<String>,
    pub email: Option<String>,
    pub account_no: Option<String>,
    pub notes: Option<String>,
    pub active: bool,
}

pub struct VendorInput {
    pub id: Option<i64>,
    pub name: String,
    pub contact: Option<String>,
    pub phone: Option<String>,
    pub email: Option<String>,
    pub account_no: Option<String>,
    pub notes: Option<String>,
}

/// A vendor needs a name that is not blank.
pub fn check_vendor_input(input: &VendorInput) -> (r: Result<(), String>)
    ensures
        is_blank(input.name@) ==> (r matches Err(m) && m@ == "Vendor name is required"@),
        !is_blank(input.name@) ==> r is Ok,
{
    if is_blank_str(input.name.as_str()) {
        return Err(String::from_str("Vendor name is required"));
    }
    Ok(())
}

// ---------------------------------------------------------------------------
// Purchase orders
// ---------------------------------------------------------------------------

pub struct PoLineInput {
    pub product_id: i64,
    pub vendor_sku: Option<String>,
    pub qty_ordered: i64,
    pub unit_cost: i64,
    pub pack_size: i64,
}

/// An order needs at least one line, and every line a positive quantity.
pub fn check_po_lines(lines: &Vec<PoLineInput>) -> (r: Result<(), String>)
    ensures
        lines.len() == 0 ==> (r matches Err(m) && m@ == "A purchase order needs at least one line"@),
        lines.len() > 0 && (exists|i: int| 0 <= i < lines.len() && (#[trigger] lines@[i]).qty_ordered <= 0)
            ==> (r matches Err(m) && m@ == "Order quantity must be positive"@),
        lines.len() > 0 && (forall|i: int| 0 <= i < lines.len() ==> (#[trigger] lines@[i]).qty_ordered > 0)
            ==> r is Ok,
{
    if lines.len() == 0 {
        return Err(String::from_str("A purchase order needs at least one line"));
    }
    let mut i: usize = 0;
    while i < lines.len()
        invariant
            i <= lines.len(),
            forall|k: int| 0 <= k < i ==> (#[trigger] lines@[k]).qty_ordered > 0,
        decreases lines.len() - i,
    {
        if lines[i].qty_ordered <= 0 {
            return Err(String::from_str("Order quantity must be positive"));
        }
        i = i + 1;
    }
    Ok(())
}

/// The pack size stored for an order line (at least one).
pub fn stored_pack_size(pack_size: i64) -> (r: i64)
    ensures
        r as int == pack_or_one(pack_size as int),
{
    if pack_size >= 1 { pack_size } else { 1 }
}

pub open spec fn settable_po_status(status: Seq<char>) -> bool {
    status == "ordered"@ || status == "cancelled"@ || status == "closed"@
}

/// A manager may move an order to "ordered", "cancelled" or "closed" only.
pub fn check_po_status(status: &str) -> (r: Result<(), String>)
    ensures
        settable_po_status(status@) ==> r is Ok,
        !settable_po_status(status@) ==> (r matches Err(m) && m@ == "Invalid status transition"@),
{
    if str_eq(status, "ordered") || str_eq(status, "cancelled") || str_eq(status, "closed") {
        Ok(())
    } else {
        Err(String::from_str("Invalid status transition"))
    }
}

// ---------------------------------------------------------------------------
// Receiving
// ---------------------------------------------------------------------------

pub struct ReceiveLine {
    pub line_id: i64,
    pub cases_received: i64,
}

/// A stored purchase-order line.
pub struct PoLineState {
    pub product_id: i64,
    pub qty_ordered: i64,
    pub qty_received: i64,
    /// Cost per case.
    pub unit_cost: i64,
    pub pack_size: i64,
}

/// Receiving needs at least one line.
pub fn check_receipts(receipts: &Vec<ReceiveLine>) -> (r: Result<(), String>)
    ensures
        receipts.len() == 0 ==> (r matches Err(m) && m@ == "Nothing to receive"@),
        receipts.len() > 0 ==> r is Ok,
{
    if receipts.len() == 0 {
        return Err(String::from_str("Nothing to receive"));
    }
    Ok(())
}

/// Lines with no cases (or a negative count) are skipped.
pub fn receipt_applies(r: &ReceiveLine) -> (b: bool)
    ensures
        b == (r.cases_received > 0),
{
    r.cases_received > 0
}

/// Receiving `cases` against a line: refused beyond the ordered quantity, else
/// the selling units it adds to stock.
pub fn plan_line_receipt(line: &PoLineState, cases: i64) -> (r: Result<i64, String>)
    requires
        in_i64(line.qty_received + cases),
        line.qty_received + cases <= line.qty_ordered ==> in_i64(cases * pack_or_one(line.pack_size as int)),
    ensures
        line.qty_received + cases > line.qty_ordered ==> (r matches Err(m) && m@ == "Cannot receive more than ordered"@),
        line.qty_received + cases <= line.qty_ordered ==> r == Ok::<i64, String>((cases * pack_or_one(line.pack_size as int)) as i64),
{
    if line.qty_received + cases > line.qty_ordered {
        return Err(String::from_str("Cannot receive more than ordered"));
    }
    Ok(cases_to_units(cases, line.pack_size))
}

/// The product's new current cost after receiving: the per-unit cost (case
/// cost over pack size) when it is positive and differs from the prior cost.
pub fn cost_update(unit_cost: i64, pack_size: i64, prior_cost: i64) -> (r: Option<i64>)
    ensures
        ({
            let per_unit = trunc_div(unit_cost as int, pack_or_one(pack_size as int));
            if per_unit > 0 && per_unit != prior_cost { r == Some(per_unit as i64) } else { r is None }
        }),
{
    let pack: i64 = if pack_size >= 1 { pack_size } else { 1 };
    let per_unit = unit_cost / pack;
    if per_unit > 0 && per_unit != prior_cost { Some(per_unit) } else { None }
}

/// An order is "received" once everything ordered has arrived, else "partial".
pub fn receipt_status(ordered: i64, received: i64) -> (r: String)
    ensures
        r@ == (if received >= ordered { "received"@ } else { "partial"@ }),
{
    if received >= ordered { String::from_str("received") } else { String::from_str("partial") }
}

/// "Received <n> units".
pub fn received_message(units: i64) -> (r: String)
    ensures
        r@ == "Received "@ + dec_int(units as int) + " units"@,
{
    let mut s = String::from_str("Received ");
    push_i64(&mut s, units);
    s.append(" units");
    s
}

// ---------------------------------------------------------------------------
// Adjustments
// ---------------------------------------------------------------------------

pub open spec fn adjustment_reason(code: Seq<char>) -> bool {
    code == "damage"@ || code == "spoilage"@ || code == "shrink"@ || code == "correction"@
}

/// Inventory adjustments carry one of: damage, spoilage, shrink, correction.
pub fn check_adjustment_reason(code: &str) -> (r: Result<(), String>)
    ensures
        adjustment_reason(code@) ==> r is Ok,
        !adjustment_reason(code@) ==> (r matches Err(m) && m@ == "Invalid adjustment reason"@),
{
    if str_eq(code, "damage") || str_eq(code, "spoilage") || str_eq(code, "shrink") || str_eq(code, "correction") {
        Ok(())
    } else {
        Err(String::from_str("Invalid adjustment reason"))
    }
}

pub open spec fn stock_reason(reason: Seq<char>) -> bool {
    reason == "receive"@ || reason == "adjust"@ || reason == "count"@
}

/// Stock movements recorded by hand carry one of: receive, adjust, count.
pub fn check_stock_reason(reason: &str) -> (r: Result<(), String>)
    ensures
        stock_reason(reason@) ==> r is Ok,
        !stock_reason(reason@) ==> (r matches Err(m) && m@ == "Invalid stock reason"@),
{
    if str_eq(reason, "receive") || str_eq(reason, "adjust") || str_eq(reason, "count") {
        Ok(())
    } else {
        Err(String::from_str("Invalid stock reason"))
    }
}

// ---------------------------------------------------------------------------
// Laws
// ---------------------------------------------------------------------------

/// Receiving a positive number of cases adds at least that many units, and
/// exactly that many when the pack size is one or less.
pub proof fn lemma_units_cover_cases(cases: int, pack_size: int)
    requires
        cases > 0,
    ensures
        cases * pack_or_one(pack_size) >= cases,
        pack_size <= 1 ==> cases * pack_or_one(pack_size) == cases,
{
    assert(cases * pack_or_one(pack_size) >= cases * 1) by (nonlinear_arith)
        requires cases > 0, pack_or_one(pack_size) >= 1;
}

// ---------------------------------------------------------------------------
// Listings
// ---------------------------------------------------------------------------

/// A purchase order as listed: its vendor, line count and total cost.
pub struct PoRow {
    pub id: i64,
    pub vendor: String,
    pub reference: Option<String>,
    pub status: String,
    pub created_at: String,
    pub line_count: i64,
    pub total_cost: i64,
}

/// A product at or below its reorder level, with the cases suggested to order.
pub struct ReorderRow {
    pub product_id: i64,
    pub name: String,
    pub on_hand: i64,
    pub reorder_level: i64,
    pub min_stock: i64,
    pub pack_size: i64,
    pub suggested_cases: i64,
    pub vendor: Option<String>,
}

/// Integer division rounding toward zero, for a nonzero divisor.
pub open spec fn div_toward_zero(a: int, b: int) -> int {
    if b > 0 { trunc_div(a, b) } else { -trunc_div(a, -b) }
}

/// Units missing to bring `on_hand` up to the reorder level plus one case.
pub open spec fn units_short(on_hand: int, reorder_level: int, pack_size: int) -> int {
    if reorder_level + pack_size - on_hand > 0 { reorder_level + pack_size - on_hand } else { 0 }
}

/// Cases to suggest: the units short, rounded up to whole cases.
pub open spec fn suggested_cases_spec(on_hand: int, reorder_level: int, pack_size: int) -> int {
    div_toward_zero(units_short(on_hand, reorder_level, pack_size) + pack_size - 1, pack_size)
}

/// Cases to suggest ordering so that on-hand reaches the reorder level plus
/// one case, rounded up to whole cases. Managers only see suggestions; nothing
/// is ordered automatically. `None` when the pack size is zero (no case size
/// to round to) or the count does not fit in `i64`.
pub fn suggested_cases(on_hand: i64, reorder_level: i64, pack_size: i64) -> (r: Option<i64>)
    ensures
        pack_size == 0 ==> r is None,
        pack_size != 0 ==> (if in_i64(suggested_cases_spec(on_hand as int, reorder_level as int, pack_size as int)) {
            r == Some(suggested_cases_spec(on_hand as int, reorder_level as int, pack_size as int) as i64)
        } else {
            r is None
        }),
{
    if pack_size == 0 {
        return None;
    }
    let short: i128 = reorder_level as i128 + pack_size as i128 - on_hand as i128;
    let need: i128 = if short > 0 { short } else { 0 };
    let numerator: i128 = need + pack_size as i128 - 1;
    let cases: i128 = if pack_size > 0 {
        numerator / (pack_size as i128)
    } else {
        -(numerator / (-(pack_size as i128)))
    };
    if i64::MIN as i128 <= cases && cases <= i64::MAX as i128 {
        Some(cases as i64)
    } else {
        None
    }
}

/// With a positive pack size, the suggested cases bring on-hand up to at least
/// the reorder level plus one case, and one case fewer would not.
pub proof fn lemma_suggestion_restocks(on_hand: int, reorder_level: int, pack_size: int)
    requires
        pack_size > 0,
    ensures
        on_hand + suggested_cases_spec(on_hand, reorder_level, pack_size) * pack_size >= reorder_level + pack_size
            || units_short(on_hand, reorder_level, pack_size) == 0,
        on_hand + suggested_cases_spec(on_hand, reorder_level, pack_size) * pack_size >= reorder_level + pack_size
            || on_hand >= reorder_level + pack_size,
        suggested_cases_spec(on_hand, reorder_level, pack_size) >= 0,
        (suggested_cases_spec(on_hand, reorder_level, pack_size) - 1) * pack_size < units_short(on_hand, reorder_level, pack_size),
{
    let need = units_short(on_hand, reorder_level, pack_size);
    let c = suggested_cases_spec(on_hand, reorder_level, pack_size);
    assert(c == (need + pack_size - 1) / pack_size);
    assert(c * pack_size >= need && (c - 1) * pack_size < need && c >= 0) by (nonlinear_arith)
        requires
            need >= 0,
            pack_size > 0,
            c == (need + pack_size - 1) / pack_size,
    {
        let q = (need + pack_size - 1) / pack_size;
        let rem = (need + pack_size - 1) % pack_size;
        assert(need + pack_size - 1 == q * pack_size + rem);
        assert(0 <= rem < pack_size);
    }
}

} // verus!
