//! Voids and refunds: which sales may be reversed, where a refund's money
//! goes, and the stock and loyalty movements that undo a sale.

use vstd::prelude::*;
use vstd::string::StringExecFns;
use crate::pricing::in_i64;
use crate::sale::{sum_of, PricedLine};
use crate::text::str_eq;

verus! {

/// Only a completed sale may be voided or refunded.
pub fn check_reversible(kind: &str, status: &str, refund: bool) -> (r: Result<(), String>)
    ensures
        (kind@ == "sale"@ && status@ == "completed"@) ==> r is Ok,
        !(kind@ == "sale"@ && status@ == "completed"@) ==> (r matches Err(m) && m@ == (if refund {
            "Only completed sales can be refunded"@
        } else {
            "Only completed sales can be voided"@
        })),
{
    if !str_eq(kind, "sale") || !str_eq(status, "completed") {
        if refund {
            return Err(String::from_str("Only completed sales can be refunded"));
        }
        return Err(String::from_str("Only completed sales can be voided"));
    }
    Ok(())
}

/// A refund goes back the way the sale was paid (cash when no payment is on
/// record); a cash refund needs an open shift so the drawer accounts for it.
pub fn refund_tender(original_kind: Option<String>, open_shift: Option<i64>) -> (r: Result<String, String>)
    ensures
        ({
            let kind = match original_kind { Some(k) => k@, None => "cash"@ };
            &&& kind == "cash"@ && open_shift is None ==> (r matches Err(m) && m@ == "Open a shift before issuing cash refunds"@)
            &&& !(kind == "cash"@ && open_shift is None) ==> (r matches Ok(k) && k@ == kind)
        }),
{
    let kind = match original_kind {
        Some(k) => k,
        None => String::from_str("cash"),
    };
    if str_eq(kind.as_str(), "cash") && open_shift.is_none() {
        return Err(String::from_str("Open a shift before issuing cash refunds"));
    }
    Ok(kind)
}

/// A change of stock for one product.
pub struct StockMove {
    pub product_id: i64,
    pub delta: i64,
}

/// A stored sale line: (product, quantity).
pub struct SoldItem {
    pub product_id: i64,
    pub qty: i64,
}

/// Stock leaves with a sale: one movement of minus the quantity per line.
pub fn sale_movements(lines: &Vec<PricedLine>) -> (r: Vec<StockMove>)
    requires
        forall|i: int| 0 <= i < lines.len() ==> (#[trigger] lines@[i]).qty > i64::MIN,
    ensures
        r@.len() == lines@.len(),
        forall|i: int| 0 <= i < lines@.len() ==> (#[trigger] r@[i]).product_id == lines@[i].product_id
            && r@[i].delta == -lines@[i].qty,
{
    let mut out: Vec<StockMove> = Vec::new();
    let mut i: usize = 0;
    while i < lines.len()
        invariant
            i <= lines.len(),
            forall|i: int| 0 <= i < lines.len() ==> (#[trigger] lines@[i]).qty > i64::MIN,
            out@.len() == i,
            forall|k: int| 0 <= k < i ==> (#[trigger] out@[k]).product_id == lines@[k].product_id
                && out@[k].delta == -lines@[k].qty,
        decreases lines.len() - i,
    {
        out.push(StockMove { product_id: lines[i].product_id, delta: -lines[i].qty });
        i = i + 1;
    }
    out
}

/// A void or refund puts every sold quantity back: one movement per line.
pub fn return_movements(items: &Vec<SoldItem>) -> (r: Vec<StockMove>)
    ensures
        r@.len() == items@.len(),
        forall|i: int| 0 <= i < items@.len() ==> (#[trigger] r@[i]).product_id == items@[i].product_id
            && r@[i].delta == items@[i].qty,
{
    let mut out: Vec<StockMove> = Vec::new();
    let mut i: usize = 0;
    while i < items.len()
        invariant
            i <= items.len(),
            out@.len() == i,
            forall|k: int| 0 <= k < i ==> (#[trigger] out@[k]).product_id == items@[k].product_id
                && out@[k].delta == items@[k].qty,
        decreases items.len() - i,
    {
        out.push(StockMove { product_id: items[i].product_id, delta: items[i].qty });
        i = i + 1;
    }
    out
}

/// Net stock change of `product` over a list of movements.
pub open spec fn net_change(moves: Seq<StockMove>, product: i64) -> int
    decreases moves.len(),
{
    if moves.len() == 0 {
        0
    } else {
        net_change(moves.drop_last(), product)
            + if moves.last().product_id == product { moves.last().delta as int } else { 0 }
    }
}

/// Reversing a sale restores stock: for every product, the movements of the
/// sale and those of its void (or refund), over the same lines, cancel out.
pub proof fn lemma_reversal_restores_stock(sold: Seq<StockMove>, returned: Seq<StockMove>, product: i64)
    requires
        sold.len() == returned.len(),
        forall|i: int| 0 <= i < sold.len() ==> (#[trigger] sold[i]).product_id == returned[i].product_id
            && sold[i].delta == -returned[i].delta,
    ensures
        net_change(sold, product) + net_change(returned, product) == 0,
    decreases sold.len(),
{
    if sold.len() > 0 {
        let n = sold.len() - 1;
        assert forall|i: int| 0 <= i < sold.drop_last().len() implies (#[trigger] sold.drop_last()[i]).product_id
            == returned.drop_last()[i].product_id && sold.drop_last()[i].delta == -returned.drop_last()[i].delta by {
            assert(sold.drop_last()[i] == sold[i]);
            assert(returned.drop_last()[i] == returned[i]);
        }
        lemma_reversal_restores_stock(sold.drop_last(), returned.drop_last(), product);
        assert(sold.last() == sold[n]);
        assert(returned.last() == returned[n]);
    }
}

/// The items a sale stores: one (product, quantity) per priced line.
pub open spec fn items_of_lines(lines: Seq<PricedLine>) -> Seq<SoldItem> {
    lines.map_values(|l: PricedLine| SoldItem { product_id: l.product_id, qty: l.qty })
}

/// Voiding a sale puts back every product's stock: the movements that
/// `sale_movements` gives for the sale's lines and those that
/// `return_movements` gives for the items stored from those lines cancel out,
/// product by product.
pub proof fn lemma_void_restores_stock(lines: Seq<PricedLine>, sold: Seq<StockMove>, returned: Seq<StockMove>, product: i64)
    requires
        sold.len() == lines.len(),
        forall|i: int| 0 <= i < lines.len() ==> (#[trigger] sold[i]).product_id == lines[i].product_id
            && sold[i].delta == -lines[i].qty,
        returned.len() == items_of_lines(lines).len(),
        forall|i: int| 0 <= i < lines.len() ==> (#[trigger] returned[i]).product_id == items_of_lines(lines)[i].product_id
            && returned[i].delta == items_of_lines(lines)[i].qty,
    ensures
        net_change(sold, product) + net_change(returned, product) == 0,
{
    assert forall|i: int| 0 <= i < sold.len() implies (#[trigger] sold[i]).product_id == returned[i].product_id
        && sold[i].delta == -returned[i].delta by {
        assert(items_of_lines(lines)[i] == SoldItem { product_id: lines[i].product_id, qty: lines[i].qty });
    }
    lemma_reversal_restores_stock(sold, returned, product);
}

/// The customer whose points a reversal takes back, with the points to take:
/// only when the sale had a customer and moved their balance.
pub fn loyalty_reversal(customer_id: Option<i64>, points_delta: i64) -> (r: Option<(i64, i64)>)
    ensures
        r == (match customer_id {
            Some(c) => if points_delta != 0 { Some((c, points_delta)) } else { None },
            None => None,
        }),
{
    match customer_id {
        Some(c) => if points_delta != 0 { Some((c, points_delta)) } else { None },
        None => None,
    }
}

/// A balance after taking back `delta` points, never below zero.
pub open spec fn reversed_balance(balance: int, delta: int) -> int {
    if balance - delta > 0 { balance - delta } else { 0 }
}

/// The balance a reversal leaves: `delta` points taken back, never below zero.
pub fn reversed_points(balance: i64, delta: i64) -> (r: i64)
    requires
        in_i64(balance - delta),
    ensures
        r == reversed_balance(balance as int, delta as int),
{
    let b = balance - delta;
    if b > 0 { b } else { 0 }
}

/// Taking back the points a sale moved restores the customer's balance from
/// before the sale (a balance is never negative).
pub proof fn lemma_reversal_restores_points(balance: int, delta: int)
    requires
        balance >= 0,
    ensures
        reversed_balance(balance + delta, delta) == balance,
{
}

/// A transaction as listed, with cashier and customer names.
pub struct TxnRow {
    pub id: i64,
    /// `sale` or `refund`.
    pub kind: String,
    /// `completed`, `voided` or `refunded`.
    pub status: String,
    pub total: i64,
    pub discount: i64,
    pub cashier: Option<String>,
    pub customer: Option<String>,
    pub created_at: String,
}

/// A parked cart, kept as the client's own serialised form.
pub struct SuspendedSale {
    pub id: i64,
    pub cashier_id: Option<i64>,
    pub cart_json: String,
    pub created_at: String,
}

} // verus!
