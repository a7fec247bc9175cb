//! Shift cash reconciliation: expected drawer cash, over/short, and the rules
//! for opening and closing shifts and for drawer events.

use vstd::prelude::*;
use vstd::string::StringExecFns;
use crate::models::{SessionInfo, Shift};
use crate::pricing::in_i64;
use crate::security::{role_can, role_can_spec};
use crate::text::{clone_opt_string, str_eq};

verus! {

pub open spec fn expected_cash_spec(opening: int, cash_sales: int, cash_refunds: int, cash_in: int, cash_out: int) -> int {
    opening + cash_sales - cash_refunds + cash_in - cash_out
}

/// Every running step of the expected-cash sum fits in `i64`.
pub open spec fn expected_cash_in_range(opening: int, cash_sales: int, cash_refunds: int, cash_in: int, cash_out: int) -> bool {
    &&& in_i64(opening + cash_sales)
    &&& in_i64(opening + cash_sales - cash_refunds)
    &&& in_i64(opening + cash_sales - cash_refunds + cash_in)
    &&& in_i64(opening + cash_sales - cash_refunds + cash_in - cash_out)
}

/// Cash the drawer should hold: opening float + cash sales - cash refunds +
/// paid-in - paid-out (paid-outs include safe drops).
pub fn expected_cash(opening: i64, cash_sales: i64, cash_refunds: i64, cash_in: i64, cash_out: i64) -> (r: i64)
    requires
        expected_cash_in_range(opening as int, cash_sales as int, cash_refunds as int, cash_in as int, cash_out as int),
    ensures
        r as int == expected_cash_spec(opening as int, cash_sales as int, cash_refunds as int, cash_in as int, cash_out as int),
{
    opening + cash_sales - cash_refunds + cash_in - cash_out
}

/// Whether the expected-cash sum of these figures can be computed in `i64`:
/// every running step of it fits (what `expected_cash` needs).
pub fn expected_cash_fits(opening: i64, cash_sales: i64, cash_refunds: i64, cash_in: i64, cash_out: i64) -> (r: bool)
    ensures
        r == expected_cash_in_range(opening as int, cash_sales as int, cash_refunds as int, cash_in as int, cash_out as int),
{
    match opening.checked_add(cash_sales) {
        None => false,
        Some(a) => match a.checked_sub(cash_refunds) {
            None => false,
            Some(b) => match b.checked_add(cash_in) {
                None => false,
                Some(c) => c.checked_sub(cash_out).is_some(),
            },
        },
    }
}

/// Counted minus expected: positive is over, negative is short.
pub fn over_short(counted: i64, expected: i64) -> (r: i64)
    requires
        in_i64(counted - expected),
    ensures
        r == counted - expected,
{
    counted - expected
}

/// The drawer figures of a shift, as summed from its payments and drawer events.
pub struct ShiftFigures {
    pub cash_sales: i64,
    pub card_sales: i64,
    pub cash_refunds: i64,
    pub cash_in: i64,
    pub cash_out: i64,
    pub gross_sales: i64,
    pub txn_count: i64,
}

pub struct ShiftSummary {
    pub shift_id: i64,
    pub cashier_id: i64,
    pub opening_float: i64,
    pub cash_sales: i64,
    pub card_sales: i64,
    pub cash_refunds: i64,
    pub cash_in: i64,
    pub cash_out: i64,
    pub gross_sales: i64,
    pub txn_count: i64,
    pub expected_cash: i64,
    pub counted_cash: Option<i64>,
    pub over_short: Option<i64>,
    pub status: String,
    pub opened_at: String,
    pub closed_at: Option<String>,
}

/// The summary of a shift from its stored record and its figures.
pub fn build_summary(shift: &Shift, f: &ShiftFigures) -> (r: ShiftSummary)
    requires
        expected_cash_in_range(shift.opening_float as int, f.cash_sales as int, f.cash_refunds as int, f.cash_in as int, f.cash_out as int),
    ensures
        r.shift_id == shift.id,
        r.cashier_id == shift.cashier_id,
        r.opening_float == shift.opening_float,
        r.cash_sales == f.cash_sales,
        r.card_sales == f.card_sales,
        r.cash_refunds == f.cash_refunds,
        r.cash_in == f.cash_in,
        r.cash_out == f.cash_out,
        r.gross_sales == f.gross_sales,
        r.txn_count == f.txn_count,
        r.expected_cash as int == expected_cash_spec(shift.opening_float as int, f.cash_sales as int, f.cash_refunds as int, f.cash_in as int, f.cash_out as int),
        r.counted_cash == shift.counted_cash,
        r.over_short == shift.over_short,
        r.status == shift.status,
        r.opened_at == shift.opened_at,
        r.closed_at == shift.closed_at,
{
    let expected = expected_cash(shift.opening_float, f.cash_sales, f.cash_refunds, f.cash_in, f.cash_out);
    ShiftSummary {
        shift_id: shift.id,
        cashier_id: shift.cashier_id,
        opening_float: shift.opening_float,
        cash_sales: f.cash_sales,
        card_sales: f.card_sales,
        cash_refunds: f.cash_refunds,
        cash_in: f.cash_in,
        cash_out: f.cash_out,
        gross_sales: f.gross_sales,
        txn_count: f.txn_count,
        expected_cash: expected,
        counted_cash: shift.counted_cash,
        over_short: shift.over_short,
        status: shift.status.clone(),
        opened_at: shift.opened_at.clone(),
        closed_at: clone_opt_string(&shift.closed_at),
    }
}

/// A cashier may hold only one open shift.
pub fn check_open_shift(existing_open_shift: Option<i64>) -> (r: Result<(), String>)
    ensures
        existing_open_shift is None ==> r is Ok,
        existing_open_shift is Some ==> (r matches Err(m) && m@ == "You already have an open shift"@),
{
    if existing_open_shift.is_some() {
        return Err(String::from_str("You already have an open shift"));
    }
    Ok(())
}

/// A shift may be closed by its own cashier (or a role allowed to override),
/// and only once.
pub fn check_close_shift(sess: &SessionInfo, shift: &Shift) -> (r: Result<(), String>)
    ensures
        shift.cashier_id != sess.cashier_id && !role_can_spec(sess.role@, "shift_close_override"@)
            ==> (r matches Err(m) && m@ == "You can only close your own shift"@),
        !(shift.cashier_id != sess.cashier_id && !role_can_spec(sess.role@, "shift_close_override"@))
            && shift.status@ == "closed"@ ==> (r matches Err(m) && m@ == "Shift is already closed"@),
        !(shift.cashier_id != sess.cashier_id && !role_can_spec(sess.role@, "shift_close_override"@))
            && shift.status@ != "closed"@ ==> r is Ok,
{
    if shift.cashier_id != sess.cashier_id && !role_can(sess.role.as_str(), "shift_close_override") {
        return Err(String::from_str("You can only close your own shift"));
    }
    if str_eq(shift.status.as_str(), "closed") {
        return Err(String::from_str("Shift is already closed"));
    }
    Ok(())
}

/// The summary handed back when a shift closes with `counted` cash in the drawer.
pub fn close_summary(summary: ShiftSummary, counted: i64) -> (r: ShiftSummary)
    requires
        in_i64(counted - summary.expected_cash),
    ensures
        r.counted_cash == Some(counted),
        r.over_short == Some((counted - summary.expected_cash) as i64),
        r.status@ == "closed"@,
        r.shift_id == summary.shift_id,
        r.cashier_id == summary.cashier_id,
        r.opening_float == summary.opening_float,
        r.cash_sales == summary.cash_sales,
        r.card_sales == summary.card_sales,
        r.cash_refunds == summary.cash_refunds,
        r.cash_in == summary.cash_in,
        r.cash_out == summary.cash_out,
        r.gross_sales == summary.gross_sales,
        r.txn_count == summary.txn_count,
        r.expected_cash == summary.expected_cash,
        r.opened_at == summary.opened_at,
        r.closed_at == summary.closed_at,
{
    let os = over_short(counted, summary.expected_cash);
    ShiftSummary { counted_cash: Some(counted), over_short: Some(os), status: String::from_str("closed"), ..summary }
}

/// Drawer events that take cash out without a sale need a manager.
pub open spec fn sensitive_drawer_event(event_type: Seq<char>) -> bool {
    event_type == "no_sale"@ || event_type == "paid_out"@
}

/// A drawer event is allowed unless it is sensitive, the role may not do a
/// no-sale, and no manager approved it.
pub fn drawer_event_allowed(event_type: &str, role: &str, manager_approved_by: Option<i64>) -> (r: bool)
    ensures
        r == !(sensitive_drawer_event(event_type@) && !role_can_spec(role@, "no_sale"@) && manager_approved_by is None),
{
    let sensitive = str_eq(event_type, "no_sale") || str_eq(event_type, "paid_out");
    !(sensitive && !role_can(role, "no_sale") && manager_approved_by.is_none())
}

// ---------------------------------------------------------------------------
// Laws
// ---------------------------------------------------------------------------

/// The drawer balances exactly when the count equals the expected cash, and the
/// over/short is the surplus (or, negative, the shortfall) against it.
pub proof fn lemma_over_short_measures_the_difference(opening: int, cash_sales: int, cash_refunds: int, cash_in: int, cash_out: int, counted: int)
    ensures
        (counted - expected_cash_spec(opening, cash_sales, cash_refunds, cash_in, cash_out) == 0)
            == (counted == expected_cash_spec(opening, cash_sales, cash_refunds, cash_in, cash_out)),
        counted == expected_cash_spec(opening, cash_sales, cash_refunds, cash_in, cash_out)
            + (counted - expected_cash_spec(opening, cash_sales, cash_refunds, cash_in, cash_out)),
{
}

/// A cash refund lowers the expected drawer by its amount, a paid-in raises it
/// and a paid-out lowers it by theirs.
pub proof fn lemma_expected_cash_moves_with_cash(opening: int, cash_sales: int, cash_refunds: int, cash_in: int, cash_out: int, amount: int)
    ensures
        expected_cash_spec(opening, cash_sales + amount, cash_refunds, cash_in, cash_out)
            == expected_cash_spec(opening, cash_sales, cash_refunds, cash_in, cash_out) + amount,
        expected_cash_spec(opening, cash_sales, cash_refunds + amount, cash_in, cash_out)
            == expected_cash_spec(opening, cash_sales, cash_refunds, cash_in, cash_out) - amount,
        expected_cash_spec(opening, cash_sales, cash_refunds, cash_in + amount, cash_out)
            == expected_cash_spec(opening, cash_sales, cash_refunds, cash_in, cash_out) + amount,
        expected_cash_spec(opening, cash_sales, cash_refunds, cash_in, cash_out + amount)
            == expected_cash_spec(opening, cash_sales, cash_refunds, cash_in, cash_out) - amount,
{
}

} // verus!
