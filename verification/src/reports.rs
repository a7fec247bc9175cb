//! Sales and profit reporting: the fixed period filters, the register filter,
//! and the figures derived from the aggregated rows.

use vstd::prelude::*;
use vstd::string::StringExecFns;
use crate::pricing::{in_i64, trunc_div};
use crate::sale::sum_of;
use crate::text::{dec_int, push_i64, str_eq};

verus! {

pub open spec fn period_clause_spec(period: Seq<char>) -> Seq<char> {
    if period == "today"@ {
        "AND t.created_at >= date('now')"@
    } else if period == "week"@ {
        "AND t.created_at >= date('now','-7 days')"@
    } else if period == "month"@ {
        "AND t.created_at >= date('now','-30 days')"@
    } else {
        Seq::empty()
    }
}

/// The fixed SQL filter for a report period; any other period means all time.
pub fn period_clause(period: &str) -> (r: &'static str)
    ensures
        r@ == period_clause_spec(period@),
{
    if str_eq(period, "today") {
        "AND t.created_at >= date('now')"
    } else if str_eq(period, "week") {
        "AND t.created_at >= date('now','-7 days')"
    } else if str_eq(period, "month") {
        "AND t.created_at >= date('now','-30 days')"
    } else {
        proof { reveal_strlit(""); }
        ""
    }
}

/// The register filter: empty for all registers, else the integer id.
pub fn register_clause(register_id: Option<i64>) -> (r: String)
    ensures
        register_id is None ==> r@ == Seq::<char>::empty(),
        register_id matches Some(id) ==> r@ == "AND t.register_id = "@ + dec_int(id as int),
{
    match register_id {
        Some(id) => {
            let mut s = String::from_str("AND t.register_id = ");
            push_i64(&mut s, id);
            s
        },
        None => String::new(),
    }
}

pub struct PaymentRow {
    pub kind: String,
    pub amount: i64,
}

pub struct DeptRow {
    pub department: String,
    pub sales: i64,
}

pub struct TopRow {
    pub name: String,
    pub qty: i64,
    pub revenue: i64,
}

pub struct ReportData {
    pub period: String,
    pub gross: i64,
    pub tax: i64,
    pub net: i64,
    pub txn_count: i64,
    pub avg_basket: i64,
    pub by_payment: Vec<PaymentRow>,
    pub by_department: Vec<DeptRow>,
    pub top_products: Vec<TopRow>,
}

/// The report from its aggregates: net is gross less tax, the average basket
/// is gross over the number of sales (0 without sales).
pub fn finish_report(
    period: String,
    gross: i64,
    tax: i64,
    txn_count: i64,
    by_payment: Vec<PaymentRow>,
    by_department: Vec<DeptRow>,
    top_products: Vec<TopRow>,
) -> (r: ReportData)
    requires
        in_i64(gross - tax),
    ensures
        r.period == period,
        r.gross == gross,
        r.tax == tax,
        r.net == gross - tax,
        r.txn_count == txn_count,
        r.avg_basket as int == (if txn_count > 0 { trunc_div(gross as int, txn_count as int) } else { 0 }),
        r.by_payment == by_payment,
        r.by_department == by_department,
        r.top_products == top_products,
{
    let net = gross - tax;
    let avg_basket = if txn_count > 0 { gross / txn_count } else { 0 };
    ReportData { period, gross, tax, net, txn_count, avg_basket, by_payment, by_department, top_products }
}

// ---------------------------------------------------------------------------
// Profit
// ---------------------------------------------------------------------------

/// One department's aggregate: revenue, revenue of lines with a recorded cost,
/// and their cost (the last two absent when no line had one).
pub struct ProfitInput {
    pub department: String,
    pub revenue: i64,
    pub costed_revenue: Option<i64>,
    pub cost: Option<i64>,
}

/// A department's integer profit figures. Lines sold without a recorded cost
/// are left out of cost and profit.
pub struct ProfitLine {
    pub department: String,
    pub revenue: i64,
    pub costed_revenue: i64,
    pub cost: i64,
    pub profit: i64,
}

pub struct ProfitTotals {
    pub total_revenue: i64,
    pub costed_revenue: i64,
    pub total_cost: i64,
    pub gross_profit: i64,
}

pub open spec fn or_zero(o: Option<i64>) -> int {
    match o {
        Some(v) => v as int,
        None => 0,
    }
}

pub open spec fn revenues(rows: Seq<ProfitInput>) -> Seq<int> {
    rows.map_values(|r: ProfitInput| r.revenue as int)
}

pub open spec fn costed_revenues(rows: Seq<ProfitInput>) -> Seq<int> {
    rows.map_values(|r: ProfitInput| or_zero(r.costed_revenue))
}

pub open spec fn costs(rows: Seq<ProfitInput>) -> Seq<int> {
    rows.map_values(|r: ProfitInput| or_zero(r.cost))
}

pub open spec fn profit_inputs_in_range(rows: Seq<ProfitInput>) -> bool {
    &&& forall|k: int| 0 <= k <= rows.len() ==> in_i64(#[trigger] sum_of(revenues(rows).take(k)))
    &&& forall|k: int| 0 <= k <= rows.len() ==> in_i64(#[trigger] sum_of(costed_revenues(rows).take(k)))
    &&& forall|k: int| 0 <= k <= rows.len() ==> in_i64(#[trigger] sum_of(costs(rows).take(k)))
    &&& forall|k: int| 0 <= k < rows.len() ==> in_i64(or_zero(#[trigger] rows[k].costed_revenue) - or_zero(rows[k].cost))
    &&& in_i64(sum_of(costed_revenues(rows)) - sum_of(costs(rows)))
}

proof fn lemma_sum_step(s: Seq<int>, i: int)
    requires
        0 <= i < s.len(),
    ensures
        sum_of(s.take(i + 1)) == sum_of(s.take(i)) + s[i],
{
    assert(s.take(i + 1).drop_last() =~= s.take(i));
}

/// Per-department profit (costed revenue less cost) and the totals.
pub fn profit_figures(rows: &Vec<ProfitInput>) -> (r: (Vec<ProfitLine>, ProfitTotals))
    requires
        profit_inputs_in_range(rows@),
    ensures
        r.0@.len() == rows@.len(),
        forall|k: int| 0 <= k < rows@.len() ==> {
            let l = #[trigger] r.0@[k];
            &&& l.department == rows@[k].department
            &&& l.revenue == rows@[k].revenue
            &&& l.costed_revenue == or_zero(rows@[k].costed_revenue)
            &&& l.cost == or_zero(rows@[k].cost)
            &&& l.profit == l.costed_revenue - l.cost
        },
        r.1.total_revenue == sum_of(revenues(rows@)),
        r.1.costed_revenue == sum_of(costed_revenues(rows@)),
        r.1.total_cost == sum_of(costs(rows@)),
        r.1.gross_profit == r.1.costed_revenue - r.1.total_cost,
{
    let mut lines: Vec<ProfitLine> = Vec::new();
    let mut total_revenue: i64 = 0;
    let mut costed_sum: i64 = 0;
    let mut total_cost: i64 = 0;
    let mut i: usize = 0;
    while i < rows.len()
        invariant
            i <= rows.len(),
            profit_inputs_in_range(rows@),
            lines@.len() == i,
            forall|k: int| 0 <= k < i ==> {
                let l = #[trigger] lines@[k];
                &&& l.department == rows@[k].department
                &&& l.revenue == rows@[k].revenue
                &&& l.costed_revenue == or_zero(rows@[k].costed_revenue)
                &&& l.cost == or_zero(rows@[k].cost)
                &&& l.profit == l.costed_revenue - l.cost
            },
            total_revenue == sum_of(revenues(rows@).take(i as int)),
            costed_sum == sum_of(costed_revenues(rows@).take(i as int)),
            total_cost == sum_of(costs(rows@).take(i as int)),
        decreases rows.len() - i,
    {
        let row = &rows[i];
        let costed: i64 = match row.costed_revenue { Some(v) => v, None => 0 };
        let cost: i64 = match row.cost { Some(v) => v, None => 0 };
        proof {
            lemma_sum_step(revenues(rows@), i as int);
            lemma_sum_step(costed_revenues(rows@), i as int);
            lemma_sum_step(costs(rows@), i as int);
            assert(in_i64(sum_of(revenues(rows@).take(i + 1))));
            assert(in_i64(sum_of(costed_revenues(rows@).take(i + 1))));
            assert(in_i64(sum_of(costs(rows@).take(i + 1))));
            assert(in_i64(or_zero(rows@[i as int].costed_revenue) - or_zero(rows@[i as int].cost)));
        }
        let profit = costed - cost;
        total_revenue = total_revenue + row.revenue;
        costed_sum = costed_sum + costed;
        total_cost = total_cost + cost;
        lines.push(ProfitLine { department: row.department.clone(), revenue: row.revenue, costed_revenue: costed, cost, profit });
        i = i + 1;
    }
    proof {
        assert(revenues(rows@).take(i as int) =~= revenues(rows@));
        assert(costed_revenues(rows@).take(i as int) =~= costed_revenues(rows@));
        assert(costs(rows@).take(i as int) =~= costs(rows@));
    }
    let gross_profit = costed_sum - total_cost;
    (lines, ProfitTotals { total_revenue, costed_revenue: costed_sum, total_cost, gross_profit })
}

/// Whether `profit_figures` can total these rows without overflow.
pub fn profit_inputs_fit(rows: &Vec<ProfitInput>) -> (r: bool)
    ensures
        r == profit_inputs_in_range(rows@),
{
    let ghost rv = revenues(rows@);
    let ghost cr = costed_revenues(rows@);
    let ghost cs = costs(rows@);
    let mut total_revenue: i64 = 0;
    let mut costed_sum: i64 = 0;
    let mut total_cost: i64 = 0;
    let mut i: usize = 0;
    assert(rv.take(0) =~= Seq::<int>::empty());
    assert(cr.take(0) =~= Seq::<int>::empty());
    assert(cs.take(0) =~= Seq::<int>::empty());
    while i < rows.len()
        invariant
            i <= rows.len(),
            rv == revenues(rows@),
            cr == costed_revenues(rows@),
            cs == costs(rows@),
            total_revenue == sum_of(rv.take(i as int)),
            costed_sum == sum_of(cr.take(i as int)),
            total_cost == sum_of(cs.take(i as int)),
            forall|k: int| 0 <= k <= i ==> in_i64(#[trigger] sum_of(rv.take(k))),
            forall|k: int| 0 <= k <= i ==> in_i64(#[trigger] sum_of(cr.take(k))),
            forall|k: int| 0 <= k <= i ==> in_i64(#[trigger] sum_of(cs.take(k))),
            forall|k: int| 0 <= k < i ==> in_i64(or_zero(#[trigger] rows@[k].costed_revenue) - or_zero(rows@[k].cost)),
        decreases rows.len() - i,
    {
        proof {
            lemma_sum_step(rv, i as int);
            lemma_sum_step(cr, i as int);
            lemma_sum_step(cs, i as int);
        }
        let row = &rows[i];
        let costed: i64 = match row.costed_revenue { Some(v) => v, None => 0 };
        let cost: i64 = match row.cost { Some(v) => v, None => 0 };
        match total_revenue.checked_add(row.revenue) {
            None => {
                assert(!in_i64(sum_of(rv.take(i + 1))));
                return false;
            },
            Some(v) => { total_revenue = v; },
        }
        match costed_sum.checked_add(costed) {
            None => {
                assert(!in_i64(sum_of(cr.take(i + 1))));
                return false;
            },
            Some(v) => { costed_sum = v; },
        }
        match total_cost.checked_add(cost) {
            None => {
                assert(!in_i64(sum_of(cs.take(i + 1))));
                return false;
            },
            Some(v) => { total_cost = v; },
        }
        if costed.checked_sub(cost).is_none() {
            assert(!in_i64(or_zero(rows@[i as int].costed_revenue) - or_zero(rows@[i as int].cost)));
            return false;
        }
        i = i + 1;
    }
    proof {
        assert(rv.take(i as int) =~= rv);
        assert(cr.take(i as int) =~= cr);
        assert(cs.take(i as int) =~= cs);
    }
    costed_sum.checked_sub(total_cost).is_some()
}

/// Shrink signals of one cashier over a period: voids, refunds, no-sale
/// drawer opens, and cumulative over/short of closed shifts.
pub struct LossPreventionRow {
    pub cashier: String,
    pub void_count: i64,
    pub void_amount: i64,
    pub refund_count: i64,
    pub refund_amount: i64,
    pub no_sale_count: i64,
    pub over_short: i64,
}

} // verus!
