//! Demo mode: the deterministic week of history that a demo reset seeds.
//! Every choice (how many sales a day, which product, which tender, which
//! customer, how far the drawer count is off) comes from simple arithmetic
//! on the day and the sale's index, so repeated resets seed the same week.

use vstd::prelude::*;
use vstd::string::StringExecFns;
use crate::models::SessionInfo;
use crate::pricing::{in_i64, loyalty_earned, loyalty_earned_spec};
use crate::security::{role_can, role_can_spec};
use crate::text::{dec_int, push_i64};

verus! {

/// Days of history a demo reset seeds, today included.
pub const DEMO_DAYS: i64 = 7;

/// Opening float of every demo shift, in cents.
pub const DEMO_OPENING_FLOAT: i64 = 10000;

/// How far a demo drawer count may be off, in cents.
pub const DEMO_DRAWER_DISCREPANCY: i64 = 137;

/// Number of sales seeded on the day `day` days ago.
pub open spec fn demo_sale_count_spec(day: int) -> int {
    5 + (day * 2) % 6
}

/// Number of sales seeded on the day `day` days ago: between five and nine.
pub fn demo_sale_count(day: i64) -> (r: i64)
    requires
        0 <= day < DEMO_DAYS,
    ensures
        r == demo_sale_count_spec(day as int),
        5 <= r <= 9,
{
    5 + (day * 2) % 6
}

/// One seeded sale: when it happens, what is sold, to whom, and how it is paid.
pub struct DemoSalePlan {
    /// Days before today.
    pub day: i64,
    /// Position of the sale within its day.
    pub index: i64,
    /// Index into the active products, ordered by id.
    pub product_index: usize,
    pub qty: i64,
    /// Hour of the day at which the sale is stamped.
    pub hour: i64,
    /// Index into the seeded loyalty customers, when the sale has one.
    pub customer_index: Option<usize>,
    /// Cash when true, card otherwise.
    pub pays_cash: bool,
}

/// The `k`-th sale of the day `day` days ago, over `n_products` products and
/// `n_customers` loyalty customers.
pub open spec fn demo_sale_plan_spec(day: int, k: int, n_products: int, n_customers: int) -> DemoSalePlan {
    DemoSalePlan {
        day: day as i64,
        index: k as i64,
        product_index: ((day * 7 + k * 3) % n_products) as usize,
        qty: (1 + k % 2) as i64,
        hour: (9 + (k * 11) % 12) as i64,
        customer_index: if k % 4 == 0 {
            Some(((day + k) % n_customers) as usize)
        } else {
            None
        },
        pays_cash: (k + day) % 2 == 0,
    }
}

/// The `k`-th sale of the day `day` days ago.
pub fn plan_demo_sale(day: i64, k: i64, n_products: usize, n_customers: usize) -> (r: DemoSalePlan)
    requires
        0 <= day < DEMO_DAYS,
        0 <= k < demo_sale_count_spec(day as int),
        n_products > 0,
        n_customers > 0,
    ensures
        r == demo_sale_plan_spec(day as int, k as int, n_products as int, n_customers as int),
{
    let product_index: usize = ((day * 7 + k * 3) as usize) % n_products;
    let customer_index: Option<usize> = if k % 4 == 0 {
        Some(((day + k) as usize) % n_customers)
    } else {
        None
    };
    DemoSalePlan {
        day,
        index: k,
        product_index,
        qty: 1 + k % 2,
        hour: 9 + (k * 11) % 12,
        customer_index,
        pays_cash: (k + day) % 2 == 0,
    }
}

/// One seeded day: who works the shift, whether a no-sale drawer event is
/// recorded, and the sales rung up.
pub struct DemoDay {
    pub day: i64,
    /// The manager works the shift when true, the cashier otherwise.
    pub manager_on_shift: bool,
    pub no_sale_event: bool,
    pub sales: Vec<DemoSalePlan>,
}

/// `d` is the seeded day `day` days ago.
pub open spec fn demo_day_ok(d: DemoDay, day: int, n_products: int, n_customers: int) -> bool {
    &&& d.day == day
    &&& d.manager_on_shift == (day % 3 == 0)
    &&& d.no_sale_event == (day % 2 == 0)
    &&& d.sales@.len() == demo_sale_count_spec(day)
    &&& forall|k: int|
        0 <= k < d.sales@.len() ==> #[trigger] d.sales@[k] == demo_sale_plan_spec(
            day,
            k,
            n_products,
            n_customers,
        )
}

/// The seeded day `day` days ago.
pub fn plan_demo_day(day: i64, n_products: usize, n_customers: usize) -> (r: DemoDay)
    requires
        0 <= day < DEMO_DAYS,
        n_products > 0,
        n_customers > 0,
    ensures
        demo_day_ok(r, day as int, n_products as int, n_customers as int),
{
    let n = demo_sale_count(day);
    let mut sales: Vec<DemoSalePlan> = Vec::new();
    let mut k: i64 = 0;
    while k < n
        invariant
            0 <= day < DEMO_DAYS,
            n_products > 0,
            n_customers > 0,
            n == demo_sale_count_spec(day as int),
            0 <= k <= n,
            sales@.len() == k,
            forall|j: int|
                0 <= j < k ==> #[trigger] sales@[j] == demo_sale_plan_spec(
                    day as int,
                    j,
                    n_products as int,
                    n_customers as int,
                ),
        decreases n - k,
    {
        let p = plan_demo_sale(day, k, n_products, n_customers);
        sales.push(p);
        k = k + 1;
    }
    DemoDay { day, manager_on_shift: day % 3 == 0, no_sale_event: day % 2 == 0, sales }
}

/// The seeded week, oldest day first: day `DEMO_DAYS - 1` ago down to today.
/// Refused when there is no active product to sell.
pub fn plan_demo_week(n_products: usize, n_customers: usize) -> (r: Result<Vec<DemoDay>, String>)
    requires
        n_customers > 0,
    ensures
        n_products == 0 ==> (r matches Err(m) && m@ == "No products to seed sales from"@),
        n_products > 0 ==> (r matches Ok(days) && days@.len() == DEMO_DAYS && forall|i: int|
            0 <= i < DEMO_DAYS ==> demo_day_ok(
                #[trigger] days@[i],
                DEMO_DAYS - 1 - i,
                n_products as int,
                n_customers as int,
            )),
{
    if n_products == 0 {
        return Err(String::from_str("No products to seed sales from"));
    }
    let mut days: Vec<DemoDay> = Vec::new();
    let mut i: i64 = 0;
    while i < DEMO_DAYS
        invariant
            n_products > 0,
            n_customers > 0,
            0 <= i <= DEMO_DAYS,
            days@.len() == i,
            forall|j: int|
                0 <= j < i ==> demo_day_ok(
                    #[trigger] days@[j],
                    DEMO_DAYS - 1 - j,
                    n_products as int,
                    n_customers as int,
                ),
        decreases DEMO_DAYS - i,
    {
        let d = plan_demo_day(DEMO_DAYS - 1 - i, n_products, n_customers);
        days.push(d);
        i = i + 1;
    }
    Ok(days)
}

/// Money of one seeded sale: the tax is computed by the caller from the line
/// total; points go to the sale's customer, when it has one.
pub struct DemoSaleFigures {
    pub subtotal: i64,
    pub tax: i64,
    pub total: i64,
    pub points_delta: i64,
}

/// Bonus points of a seeded sale: the product's bonus per unit times the quantity.
pub open spec fn demo_bonus(plan: DemoSalePlan, bonus_points: int) -> int {
    bonus_points * plan.qty
}

pub open spec fn demo_figures_in_range(plan: DemoSalePlan, line_total: int, tax: int, bonus_points: int) -> bool {
    &&& in_i64(line_total + tax)
    &&& in_i64(demo_bonus(plan, bonus_points))
    &&& (plan.customer_index is Some ==> in_i64(
        loyalty_earned_spec(line_total + tax, demo_bonus(plan, bonus_points)),
    ))
}

/// The money of a seeded sale whose line total and tax are known.
pub fn demo_sale_figures(plan: &DemoSalePlan, line_total: i64, tax: i64, bonus_points: i64) -> (r: DemoSaleFigures)
    requires
        demo_figures_in_range(*plan, line_total as int, tax as int, bonus_points as int),
    ensures
        r.subtotal == line_total,
        r.tax == tax,
        r.total == line_total + tax,
        r.points_delta == (if plan.customer_index is Some {
            loyalty_earned_spec(line_total + tax, demo_bonus(*plan, bonus_points as int))
        } else {
            0
        }),
{
    let total = line_total + tax;
    let points_delta = if plan.customer_index.is_some() {
        loyalty_earned(total, bonus_points * plan.qty)
    } else {
        0
    };
    DemoSaleFigures { subtotal: line_total, tax, total, points_delta }
}

/// Whether `demo_sale_figures` can compute these figures without overflow.
pub fn demo_sale_figures_fit(plan: &DemoSalePlan, line_total: i64, tax: i64, bonus_points: i64) -> (r: bool)
    ensures
        r == demo_figures_in_range(*plan, line_total as int, tax as int, bonus_points as int),
{
    match (line_total.checked_add(tax), bonus_points.checked_mul(plan.qty)) {
        (Some(total), Some(bonus)) => {
            if plan.customer_index.is_some() {
                (total / 100).checked_add(bonus).is_some()
            } else {
                true
            }
        },
        _ => false,
    }
}

/// Cash taken by the first `n` seeded sales of a day, whose totals are `totals`.
pub open spec fn demo_cash_taken(sales: Seq<DemoSalePlan>, totals: Seq<i64>, n: int) -> int
    decreases n,
{
    if n <= 0 {
        0
    } else {
        demo_cash_taken(sales, totals, n - 1) + if sales[n - 1].pays_cash {
            totals[n - 1] as int
        } else {
            0int
        }
    }
}

pub open spec fn demo_cash_prefix_ok(sales: Seq<DemoSalePlan>, totals: Seq<i64>, n: int) -> bool {
    &&& in_i64(demo_cash_taken(sales, totals, n))
    &&& in_i64(DEMO_OPENING_FLOAT + demo_cash_taken(sales, totals, n))
}

/// The drawer discrepancy of the demo shift `day` days ago: short, even or over.
pub open spec fn demo_discrepancy(day: int) -> int {
    (day % 3 - 1) * DEMO_DRAWER_DISCREPANCY
}

pub open spec fn demo_shift_in_range(day: int, sales: Seq<DemoSalePlan>, totals: Seq<i64>) -> bool {
    &&& sales.len() == totals.len()
    &&& forall|n: int| 0 <= n <= sales.len() ==> #[trigger] demo_cash_prefix_ok(sales, totals, n)
    &&& in_i64(DEMO_OPENING_FLOAT + demo_cash_taken(sales, totals, sales.len() as int) + demo_discrepancy(day))
}

/// How a seeded shift closes.
pub struct DemoShiftClose {
    pub expected: i64,
    pub counted: i64,
    pub over_short: i64,
}

/// Closing figures of the seeded shift `day` days ago, whose sales are
/// `sales` with totals `totals`: the float plus the cash taken is expected,
/// and the count is off by the day's discrepancy.
pub fn close_demo_shift(day: i64, sales: &Vec<DemoSalePlan>, totals: &Vec<i64>) -> (r: DemoShiftClose)
    requires
        0 <= day < DEMO_DAYS,
        demo_shift_in_range(day as int, sales@, totals@),
    ensures
        r.expected == DEMO_OPENING_FLOAT + demo_cash_taken(sales@, totals@, sales@.len() as int),
        r.counted == r.expected + demo_discrepancy(day as int),
        r.over_short == r.counted - r.expected,
        r.over_short == -DEMO_DRAWER_DISCREPANCY || r.over_short == 0 || r.over_short
            == DEMO_DRAWER_DISCREPANCY,
{
    let mut cash: i64 = 0;
    let mut i: usize = 0;
    while i < sales.len()
        invariant
            i <= sales@.len(),
            demo_shift_in_range(day as int, sales@, totals@),
            cash == demo_cash_taken(sales@, totals@, i as int),
        decreases sales.len() - i,
    {
        assert(demo_cash_prefix_ok(sales@, totals@, i + 1));
        if sales[i].pays_cash {
            cash = cash + totals[i];
        }
        i = i + 1;
    }
    assert(demo_cash_prefix_ok(sales@, totals@, sales@.len() as int));
    let expected = DEMO_OPENING_FLOAT + cash;
    let counted = expected + (day % 3 - 1) * DEMO_DRAWER_DISCREPANCY;
    DemoShiftClose { expected, counted, over_short: counted - expected }
}

/// Whether `close_demo_shift` can compute these figures without overflow.
pub fn demo_shift_fits(day: i64, sales: &Vec<DemoSalePlan>, totals: &Vec<i64>) -> (r: bool)
    requires
        0 <= day < DEMO_DAYS,
    ensures
        r == demo_shift_in_range(day as int, sales@, totals@),
{
    if sales.len() != totals.len() {
        return false;
    }
    let mut cash: i64 = 0;
    let mut i: usize = 0;
    assert(demo_cash_prefix_ok(sales@, totals@, 0));
    while i < sales.len()
        invariant
            sales@.len() == totals@.len(),
            i <= sales@.len(),
            cash == demo_cash_taken(sales@, totals@, i as int),
            forall|n: int| 0 <= n <= i ==> #[trigger] demo_cash_prefix_ok(sales@, totals@, n),
        decreases sales.len() - i,
    {
        if sales[i].pays_cash {
            match cash.checked_add(totals[i]) {
                None => {
                    assert(!demo_cash_prefix_ok(sales@, totals@, i + 1));
                    return false;
                },
                Some(c) => {
                    cash = c;
                },
            }
        }
        if cash.checked_add(DEMO_OPENING_FLOAT).is_none() {
            assert(!demo_cash_prefix_ok(sales@, totals@, i + 1));
            return false;
        }
        assert(demo_cash_prefix_ok(sales@, totals@, i + 1));
        i = i + 1;
    }
    assert(demo_cash_prefix_ok(sales@, totals@, sales@.len() as int));
    match (cash + DEMO_OPENING_FLOAT).checked_add((day % 3 - 1) * DEMO_DRAWER_DISCREPANCY) {
        Some(_) => true,
        None => false,
    }
}

pub open spec fn demo_day_modifier_spec(day: int) -> Seq<char> {
    "-"@ + dec_int(day) + " days"@
}

/// The date modifier that stamps a seeded row `day` days back: "-<day> days".
pub fn demo_day_modifier(day: i64) -> (r: String)
    ensures
        r@ == demo_day_modifier_spec(day as int),
{
    let mut s = String::from_str("-");
    push_i64(&mut s, day);
    s.append(" days");
    s
}

pub open spec fn demo_hour_modifier_spec(hour: int) -> Seq<char> {
    "+"@ + dec_int(hour) + " hours"@
}

/// The time modifier that stamps a seeded sale at `hour`: "+<hour> hours".
pub fn demo_hour_modifier(hour: i64) -> (r: String)
    ensures
        r@ == demo_hour_modifier_spec(hour as int),
{
    let mut s = String::from_str("+");
    push_i64(&mut s, hour);
    s.append(" hours");
    s
}

pub open spec fn demo_reset_message_spec(total_sales: int) -> Seq<char> {
    "Demo reset complete — "@ + dec_int(total_sales)
        + " sales across 7 days, 5 loyalty customers, promos applied."@
}

/// What a finished demo reset reports.
pub fn demo_reset_message(total_sales: i64) -> (r: String)
    ensures
        r@ == demo_reset_message_spec(total_sales as int),
{
    let mut s = String::from_str("Demo reset complete — ");
    push_i64(&mut s, total_sales);
    s.append(" sales across 7 days, 5 loyalty customers, promos applied.");
    s
}

pub open spec fn demo_audit_detail_spec(total_sales: int) -> Seq<char> {
    "{\"sales_seeded\":"@ + dec_int(total_sales) + "}"@
}

/// The audit detail of a demo reset: `{"sales_seeded":<n>}`.
pub fn demo_audit_detail(total_sales: i64) -> (r: String)
    ensures
        r@ == demo_audit_detail_spec(total_sales as int),
{
    let mut s = String::from_str("{\"sales_seeded\":");
    push_i64(&mut s, total_sales);
    s.append("}");
    s
}

pub open spec fn no_account_message_spec(role: Seq<char>) -> Seq<char> {
    "No active "@ + role + " account found"@
}

/// Refusal when no active account of `role` exists to work the demo shifts.
pub fn no_account_message(role: &str) -> (r: String)
    ensures
        r@ == no_account_message_spec(role@),
{
    let mut s = String::from_str("No active ");
    s.append(role);
    s.append(" account found");
    s
}

/// Who may reset the demo: a signed-in user whose role may change settings.
pub fn check_demo_reset(session: &Option<SessionInfo>) -> (r: Result<SessionInfo, String>)
    ensures
        session is None ==> (r matches Err(m) && m@ == "Not signed in"@),
        session matches Some(s) ==> (if role_can_spec(s.role@, "settings"@) {
            r == Ok::<SessionInfo, String>(*s)
        } else {
            r matches Err(m) && m@ == "Demo reset requires a manager"@
        }),
{
    match session {
        None => Err(String::from_str("Not signed in")),
        Some(s) => {
            if role_can(s.role.as_str(), "settings") {
                Ok(s.clone())
            } else {
                Err(String::from_str("Demo reset requires a manager"))
            }
        },
    }
}

// ---------------------------------------------------------------------------
// Laws
// ---------------------------------------------------------------------------

/// A demo drawer count is never off by more than the demo discrepancy: the
/// seeded shifts are short by it, even, or over by it.
pub proof fn lemma_demo_discrepancy_is_small(day: int)
    requires
        0 <= day,
    ensures
        demo_discrepancy(day) == -DEMO_DRAWER_DISCREPANCY || demo_discrepancy(day) == 0
            || demo_discrepancy(day) == DEMO_DRAWER_DISCREPANCY,
{
}

/// The seeded week does not depend on anything but the number of products and
/// customers: two plans made from the same counts agree day by day and sale
/// by sale.
pub proof fn lemma_demo_week_is_deterministic(a: Seq<DemoDay>, b: Seq<DemoDay>, n_products: int, n_customers: int)
    requires
        a.len() == DEMO_DAYS,
        b.len() == DEMO_DAYS,
        forall|i: int| 0 <= i < DEMO_DAYS ==> demo_day_ok(#[trigger] a[i], DEMO_DAYS - 1 - i, n_products, n_customers),
        forall|i: int| 0 <= i < DEMO_DAYS ==> demo_day_ok(#[trigger] b[i], DEMO_DAYS - 1 - i, n_products, n_customers),
    ensures
        forall|i: int| 0 <= i < DEMO_DAYS ==> {
            &&& #[trigger] a[i].day == b[i].day
            &&& a[i].manager_on_shift == b[i].manager_on_shift
            &&& a[i].no_sale_event == b[i].no_sale_event
            &&& a[i].sales@ == b[i].sales@
        },
{
    assert forall|i: int| 0 <= i < DEMO_DAYS implies {
        &&& #[trigger] a[i].day == b[i].day
        &&& a[i].manager_on_shift == b[i].manager_on_shift
        &&& a[i].no_sale_event == b[i].no_sale_event
        &&& a[i].sales@ == b[i].sales@
    } by {
        assert(demo_day_ok(a[i], DEMO_DAYS - 1 - i, n_products, n_customers));
        assert(demo_day_ok(b[i], DEMO_DAYS - 1 - i, n_products, n_customers));
        assert(a[i].sales@ =~= b[i].sales@);
    }
}

} // verus!
