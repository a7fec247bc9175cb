//! The checkout computation. The client sends intent (product ids, quantities,
//! tender, redemption flag); every price, promotion, loyalty figure and the
//! change due is recomputed here from the catalog records.
//!
//! A sale goes through these steps:
//! 1. `start_sale`: the cart is not empty and a cashier is signed in;
//! 2. `price_line` for each cart line, against the product as stored;
//! 3. `tally_lines` with each line's tax: sums, and the age-verification gate;
//! 4. `settle_sale`: loyalty redemption, total, tender check, points and change;
//! 5. `make_receipt`: the receipt handed back to the register.

use vstd::prelude::*;
use vstd::string::StringExecFns;
use crate::models::SessionInfo;
use crate::pricing::{historical_unit_cost, in_i64, loyalty_earned, loyalty_earned_spec, loyalty_redemption, not_enough_points_message, promo_in_range, promo_line_total, promo_line_total_fits, promo_line_total_spec};
use crate::text::{dec_int, push_i64, str_eq};

verus! {

/// One cart line as the client sends it.
pub struct SaleLine {
    pub product_id: i64,
    pub qty: i64,
    /// Only honoured for open-price items.
    pub manual_price: Option<i64>,
}

/// The tender: its kind ("cash" | "card") and the amount handed over.
pub struct Tender {
    pub kind: String,
    pub tendered: i64,
}

pub struct CreateSalePayload {
    pub items: Vec<SaleLine>,
    pub tender: Tender,
    pub age_verified: bool,
    pub customer_id: Option<i64>,
    pub redeem_points: bool,
}

pub struct ReceiptItem {
    pub name: String,
    pub qty: i64,
    pub unit_price: i64,
    pub line_total: i64,
}

pub struct Receipt {
    pub id: i64,
    pub store_name: String,
    pub footer: String,
    pub cashier: String,
    pub created_at: String,
    pub subtotal: i64,
    pub tax: i64,
    pub discount: i64,
    pub total: i64,
    pub tender_kind: String,
    pub tendered: i64,
    pub change: i64,
    pub points_earned: i64,
    pub points_redeemed: i64,
    pub points_balance: Option<i64>,
    pub items: Vec<ReceiptItem>,
}

/// The catalog record a line is priced against (active products only).
pub struct ProductRecord {
    pub id: i64,
    pub name: String,
    pub price: i64,
    pub cost: i64,
    pub age_restricted: bool,
    pub bonus_points: i64,
    pub promo_type: String,
    pub promo_value: i64,
    pub open_price: bool,
}

/// A cart line priced against the catalog.
pub struct PricedLine {
    pub product_id: i64,
    pub name: String,
    pub qty: i64,
    pub unit_price: i64,
    pub unit_cost: i64,
    pub line_total: i64,
    /// The product's bonus points times the quantity.
    pub bonus_points: i64,
    pub age_restricted: bool,
    /// The unit price was entered by hand (open-price item).
    pub manual_price: bool,
}

/// Sums over the priced lines.
pub struct SaleTotals {
    pub subtotal: i64,
    pub tax: i64,
    pub bonus_points: i64,
    pub manual_lines: i64,
    pub needs_age: bool,
}

/// The money and loyalty outcome of a sale.
pub struct Settlement {
    pub gross: i64,
    pub discount: i64,
    pub points_redeemed: i64,
    pub total: i64,
    pub points_earned: i64,
    pub points_delta: i64,
    pub change: i64,
}

pub enum SaleError {
    EmptyCart,
    NoCashier,
    QuantityNotPositive,
    UnknownProduct(i64),
    ManualPriceNotAllowed(String),
    ManualPriceOutOfRange,
    AgeVerificationRequired,
    /// Not enough loyalty points; holds the message shown to the cashier.
    Redemption(String),
    InsufficientTender,
}

pub open spec fn sale_error_message(e: SaleError) -> Seq<char> {
    match e {
        SaleError::EmptyCart => "Cart is empty"@,
        SaleError::NoCashier => "No cashier is signed in"@,
        SaleError::QuantityNotPositive => "Quantity must be positive"@,
        SaleError::UnknownProduct(id) => "Unknown product "@ + dec_int(id as int),
        SaleError::ManualPriceNotAllowed(name) => name@ + " does not allow manual pricing"@,
        SaleError::ManualPriceOutOfRange => "Manual price out of range"@,
        SaleError::AgeVerificationRequired => "AGE_VERIFICATION_REQUIRED"@,
        SaleError::Redemption(m) => m@,
        SaleError::InsufficientTender => "Insufficient tender"@,
    }
}

impl SaleError {
    /// The text the register shows (and matches on, for the age prompt).
    pub fn message(&self) -> (r: String)
        ensures
            r@ == sale_error_message(*self),
    {
        match self {
            SaleError::EmptyCart => String::from_str("Cart is empty"),
            SaleError::NoCashier => String::from_str("No cashier is signed in"),
            SaleError::QuantityNotPositive => String::from_str("Quantity must be positive"),
            SaleError::UnknownProduct(id) => {
                let mut m = String::from_str("Unknown product ");
                push_i64(&mut m, *id);
                m
            },
            SaleError::ManualPriceNotAllowed(name) => {
                let mut m = String::from_str(name.as_str());
                m.append(" does not allow manual pricing");
                m
            },
            SaleError::ManualPriceOutOfRange => String::from_str("Manual price out of range"),
            SaleError::AgeVerificationRequired => String::from_str("AGE_VERIFICATION_REQUIRED"),
            SaleError::Redemption(m) => String::from_str(m.as_str()),
            SaleError::InsufficientTender => String::from_str("Insufficient tender"),
        }
    }
}

// ---------------------------------------------------------------------------
// Step 1: the cart and the cashier
// ---------------------------------------------------------------------------

/// A sale needs a non-empty cart and a signed-in cashier; returns the
/// cashier's id and name.
pub fn start_sale(payload: &CreateSalePayload, session: &Option<SessionInfo>) -> (r: Result<(i64, String), SaleError>)
    ensures
        payload.items.len() == 0 ==> r matches Err(SaleError::EmptyCart),
        payload.items.len() > 0 && session is None ==> r matches Err(SaleError::NoCashier),
        session matches Some(s) ==> (payload.items.len() > 0 ==> (r matches Ok((id, name)) && id == s.cashier_id && name@ == s.name@)),
{
    if payload.items.len() == 0 {
        return Err(SaleError::EmptyCart);
    }
    match session {
        None => Err(SaleError::NoCashier),
        Some(s) => Ok((s.cashier_id, s.name.clone())),
    }
}

/// The customer whose point balance must be read: only when a customer is
/// attached and a redemption was asked for.
pub fn redemption_customer(payload: &CreateSalePayload) -> (r: Option<i64>)
    ensures
        r == (if payload.redeem_points { payload.customer_id } else { None::<i64> }),
{
    if payload.redeem_points { payload.customer_id } else { None }
}

// ---------------------------------------------------------------------------
// Step 2: pricing one line
// ---------------------------------------------------------------------------

/// The unit price a line sells at: a hand-entered price when given, else the
/// catalog price.
pub open spec fn chosen_unit_price(line: SaleLine, p: ProductRecord) -> int {
    match line.manual_price {
        Some(mp) => mp as int,
        None => p.price as int,
    }
}

/// The line passes the quantity and manual-price checks.
pub open spec fn line_acceptable(line: SaleLine, p: ProductRecord) -> bool {
    &&& line.qty > 0
    &&& line.manual_price matches Some(mp) ==> p.open_price && 0 < mp <= 1_000_000
}

/// The line's arithmetic fits in `i64`.
pub open spec fn line_in_range(line: SaleLine, p: ProductRecord) -> bool {
    &&& promo_in_range(chosen_unit_price(line, p), line.qty as int, p.promo_type@, p.promo_value as int)
    &&& in_i64(p.bonus_points * line.qty)
}

pub open spec fn priced_line_spec(line: SaleLine, p: ProductRecord) -> PricedLine {
    PricedLine {
        product_id: p.id,
        name: p.name,
        qty: line.qty,
        unit_price: chosen_unit_price(line, p) as i64,
        unit_cost: p.cost,
        line_total: promo_line_total_spec(chosen_unit_price(line, p), line.qty as int, p.promo_type@, p.promo_value as int) as i64,
        bonus_points: (p.bonus_points * line.qty) as i64,
        age_restricted: p.age_restricted,
        manual_price: line.manual_price is Some,
    }
}

/// A priced line earns the product's bonus points once per unit sold: its
/// bonus is the product's bonus times the quantity, so a line of twice the
/// quantity earns twice the bonus.
pub proof fn lemma_line_bonus_is_per_unit(line: SaleLine, p: ProductRecord, twice: SaleLine)
    requires
        line_in_range(line, p),
        line_in_range(twice, p),
        twice.qty == 2 * line.qty,
    ensures
        priced_line_spec(line, p).bonus_points == p.bonus_points * line.qty,
        priced_line_spec(twice, p).bonus_points == 2 * priced_line_spec(line, p).bonus_points,
{
    assert(p.bonus_points * twice.qty == 2 * (p.bonus_points * line.qty)) by (nonlinear_arith)
        requires twice.qty == 2 * line.qty;
}

/// Prices a cart line against its catalog record (`None`: no active product
/// with that id). The unit price is the catalog's unless the item is open-price
/// and a price in 1..=1_000_000 cents was entered; the cost is always the
/// catalog's.
pub fn price_line(line: &SaleLine, product: Option<&ProductRecord>) -> (r: Result<PricedLine, SaleError>)
    requires
        product matches Some(p) ==> (line_acceptable(*line, *p) ==> line_in_range(*line, *p)),
    ensures
        line.qty <= 0 ==> r matches Err(SaleError::QuantityNotPositive),
        line.qty > 0 && product is None ==> (r matches Err(SaleError::UnknownProduct(id)) && id == line.product_id),
        product matches Some(p) ==> (line.qty > 0 ==> match line.manual_price {
            Some(mp) => if !p.open_price {
                r matches Err(SaleError::ManualPriceNotAllowed(n)) && n@ == p.name@
            } else if mp <= 0 || mp > 1_000_000 {
                r matches Err(SaleError::ManualPriceOutOfRange)
            } else {
                r == Ok::<PricedLine, SaleError>(priced_line_spec(*line, *p))
            },
            None => r == Ok::<PricedLine, SaleError>(priced_line_spec(*line, *p)),
        }),
        product matches Some(p) ==> (r matches Ok(pl) ==> pl.qty == line.qty && pl.product_id == p.id
            && pl.bonus_points == p.bonus_points * line.qty),
{
    if line.qty <= 0 {
        return Err(SaleError::QuantityNotPositive);
    }
    let p = match product {
        None => return Err(SaleError::UnknownProduct(line.product_id)),
        Some(p) => p,
    };
    let unit_price = match line.manual_price {
        Some(mp) => {
            if !p.open_price {
                return Err(SaleError::ManualPriceNotAllowed(p.name.clone()));
            }
            if mp <= 0 || mp > 1_000_000 {
                return Err(SaleError::ManualPriceOutOfRange);
            }
            mp
        },
        None => p.price,
    };
    let line_total = promo_line_total(unit_price, line.qty, p.promo_type.as_str(), p.promo_value);
    let unit_cost = historical_unit_cost(p.cost, None);
    Ok(PricedLine {
        product_id: p.id,
        name: p.name.clone(),
        qty: line.qty,
        unit_price,
        unit_cost,
        line_total,
        bonus_points: p.bonus_points * line.qty,
        age_restricted: p.age_restricted,
        manual_price: line.manual_price.is_some(),
    })
}

/// Whether the line passes the quantity and manual-price checks of `price_line`.
pub fn line_is_acceptable(line: &SaleLine, p: &ProductRecord) -> (r: bool)
    ensures
        r == line_acceptable(*line, *p),
{
    line.qty > 0 && match line.manual_price {
        Some(mp) => p.open_price && 0 < mp && mp <= 1_000_000,
        None => true,
    }
}

/// Whether `price_line` can price this line without overflow.
pub fn line_fits(line: &SaleLine, p: &ProductRecord) -> (r: bool)
    ensures
        r == line_in_range(*line, *p),
{
    let unit_price = match line.manual_price {
        Some(mp) => mp,
        None => p.price,
    };
    promo_line_total_fits(unit_price, line.qty, p.promo_type.as_str(), p.promo_value)
        && p.bonus_points.checked_mul(line.qty).is_some()
}

// ---------------------------------------------------------------------------
// Step 3: tallying the lines
// ---------------------------------------------------------------------------

pub open spec fn sum_of(s: Seq<int>) -> int
    decreases s.len(),
{
    if s.len() == 0 { 0 } else { sum_of(s.drop_last()) + s.last() }
}

/// Every running total of `s`, from the first element on, fits in `i64`.
pub open spec fn running_sums_in_range(s: Seq<int>) -> bool {
    forall|k: int| 0 <= k <= s.len() ==> in_i64(#[trigger] sum_of(s.take(k)))
}

pub open spec fn line_totals(lines: Seq<PricedLine>) -> Seq<int> {
    lines.map_values(|l: PricedLine| l.line_total as int)
}

pub open spec fn line_bonus(lines: Seq<PricedLine>) -> Seq<int> {
    lines.map_values(|l: PricedLine| l.bonus_points as int)
}

pub open spec fn line_manual(lines: Seq<PricedLine>) -> Seq<int> {
    lines.map_values(|l: PricedLine| if l.manual_price { 1int } else { 0int })
}

pub open spec fn ints(s: Seq<i64>) -> Seq<int> {
    s.map_values(|t: i64| t as int)
}

pub open spec fn any_age_restricted(lines: Seq<PricedLine>) -> bool {
    exists|i: int| 0 <= i < lines.len() && (#[trigger] lines[i]).age_restricted
}

proof fn lemma_sum_step(s: Seq<int>, i: int)
    requires
        0 <= i < s.len(),
    ensures
        sum_of(s.take(i + 1)) == sum_of(s.take(i)) + s[i],
{
    assert(s.take(i + 1).drop_last() =~= s.take(i));
}

proof fn lemma_count_bounds(s: Seq<int>)
    requires
        forall|i: int| 0 <= i < s.len() ==> 0 <= #[trigger] s[i] <= 1,
    ensures
        0 <= sum_of(s) <= s.len(),
    decreases s.len(),
{
    if s.len() > 0 {
        lemma_count_bounds(s.drop_last());
    }
}

/// Sums the priced lines (with `taxes[i]` the tax of `lines[i]`) and applies
/// the age gate: a cart holding an age-restricted item needs `age_verified`.
pub fn tally_lines(lines: &Vec<PricedLine>, taxes: &Vec<i64>, age_verified: bool) -> (r: Result<SaleTotals, SaleError>)
    requires
        lines.len() == taxes.len(),
        lines.len() <= i64::MAX,
        running_sums_in_range(line_totals(lines@)),
        running_sums_in_range(ints(taxes@)),
        running_sums_in_range(line_bonus(lines@)),
    ensures
        any_age_restricted(lines@) && !age_verified ==> r matches Err(SaleError::AgeVerificationRequired),
        !(any_age_restricted(lines@) && !age_verified) ==> (r matches Ok(t) && {
            &&& t.subtotal == sum_of(line_totals(lines@))
            &&& t.tax == sum_of(ints(taxes@))
            &&& t.bonus_points == sum_of(line_bonus(lines@))
            &&& t.manual_lines == sum_of(line_manual(lines@))
            &&& t.needs_age == any_age_restricted(lines@)
        }),
{
    let ghost totals = line_totals(lines@);
    let ghost tx = ints(taxes@);
    let ghost bonus = line_bonus(lines@);
    let ghost manual = line_manual(lines@);
    let mut subtotal: i64 = 0;
    let mut tax: i64 = 0;
    let mut bonus_points: i64 = 0;
    let mut manual_lines: i64 = 0;
    let mut needs_age = false;
    let mut i: usize = 0;
    while i < lines.len()
        invariant
            i <= lines.len(),
            lines.len() == taxes.len(),
            lines.len() <= i64::MAX,
            totals == line_totals(lines@),
            tx == ints(taxes@),
            bonus == line_bonus(lines@),
            manual == line_manual(lines@),
            running_sums_in_range(totals),
            running_sums_in_range(tx),
            running_sums_in_range(bonus),
            subtotal == sum_of(totals.take(i as int)),
            tax == sum_of(tx.take(i as int)),
            bonus_points == sum_of(bonus.take(i as int)),
            manual_lines == sum_of(manual.take(i as int)),
            needs_age == (exists|k: int| 0 <= k < i && (#[trigger] lines@[k]).age_restricted),
        decreases lines.len() - i,
    {
        let line = &lines[i];
        proof {
            lemma_sum_step(totals, i as int);
            lemma_sum_step(tx, i as int);
            lemma_sum_step(bonus, i as int);
            lemma_sum_step(manual, i as int);
            assert(in_i64(sum_of(totals.take(i + 1))));
            assert(in_i64(sum_of(tx.take(i + 1))));
            assert(in_i64(sum_of(bonus.take(i + 1))));
            assert forall|k: int| 0 <= k < manual.take(i + 1).len() implies 0 <= #[trigger] manual.take(i + 1)[k] <= 1 by {}
            lemma_count_bounds(manual.take(i + 1));
        }
        subtotal = subtotal + line.line_total;
        tax = tax + taxes[i];
        bonus_points = bonus_points + line.bonus_points;
        if line.manual_price {
            manual_lines = manual_lines + 1;
        }
        if line.age_restricted {
            needs_age = true;
        }
        i = i + 1;
    }
    proof {
        assert(totals.take(i as int) =~= totals);
        assert(tx.take(i as int) =~= tx);
        assert(bonus.take(i as int) =~= bonus);
        assert(manual.take(i as int) =~= manual);
    }
    if needs_age && !age_verified {
        return Err(SaleError::AgeVerificationRequired);
    }
    Ok(SaleTotals { subtotal, tax, bonus_points, manual_lines, needs_age })
}

/// The conditions under which `tally_lines` can sum the lines without overflow.
pub open spec fn tally_in_range(lines: Seq<PricedLine>, taxes: Seq<i64>) -> bool {
    &&& lines.len() == taxes.len()
    &&& lines.len() <= i64::MAX
    &&& running_sums_in_range(line_totals(lines))
    &&& running_sums_in_range(ints(taxes))
    &&& running_sums_in_range(line_bonus(lines))
}

/// Whether `tally_lines` can sum these lines and taxes without overflow.
pub fn tally_fits(lines: &Vec<PricedLine>, taxes: &Vec<i64>) -> (r: bool)
    ensures
        r == tally_in_range(lines@, taxes@),
{
    if lines.len() != taxes.len() {
        return false;
    }
    if lines.len() as u128 > i64::MAX as u128 {
        return false;
    }
    let ghost totals = line_totals(lines@);
    let ghost tx = ints(taxes@);
    let ghost bonus = line_bonus(lines@);
    let mut subtotal: i64 = 0;
    let mut tax: i64 = 0;
    let mut bonus_points: i64 = 0;
    let mut i: usize = 0;
    assert(totals.take(0) =~= Seq::<int>::empty());
    assert(tx.take(0) =~= Seq::<int>::empty());
    assert(bonus.take(0) =~= Seq::<int>::empty());
    while i < lines.len()
        invariant
            i <= lines.len(),
            lines.len() == taxes.len(),
            totals == line_totals(lines@),
            tx == ints(taxes@),
            bonus == line_bonus(lines@),
            subtotal == sum_of(totals.take(i as int)),
            tax == sum_of(tx.take(i as int)),
            bonus_points == sum_of(bonus.take(i as int)),
            forall|k: int| 0 <= k <= i ==> in_i64(#[trigger] sum_of(totals.take(k))),
            forall|k: int| 0 <= k <= i ==> in_i64(#[trigger] sum_of(tx.take(k))),
            forall|k: int| 0 <= k <= i ==> in_i64(#[trigger] sum_of(bonus.take(k))),
        decreases lines.len() - i,
    {
        proof {
            lemma_sum_step(totals, i as int);
            lemma_sum_step(tx, i as int);
            lemma_sum_step(bonus, i as int);
        }
        let line = &lines[i];
        match subtotal.checked_add(line.line_total) {
            None => {
                assert(!in_i64(sum_of(totals.take(i + 1))));
                return false;
            },
            Some(v) => {
                subtotal = v;
            },
        }
        match tax.checked_add(taxes[i]) {
            None => {
                assert(!in_i64(sum_of(tx.take(i + 1))));
                return false;
            },
            Some(v) => {
                tax = v;
            },
        }
        match bonus_points.checked_add(line.bonus_points) {
            None => {
                assert(!in_i64(sum_of(bonus.take(i + 1))));
                return false;
            },
            Some(v) => {
                bonus_points = v;
            },
        }
        i = i + 1;
    }
    true
}

// ---------------------------------------------------------------------------
// Step 4: settling the sale
// ---------------------------------------------------------------------------

pub open spec fn gross_of(t: SaleTotals) -> int {
    t.subtotal + t.tax
}

/// (discount, points consumed) for a redemption against balance `balance`
/// (`None`: no redemption asked for).
pub open spec fn redemption_of(t: SaleTotals, balance: Option<i64>, threshold: int, reward: int) -> (int, int) {
    match balance {
        None => (0, 0),
        Some(_) => (if reward <= gross_of(t) { reward } else { gross_of(t) }, threshold),
    }
}

pub open spec fn total_of(t: SaleTotals, balance: Option<i64>, threshold: int, reward: int) -> int {
    gross_of(t) - redemption_of(t, balance, threshold, reward).0
}

pub open spec fn earned_of(t: SaleTotals, balance: Option<i64>, threshold: int, reward: int) -> int {
    loyalty_earned_spec(total_of(t, balance, threshold, reward), t.bonus_points as int)
}

/// The settlement's arithmetic fits in `i64`.
pub open spec fn settlement_in_range(t: SaleTotals, balance: Option<i64>, threshold: int, reward: int) -> bool {
    &&& in_i64(gross_of(t))
    &&& in_i64(total_of(t, balance, threshold, reward))
    &&& in_i64(earned_of(t, balance, threshold, reward))
    &&& in_i64(earned_of(t, balance, threshold, reward) - redemption_of(t, balance, threshold, reward).1)
}

/// A loyalty reward is capped at the sale's gross: redeeming takes off the
/// reward or the whole gross, whichever is smaller, and never more; without a
/// redemption nothing is taken off. So a sale of non-negative gross never
/// totals below zero, and the store never pays the customer to redeem.
pub proof fn lemma_reward_capped_at_gross(t: SaleTotals, balance: Option<i64>, threshold: int, reward: int)
    ensures
        gross_of(t) >= 0 ==> redemption_of(t, balance, threshold, reward).0 <= gross_of(t),
        balance is None ==> redemption_of(t, balance, threshold, reward) == (0int, 0int),
        balance is Some ==> {
            let d = redemption_of(t, balance, threshold, reward).0;
            &&& d <= reward
            &&& d <= gross_of(t)
            &&& (d == reward || d == gross_of(t))
            &&& redemption_of(t, balance, threshold, reward).1 == threshold
        },
        gross_of(t) >= 0 ==> total_of(t, balance, threshold, reward) >= 0,
        total_of(t, balance, threshold, reward) == gross_of(t) - redemption_of(t, balance, threshold, reward).0,
{
}

pub open spec fn is_cash(kind: Seq<char>) -> bool {
    kind == "cash"@
}

/// Settles the sale: the loyalty redemption (when a balance is given, the
/// customer asked to redeem), the total, the tender check, the points earned
/// and the change (cash only).
pub fn settle_sale(totals: &SaleTotals, balance: Option<i64>, tender: &Tender, threshold: i64, reward: i64) -> (r: Result<Settlement, SaleError>)
    requires
        settlement_in_range(*totals, balance, threshold as int, reward as int),
        is_cash(tender.kind@) ==> in_i64(tender.tendered - total_of(*totals, balance, threshold as int, reward as int)),
    ensures
        balance matches Some(b) ==> (b < threshold ==> (r matches Err(SaleError::Redemption(m))
            && m@ == not_enough_points_message(threshold as int))),
        !(balance matches Some(b) && b < threshold) && tender.tendered < total_of(*totals, balance, threshold as int, reward as int)
            ==> r matches Err(SaleError::InsufficientTender),
        !(balance matches Some(b) && b < threshold) && tender.tendered >= total_of(*totals, balance, threshold as int, reward as int)
            ==> (r matches Ok(s) && {
                let (discount, redeemed) = redemption_of(*totals, balance, threshold as int, reward as int);
                &&& s.gross == gross_of(*totals)
                &&& s.discount == discount
                &&& s.points_redeemed == redeemed
                &&& s.total == s.gross - s.discount
                &&& s.points_earned == loyalty_earned_spec(s.total as int, totals.bonus_points as int)
                &&& s.points_delta == s.points_earned - s.points_redeemed
                &&& s.change == (if is_cash(tender.kind@) { tender.tendered - s.total } else { 0 })
            }),
        r matches Ok(s) ==> {
            &&& s.gross == totals.subtotal + totals.tax
            &&& s.gross >= 0 ==> s.discount <= s.gross
            &&& balance is None ==> s.discount == 0 && s.points_redeemed == 0
            &&& balance is Some ==> s.discount <= reward && s.discount <= s.gross && (s.discount == reward || s.discount == s.gross)
                && s.points_redeemed == threshold
            &&& s.gross >= 0 ==> s.total >= 0
            &&& s.total <= tender.tendered
        },
{
    let gross = totals.subtotal + totals.tax;
    let mut discount: i64 = 0;
    let mut redeemed: i64 = 0;
    if let Some(b) = balance {
        match loyalty_redemption(b, true, threshold, reward, gross) {
            Ok((d, p)) => {
                discount = d;
                redeemed = p;
            },
            Err(m) => return Err(SaleError::Redemption(m)),
        }
    }
    let total = gross - discount;
    let points_earned = loyalty_earned(total, totals.bonus_points);
    let points_delta = points_earned - redeemed;
    if tender.tendered < total {
        return Err(SaleError::InsufficientTender);
    }
    let change = if str_eq(tender.kind.as_str(), "cash") { tender.tendered - total } else { 0 };
    Ok(Settlement { gross, discount, points_redeemed: redeemed, total, points_earned, points_delta, change })
}

/// The conditions under which `settle_sale` can settle without overflow.
pub open spec fn settle_in_range(t: SaleTotals, balance: Option<i64>, tender: Tender, threshold: int, reward: int) -> bool {
    &&& settlement_in_range(t, balance, threshold, reward)
    &&& (is_cash(tender.kind@) ==> in_i64(tender.tendered - total_of(t, balance, threshold, reward)))
}

/// Whether `settle_sale` can settle this sale without overflow.
pub fn settlement_fits(totals: &SaleTotals, balance: Option<i64>, tender: &Tender, threshold: i64, reward: i64) -> (r: bool)
    ensures
        r == settle_in_range(*totals, balance, *tender, threshold as int, reward as int),
{
    let gross = match totals.subtotal.checked_add(totals.tax) {
        None => return false,
        Some(g) => g,
    };
    let discount: i64 = match balance {
        None => 0,
        Some(_) => if reward <= gross { reward } else { gross },
    };
    let redeemed: i64 = match balance {
        None => 0,
        Some(_) => threshold,
    };
    let total = match gross.checked_sub(discount) {
        None => return false,
        Some(t) => t,
    };
    let earned = match (total / 100).checked_add(totals.bonus_points) {
        None => return false,
        Some(e) => e,
    };
    if earned.checked_sub(redeemed).is_none() {
        return false;
    }
    if str_eq(tender.kind.as_str(), "cash") {
        tender.tendered.checked_sub(total).is_some()
    } else {
        true
    }
}

// ---------------------------------------------------------------------------
// Step 5: the receipt
// ---------------------------------------------------------------------------

pub open spec fn receipt_item_of(l: PricedLine) -> ReceiptItem {
    ReceiptItem { name: l.name, qty: l.qty, unit_price: l.unit_price, line_total: l.line_total }
}

/// The receipt for a committed sale: `id`, `created_at` and the customer's new
/// `points_balance` come from the store; everything else from the computation.
pub fn make_receipt(
    id: i64,
    store_name: String,
    footer: String,
    cashier: String,
    created_at: String,
    lines: &Vec<PricedLine>,
    totals: &SaleTotals,
    settlement: &Settlement,
    tender: &Tender,
    points_balance: Option<i64>,
) -> (r: Receipt)
    ensures
        r.id == id,
        r.store_name == store_name,
        r.footer == footer,
        r.cashier == cashier,
        r.created_at == created_at,
        r.subtotal == totals.subtotal,
        r.tax == totals.tax,
        r.discount == settlement.discount,
        r.total == settlement.total,
        r.tender_kind@ == tender.kind@,
        r.tendered == tender.tendered,
        r.change == settlement.change,
        r.points_earned == settlement.points_earned,
        r.points_redeemed == settlement.points_redeemed,
        r.points_balance == points_balance,
        r.items@.len() == lines@.len(),
        forall|i: int| 0 <= i < lines@.len() ==> #[trigger] r.items@[i] == receipt_item_of(lines@[i]),
{
    let mut items: Vec<ReceiptItem> = Vec::new();
    let mut i: usize = 0;
    while i < lines.len()
        invariant
            i <= lines.len(),
            items@.len() == i,
            forall|k: int| 0 <= k < i ==> #[trigger] items@[k] == receipt_item_of(lines@[k]),
        decreases lines.len() - i,
    {
        let l = &lines[i];
        items.push(ReceiptItem { name: l.name.clone(), qty: l.qty, unit_price: l.unit_price, line_total: l.line_total });
        i = i + 1;
    }
    Receipt {
        id,
        store_name,
        footer,
        cashier,
        created_at,
        subtotal: totals.subtotal,
        tax: totals.tax,
        discount: settlement.discount,
        total: settlement.total,
        tender_kind: tender.kind.clone(),
        tendered: tender.tendered,
        change: settlement.change,
        points_earned: settlement.points_earned,
        points_redeemed: settlement.points_redeemed,
        points_balance,
        items,
    }
}

} // verus!
