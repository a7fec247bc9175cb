//! Pricing rules: promotion-aware line totals, loyalty earn and redemption,
//! and the historical-cost rule. All money is integer cents.

use vstd::prelude::*;
use vstd::string::StringExecFns;
use crate::text::{dec_int, push_i64, str_eq};

verus! {

/// `a / b` as Rust computes it for `i64` (rounding toward zero), for `b > 0`.
pub open spec fn trunc_div(a: int, b: int) -> int {
    if a >= 0 { a / b } else { -((-a) / b) }
}

pub open spec fn in_i64(x: int) -> bool {
    i64::MIN <= x <= i64::MAX
}

pub open spec fn clamp_pct(v: int) -> int {
    if v < 0 { 0 } else if v > 100 { 100 } else { v }
}

/// Units of a line that pay full price under a "every second unit" promotion.
pub open spec fn full_units(qty: int) -> int {
    qty - trunc_div(qty, 2)
}

/// The second-unit price under a "second unit `pct` percent off" promotion.
pub open spec fn discounted_unit_price(unit_price: int, value: int) -> int {
    trunc_div(unit_price * (100 - clamp_pct(value)), 100)
}

/// Promotion-aware line total:
/// - `bogo`: every second unit is free;
/// - `second_pct`: every second unit is `value` percent off (clamped to 0..=100);
/// - anything else: price times quantity.
pub open spec fn promo_line_total_spec(unit_price: int, qty: int, promo: Seq<char>, value: int) -> int {
    if promo == "bogo"@ {
        unit_price * full_units(qty)
    } else if promo == "second_pct"@ {
        unit_price * full_units(qty) + discounted_unit_price(unit_price, value) * trunc_div(qty, 2)
    } else {
        unit_price * qty
    }
}

/// Every intermediate product and sum of the line-total computation fits in `i64`.
pub open spec fn promo_in_range(unit_price: int, qty: int, promo: Seq<char>, value: int) -> bool {
    if promo == "bogo"@ {
        in_i64(unit_price * full_units(qty))
    } else if promo == "second_pct"@ {
        &&& in_i64(unit_price * (100 - clamp_pct(value)))
        &&& in_i64(unit_price * full_units(qty))
        &&& in_i64(discounted_unit_price(unit_price, value) * trunc_div(qty, 2))
        &&& in_i64(promo_line_total_spec(unit_price, qty, promo, value))
    } else {
        in_i64(unit_price * qty)
    }
}

/// Promotion-aware line total (see `promo_line_total_spec`).
pub fn promo_line_total(unit_price: i64, qty: i64, promo_type: &str, promo_value: i64) -> (r: i64)
    requires
        promo_in_range(unit_price as int, qty as int, promo_type@, promo_value as int),
    ensures
        r as int == promo_line_total_spec(unit_price as int, qty as int, promo_type@, promo_value as int),
{
    if str_eq(promo_type, "bogo") {
        let free = qty / 2;
        unit_price * (qty - free)
    } else if str_eq(promo_type, "second_pct") {
        let discounted_units = qty / 2;
        let full = qty - discounted_units;
        let pct = if promo_value < 0 { 0 } else if promo_value > 100 { 100 } else { promo_value };
        let discounted_price = unit_price * (100 - pct) / 100;
        unit_price * full + discounted_price * discounted_units
    } else {
        unit_price * qty
    }
}

/// Whether `promo_line_total` can compute this line without overflow.
pub fn promo_line_total_fits(unit_price: i64, qty: i64, promo_type: &str, promo_value: i64) -> (r: bool)
    ensures
        r == promo_in_range(unit_price as int, qty as int, promo_type@, promo_value as int),
{
    let discounted_units = qty / 2;
    let full = qty - discounted_units;
    if str_eq(promo_type, "bogo") {
        unit_price.checked_mul(full).is_some()
    } else if str_eq(promo_type, "second_pct") {
        let pct = if promo_value < 0 { 0 } else if promo_value > 100 { 100 } else { promo_value };
        match unit_price.checked_mul(100 - pct) {
            None => false,
            Some(scaled) => {
                let discounted_price = scaled / 100;
                match (unit_price.checked_mul(full), discounted_price.checked_mul(discounted_units)) {
                    (Some(a), Some(b)) => a.checked_add(b).is_some(),
                    _ => false,
                }
            },
        }
    } else {
        unit_price.checked_mul(qty).is_some()
    }
}

/// Loyalty redemption: with `redeem` set and at least `threshold` points,
/// `threshold` points buy a `reward`-cent discount capped at the sale total.
/// Returns (discount, points consumed).
pub fn loyalty_redemption(points: i64, redeem: bool, threshold: i64, reward: i64, gross: i64) -> (r: Result<(i64, i64), String>)
    ensures
        !redeem ==> r == Ok::<(i64, i64), String>((0, 0)),
        redeem && points < threshold ==> (r matches Err(m) && m@ == not_enough_points_message(threshold as int)),
        redeem && points >= threshold ==> r == Ok::<(i64, i64), String>((if reward <= gross { reward } else { gross }, threshold)),
{
    if !redeem {
        return Ok((0, 0));
    }
    if points < threshold {
        let mut m = String::from_str("Not enough points to redeem — ");
        push_i64(&mut m, threshold);
        m.append(" required");
        return Err(m);
    }
    Ok((if reward <= gross { reward } else { gross }, threshold))
}

pub open spec fn not_enough_points_message(threshold: int) -> Seq<char> {
    "Not enough points to redeem — "@ + dec_int(threshold) + " required"@
}

pub open spec fn loyalty_earned_spec(total: int, bonus_points: int) -> int {
    trunc_div(total, 100) + bonus_points
}

/// Points earned: one per whole dollar of the (post-discount) total, plus the
/// per-product bonus points of the sale.
pub fn loyalty_earned(total: i64, bonus_points: i64) -> (r: i64)
    requires
        in_i64(loyalty_earned_spec(total as int, bonus_points as int)),
    ensures
        r as int == loyalty_earned_spec(total as int, bonus_points as int),
{
    total / 100 + bonus_points
}

/// The cost recorded on a sale line: always the product's own cost; a value
/// supplied by the client is ignored.
pub fn historical_unit_cost(product_cost: i64, _frontend_supplied: Option<i64>) -> (r: i64)
    ensures
        r == product_cost,
{
    product_cost
}

proof fn lemma_promo_names_differ()
    ensures
        "bogo"@ != "second_pct"@,
{
    reveal_strlit("bogo");
    reveal_strlit("second_pct");
    assert("bogo"@.len() != "second_pct"@.len());
}

// ---------------------------------------------------------------------------
// Laws
// ---------------------------------------------------------------------------

/// Buy-one-get-one charges for the larger half of the units: `ceil(qty / 2)`.
pub proof fn lemma_bogo_charges_larger_half(unit_price: int, qty: int, value: int)
    requires
        qty >= 0,
    ensures
        promo_line_total_spec(unit_price, qty, "bogo"@, value) == unit_price * ((qty + 1) / 2),
{
    assert(qty - qty / 2 == (qty + 1) / 2);
}

/// A second-unit discount of 0% (or less) charges the plain price for every unit.
pub proof fn lemma_second_pct_zero_is_plain(unit_price: int, qty: int, value: int)
    requires
        value <= 0,
    ensures
        promo_line_total_spec(unit_price, qty, "second_pct"@, value) == unit_price * qty,
{
    lemma_promo_names_differ();
    assert(discounted_unit_price(unit_price, value) == unit_price) by {
        assert(unit_price * 100 == 100 * unit_price) by (nonlinear_arith);
        if unit_price < 0 {
            assert((-(unit_price * 100)) / 100 == -unit_price) by (nonlinear_arith)
                requires unit_price < 0;
        } else {
            assert((unit_price * 100) / 100 == unit_price) by (nonlinear_arith);
        }
    }
    assert(unit_price * full_units(qty) + unit_price * trunc_div(qty, 2) == unit_price * qty)
        by (nonlinear_arith);
}

/// A second-unit discount of 100% (or more) is the same as buy-one-get-one.
pub proof fn lemma_second_pct_full_is_bogo(unit_price: int, qty: int, value: int)
    requires
        value >= 100,
    ensures
        promo_line_total_spec(unit_price, qty, "second_pct"@, value)
            == promo_line_total_spec(unit_price, qty, "bogo"@, value),
{
    lemma_promo_names_differ();
    assert(clamp_pct(value) == 100);
    assert(unit_price * 0 == 0) by (nonlinear_arith);
    assert(discounted_unit_price(unit_price, value) == 0);
    assert(0 * trunc_div(qty, 2) == 0);
}

/// For a non-negative price and quantity, a promotion never charges more than
/// the plain price and never goes below zero.
pub proof fn lemma_promo_never_raises_price(unit_price: int, qty: int, promo: Seq<char>, value: int)
    requires
        unit_price >= 0,
        qty >= 0,
    ensures
        0 <= promo_line_total_spec(unit_price, qty, promo, value) <= unit_price * qty,
{
    let d = qty / 2;
    let f = qty - d;
    assert(0 <= d <= f);
    assert(0 <= unit_price * f) by (nonlinear_arith) requires unit_price >= 0, f >= 0;
    assert(unit_price * f + unit_price * d == unit_price * qty) by (nonlinear_arith) requires f + d == qty;
    assert(0 <= unit_price * d) by (nonlinear_arith) requires unit_price >= 0, d >= 0;
    let p = clamp_pct(value);
    let dp = discounted_unit_price(unit_price, value);
    assert(0 <= unit_price * (100 - p) <= unit_price * 100) by (nonlinear_arith)
        requires unit_price >= 0, 0 <= p <= 100;
    assert(0 <= dp <= unit_price);
    assert(0 <= dp * d <= unit_price * d) by (nonlinear_arith) requires 0 <= dp <= unit_price, d >= 0;
}

/// The redemption discount never exceeds the sale's gross, so a redeemed sale
/// total (`gross - discount`) is never negative when the reward is not.
pub proof fn lemma_redemption_never_negative_total(reward: int, gross: int)
    requires
        reward >= 0,
        gross >= 0,
    ensures
        ({
            let discount = if reward <= gross { reward } else { gross };
            0 <= discount <= gross && gross - discount >= 0
        }),
{
}

/// Earning is one point per whole dollar: adding a dollar to the total adds
/// exactly one point, for non-negative totals.
pub proof fn lemma_one_point_per_dollar(total: int, bonus_points: int)
    requires
        total >= 0,
    ensures
        loyalty_earned_spec(total + 100, bonus_points) == loyalty_earned_spec(total, bonus_points) + 1,
        loyalty_earned_spec(total, bonus_points) >= bonus_points,
{
}

} // verus!
