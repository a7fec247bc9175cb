use speedway_pos::pricing::{historical_unit_cost, loyalty_earned, loyalty_redemption, promo_line_total, promo_line_total_fits};

#[test]
fn bogo_second_is_free() {
    assert_eq!(promo_line_total(500, 2, "bogo", 0), 500);
    assert_eq!(promo_line_total(500, 3, "bogo", 0), 1000);
    assert_eq!(promo_line_total(500, 1, "bogo", 0), 500);
}

#[test]
fn second_unit_percent_off() {
    assert_eq!(promo_line_total(500, 2, "second_pct", 30), 850);
    assert_eq!(promo_line_total(500, 3, "second_pct", 30), 1350);
}

#[test]
fn none_is_plain_multiplication() {
    assert_eq!(promo_line_total(249, 3, "none", 0), 747);
}

#[test]
fn second_pct_is_clamped_to_a_percentage() {
    assert_eq!(promo_line_total(500, 2, "second_pct", 150), 500);
    assert_eq!(promo_line_total(500, 2, "second_pct", -20), 1000);
    assert_eq!(promo_line_total(500, 2, "second_pct", 100), promo_line_total(500, 2, "bogo", 0));
    assert_eq!(promo_line_total(500, 4, "second_pct", 0), promo_line_total(500, 4, "none", 0));
}

#[test]
fn second_pct_rounds_the_discounted_unit_toward_zero() {
    // 333 at 50% off is 166.5, charged as 166
    assert_eq!(promo_line_total(333, 2, "second_pct", 50), 333 + 166);
}

#[test]
fn promo_overflow_is_detected() {
    assert!(promo_line_total_fits(500, 3, "bogo", 0));
    assert!(!promo_line_total_fits(i64::MAX, 2, "none", 0));
    assert!(!promo_line_total_fits(i64::MAX / 50, 2, "second_pct", 10));
    assert!(promo_line_total_fits(i64::MAX, 2, "bogo", 0));
}

#[test]
fn no_redeem_no_discount() {
    assert_eq!(loyalty_redemption(9999, false, 500, 1000, 5000).unwrap(), (0, 0));
}

#[test]
fn redeem_at_threshold_gives_reward() {
    assert_eq!(loyalty_redemption(500, true, 500, 1000, 5000).unwrap(), (1000, 500));
}

#[test]
fn reward_capped_at_sale_total() {
    assert_eq!(loyalty_redemption(700, true, 500, 1000, 600).unwrap(), (600, 500));
}

#[test]
fn under_threshold_is_rejected() {
    assert!(loyalty_redemption(499, true, 500, 1000, 5000).is_err());
}

#[test]
fn under_threshold_message_names_the_threshold() {
    assert_eq!(
        loyalty_redemption(499, true, 500, 1000, 5000).unwrap_err(),
        "Not enough points to redeem — 500 required"
    );
}

#[test]
fn earn_one_point_per_dollar_plus_bonus() {
    assert_eq!(loyalty_earned(2599, 0), 25);
    assert_eq!(loyalty_earned(2599, 10), 35);
    assert_eq!(loyalty_earned(99, 0), 0);
}

#[test]
fn earning_rounds_toward_zero_for_negative_totals() {
    assert_eq!(loyalty_earned(-250, 0), -2);
}

#[test]
fn unit_cost_comes_from_product_not_frontend() {
    assert_eq!(historical_unit_cost(250, Some(1)), 250);
    assert_eq!(historical_unit_cost(250, None), 250);
}

#[test]
fn historical_cost_is_snapshot_not_reference() {
    let captured = historical_unit_cost(250, None);
    let _new_product_cost = 400;
    assert_eq!(captured, 250);
}
