use speedway_pos::demo::{
    check_demo_reset, close_demo_shift, demo_audit_detail, demo_day_modifier, demo_hour_modifier, demo_reset_message,
    demo_sale_count, demo_sale_figures, demo_sale_figures_fit, demo_shift_fits, no_account_message, plan_demo_day,
    plan_demo_sale, plan_demo_week, DemoSalePlan, DEMO_DAYS, DEMO_DRAWER_DISCREPANCY, DEMO_OPENING_FLOAT,
};
use speedway_pos::models::SessionInfo;

fn session(role: &str) -> SessionInfo {
    SessionInfo { session_id: 1, cashier_id: 2, name: "Morgan".to_string(), role: role.to_string() }
}

#[test]
fn a_week_of_history() {
    let days = plan_demo_week(12, 5).ok().unwrap();
    assert_eq!(days.len(), DEMO_DAYS as usize);
    let order: Vec<i64> = days.iter().map(|d| d.day).collect();
    assert_eq!(order, vec![6, 5, 4, 3, 2, 1, 0]);
    let counts: Vec<usize> = days.iter().map(|d| d.sales.len()).collect();
    assert_eq!(counts, vec![5, 9, 7, 5, 9, 7, 5]);
    let total: usize = counts.iter().sum();
    assert_eq!(total, 47);
    assert_eq!(demo_reset_message(total as i64), "Demo reset complete — 47 sales across 7 days, 5 loyalty customers, promos applied.");
}

#[test]
fn managers_and_no_sales_on_their_days() {
    let days = plan_demo_week(12, 5).ok().unwrap();
    let managers: Vec<bool> = days.iter().map(|d| d.manager_on_shift).collect();
    assert_eq!(managers, vec![true, false, false, true, false, false, true]);
    let no_sales: Vec<bool> = days.iter().map(|d| d.no_sale_event).collect();
    assert_eq!(no_sales, vec![true, false, true, false, true, false, true]);
}

#[test]
fn first_sales_of_the_oldest_day() {
    let d = plan_demo_day(6, 12, 5);
    let s0 = &d.sales[0];
    assert_eq!((s0.product_index, s0.qty, s0.hour, s0.customer_index, s0.pays_cash), (6, 1, 9, Some(1), true));
    let s1 = &d.sales[1];
    assert_eq!((s1.product_index, s1.qty, s1.hour, s1.customer_index, s1.pays_cash), (9, 2, 20, None, false));
    let s4 = &d.sales[4];
    assert_eq!((s4.product_index, s4.qty, s4.hour, s4.customer_index, s4.pays_cash), (6, 1, 17, Some(0), true));
}

#[test]
fn the_plan_is_deterministic() {
    let a = plan_demo_week(7, 5).ok().unwrap();
    let b = plan_demo_week(7, 5).ok().unwrap();
    for (x, y) in a.iter().zip(b.iter()) {
        assert_eq!(x.sales.len(), y.sales.len());
        for (p, q) in x.sales.iter().zip(y.sales.iter()) {
            assert_eq!((p.product_index, p.qty, p.hour, p.customer_index, p.pays_cash), (q.product_index, q.qty, q.hour, q.customer_index, q.pays_cash));
        }
    }
}

#[test]
fn no_products_no_demo() {
    assert_eq!(plan_demo_week(0, 5).err().unwrap(), "No products to seed sales from");
}

#[test]
fn sale_counts_stay_between_five_and_nine() {
    for day in 0..7 {
        let n = demo_sale_count(day);
        assert!((5..=9).contains(&n));
    }
    assert_eq!(demo_sale_count(0), 5);
    assert_eq!(demo_sale_count(2), 9);
}

#[test]
fn seeded_sale_money() {
    let plan = plan_demo_sale(4, 0, 12, 5);
    assert!(plan.customer_index.is_some());
    assert_eq!(plan.qty, 1);
    assert!(demo_sale_figures_fit(&plan, 1000, 70, 10));
    let f = demo_sale_figures(&plan, 1000, 70, 10);
    assert_eq!((f.subtotal, f.tax, f.total), (1000, 70, 1070));
    assert_eq!(f.points_delta, 10 + 10);
    let walk_in = plan_demo_sale(4, 1, 12, 5);
    assert!(walk_in.customer_index.is_none());
    assert_eq!(demo_sale_figures(&walk_in, 1000, 70, 10).points_delta, 0);
    assert!(!demo_sale_figures_fit(&walk_in, i64::MAX, 1, 0));
}

#[test]
fn demo_shift_counts_are_off_by_the_day_discrepancy() {
    let plans: Vec<DemoSalePlan> = (0..3).map(|k| plan_demo_sale(6, k, 12, 5)).collect();
    // k=0 and k=2 pay cash on day 6, k=1 pays by card
    let totals = vec![1070, 500, 230];
    assert!(demo_shift_fits(6, &plans, &totals));
    let c = close_demo_shift(6, &plans, &totals);
    assert_eq!(c.expected, DEMO_OPENING_FLOAT + 1070 + 230);
    assert_eq!(c.over_short, -DEMO_DRAWER_DISCREPANCY);
    assert_eq!(c.counted, c.expected - 137);
    let plans4: Vec<DemoSalePlan> = (0..2).map(|k| plan_demo_sale(4, k, 12, 5)).collect();
    assert_eq!(close_demo_shift(4, &plans4, &vec![100, 100]).over_short, 0);
    let plans5: Vec<DemoSalePlan> = (0..2).map(|k| plan_demo_sale(5, k, 12, 5)).collect();
    assert_eq!(close_demo_shift(5, &plans5, &vec![100, 100]).over_short, 137);
    assert!(!demo_shift_fits(6, &plans, &vec![1]));
    assert!(!demo_shift_fits(6, &plans, &vec![i64::MAX, 0, 1]));
}

#[test]
fn demo_stamps_and_texts() {
    assert_eq!(demo_day_modifier(3), "-3 days");
    assert_eq!(demo_day_modifier(0), "-0 days");
    assert_eq!(demo_hour_modifier(20), "+20 hours");
    assert_eq!(demo_audit_detail(47), "{\"sales_seeded\":47}");
    assert_eq!(no_account_message("manager"), "No active manager account found");
}

#[test]
fn only_a_manager_resets_the_demo() {
    assert_eq!(check_demo_reset(&None).err().unwrap(), "Not signed in");
    assert_eq!(check_demo_reset(&Some(session("cashier"))).err().unwrap(), "Demo reset requires a manager");
    assert_eq!(check_demo_reset(&Some(session("manager"))).ok().unwrap().cashier_id, 2);
    assert!(check_demo_reset(&Some(session("admin"))).is_ok());
}
