use speedway_pos::models::SessionInfo;
use speedway_pos::sale::{
    line_fits, make_receipt, price_line, redemption_customer, settle_sale, settlement_fits, start_sale, tally_fits,
    tally_lines, CreateSalePayload, PricedLine, ProductRecord, SaleError, SaleLine, Tender,
};

fn product(id: i64, price: i64, promo: &str, value: i64) -> ProductRecord {
    ProductRecord {
        id,
        name: format!("Item {}", id),
        price,
        cost: price / 2,
        age_restricted: false,
        bonus_points: 0,
        promo_type: promo.to_string(),
        promo_value: value,
        open_price: false,
    }
}

fn line(product_id: i64, qty: i64) -> SaleLine {
    SaleLine { product_id, qty, manual_price: None }
}

fn cash(tendered: i64) -> Tender {
    Tender { kind: "cash".to_string(), tendered }
}

fn payload(items: Vec<SaleLine>) -> CreateSalePayload {
    CreateSalePayload { items, tender: cash(0), age_verified: false, customer_id: None, redeem_points: false }
}

fn session() -> SessionInfo {
    SessionInfo { session_id: 1, cashier_id: 7, name: "Pat".to_string(), role: "cashier".to_string() }
}

fn priced(p: &ProductRecord, qty: i64) -> PricedLine {
    price_line(&line(p.id, qty), Some(p)).ok().unwrap()
}

#[test]
fn empty_cart_and_missing_cashier() {
    assert!(matches!(start_sale(&payload(vec![]), &Some(session())), Err(SaleError::EmptyCart)));
    assert!(matches!(start_sale(&payload(vec![line(1, 1)]), &None), Err(SaleError::NoCashier)));
    let (id, name) = start_sale(&payload(vec![line(1, 1)]), &Some(session())).ok().unwrap();
    assert_eq!(id, 7);
    assert_eq!(name, "Pat");
}

#[test]
fn redemption_customer_only_when_redeeming() {
    let mut p = payload(vec![line(1, 1)]);
    p.customer_id = Some(4);
    assert_eq!(redemption_customer(&p), None);
    p.redeem_points = true;
    assert_eq!(redemption_customer(&p), Some(4));
}

#[test]
fn line_pricing_uses_the_catalog() {
    let p = product(3, 500, "bogo", 0);
    let l = priced(&p, 3);
    assert_eq!(l.unit_price, 500);
    assert_eq!(l.line_total, 1000);
    assert_eq!(l.unit_cost, 250);
    assert_eq!(l.name, "Item 3");
    assert!(!l.manual_price);
}

#[test]
fn line_pricing_errors() {
    let p = product(3, 500, "none", 0);
    assert!(matches!(price_line(&line(3, 0), Some(&p)), Err(SaleError::QuantityNotPositive)));
    assert!(matches!(price_line(&line(99, 1), None), Err(SaleError::UnknownProduct(99))));
    let manual = SaleLine { product_id: 3, qty: 1, manual_price: Some(700) };
    match price_line(&manual, Some(&p)) {
        Err(e) => assert_eq!(e.message(), "Item 3 does not allow manual pricing"),
        Ok(_) => panic!("manual price accepted on a fixed-price item"),
    }
    let mut open = product(4, 0, "none", 0);
    open.open_price = true;
    let too_high = SaleLine { product_id: 4, qty: 1, manual_price: Some(1_000_001) };
    assert!(matches!(price_line(&too_high, Some(&open)), Err(SaleError::ManualPriceOutOfRange)));
    let ok = SaleLine { product_id: 4, qty: 2, manual_price: Some(1299) };
    let l = price_line(&ok, Some(&open)).ok().unwrap();
    assert_eq!(l.unit_price, 1299);
    assert_eq!(l.line_total, 2598);
    assert!(l.manual_price);
}

#[test]
fn error_messages() {
    assert_eq!(SaleError::EmptyCart.message(), "Cart is empty");
    assert_eq!(SaleError::NoCashier.message(), "No cashier is signed in");
    assert_eq!(SaleError::QuantityNotPositive.message(), "Quantity must be positive");
    assert_eq!(SaleError::UnknownProduct(12).message(), "Unknown product 12");
    assert_eq!(SaleError::ManualPriceOutOfRange.message(), "Manual price out of range");
    assert_eq!(SaleError::AgeVerificationRequired.message(), "AGE_VERIFICATION_REQUIRED");
    assert_eq!(SaleError::Redemption("x".to_string()).message(), "x");
    assert_eq!(SaleError::InsufficientTender.message(), "Insufficient tender");
}

#[test]
fn tally_sums_lines_and_per_line_tax() {
    let a = priced(&product(1, 500, "none", 0), 1);
    let b = priced(&product(2, 149, "none", 0), 1);
    let c = priced(&product(3, 999, "none", 0), 1);
    let lines = vec![a, b, c];
    let taxes = vec![35, 10, 85];
    assert!(tally_fits(&lines, &taxes));
    let t = tally_lines(&lines, &taxes, false).ok().unwrap();
    assert_eq!(t.subtotal, 1648);
    assert_eq!(t.tax, 130);
    assert_eq!(t.tax, taxes.iter().sum::<i64>());
    assert!(!t.needs_age);
}

#[test]
fn age_restricted_cart_needs_verification() {
    let mut beer = product(5, 1099, "none", 0);
    beer.age_restricted = true;
    let lines = vec![priced(&beer, 1)];
    assert!(matches!(tally_lines(&lines, &vec![0], false), Err(SaleError::AgeVerificationRequired)));
    let t = tally_lines(&lines, &vec![0], true).ok().unwrap();
    assert!(t.needs_age);
}

#[test]
fn tally_overflow_is_detected() {
    let mut big = priced(&product(1, 500, "none", 0), 1);
    big.line_total = i64::MAX;
    let small = priced(&product(2, 500, "none", 0), 1);
    assert!(!tally_fits(&vec![big, small], &vec![0, 0]));
    assert!(!tally_fits(&vec![priced(&product(2, 500, "none", 0), 1)], &vec![]));
    assert!(line_fits(&line(1, 2), &product(1, 500, "none", 0)));
    assert!(!line_fits(&line(1, 2), &product(1, i64::MAX, "none", 0)));
}

#[test]
fn cash_sale_settles_with_change_and_points() {
    let lines = vec![priced(&product(1, 2500, "none", 0), 1)];
    let t = tally_lines(&lines, &vec![175], false).ok().unwrap();
    assert!(settlement_fits(&t, None, &cash(3000), 500, 1000));
    let s = settle_sale(&t, None, &cash(3000), 500, 1000).ok().unwrap();
    assert_eq!(s.gross, 2675);
    assert_eq!(s.discount, 0);
    assert_eq!(s.total, 2675);
    assert_eq!(s.change, 325);
    assert_eq!(s.points_earned, 26);
    assert_eq!(s.points_delta, 26);
}

#[test]
fn card_sale_gives_no_change() {
    let lines = vec![priced(&product(1, 2500, "none", 0), 1)];
    let t = tally_lines(&lines, &vec![0], false).ok().unwrap();
    let s = settle_sale(&t, None, &Tender { kind: "card".to_string(), tendered: 3000 }, 500, 1000).ok().unwrap();
    assert_eq!(s.change, 0);
}

#[test]
fn redemption_discounts_and_consumes_points() {
    let lines = vec![priced(&product(1, 2500, "none", 0), 1)];
    let t = tally_lines(&lines, &vec![0], false).ok().unwrap();
    let s = settle_sale(&t, Some(620), &cash(2000), 500, 1000).ok().unwrap();
    assert_eq!(s.discount, 1000);
    assert_eq!(s.total, 1500);
    assert_eq!(s.points_redeemed, 500);
    assert_eq!(s.points_earned, 15);
    assert_eq!(s.points_delta, -485);
    assert_eq!(s.change, 500);
    match settle_sale(&t, Some(120), &cash(5000), 500, 1000) {
        Err(SaleError::Redemption(m)) => assert_eq!(m, "Not enough points to redeem — 500 required"),
        _ => panic!("redemption below the threshold accepted"),
    }
}

#[test]
fn short_tender_is_refused() {
    let lines = vec![priced(&product(1, 2500, "none", 0), 1)];
    let t = tally_lines(&lines, &vec![0], false).ok().unwrap();
    assert!(matches!(settle_sale(&t, None, &cash(2499), 500, 1000), Err(SaleError::InsufficientTender)));
}

#[test]
fn receipt_carries_the_computed_figures() {
    let lines = vec![priced(&product(1, 500, "bogo", 0), 2), priced(&product(2, 250, "none", 0), 1)];
    let t = tally_lines(&lines, &vec![35, 18], false).ok().unwrap();
    let tender = cash(1000);
    let s = settle_sale(&t, None, &tender, 500, 1000).ok().unwrap();
    let r = make_receipt(
        41,
        "Speedway Market".to_string(),
        "Thank you!".to_string(),
        "Pat".to_string(),
        "2024-05-01 10:00:00".to_string(),
        &lines,
        &t,
        &s,
        &tender,
        Some(120),
    );
    assert_eq!(r.id, 41);
    assert_eq!(r.subtotal, 750);
    assert_eq!(r.tax, 53);
    assert_eq!(r.total, 803);
    assert_eq!(r.change, 197);
    assert_eq!(r.tender_kind, "cash");
    assert_eq!(r.items.len(), 2);
    assert_eq!(r.items[0].line_total, 500);
    assert_eq!(r.items[0].qty, 2);
    assert_eq!(r.items[1].name, "Item 2");
    assert_eq!(r.points_balance, Some(120));
}
