use speedway_pos::purchasing::{
    cases_to_units, check_adjustment_reason, check_po_lines, check_po_status, check_receipts, check_stock_reason,
    check_vendor_input, cost_update, extended_cost, plan_line_receipt, receipt_applies, receipt_status,
    received_message, stored_pack_size, suggested_cases, PoLineInput, PoLineState, ReceiveLine, VendorInput,
};

fn po_line(qty: i64) -> PoLineInput {
    PoLineInput { product_id: 1, vendor_sku: None, qty_ordered: qty, unit_cost: 1250, pack_size: 24 }
}

#[test]
fn three_cases_of_24_is_72_units() {
    assert_eq!(cases_to_units(3, 24), 72);
}

#[test]
fn pack_size_zero_treated_as_one() {
    assert_eq!(cases_to_units(5, 0), 5);
}

#[test]
fn extended_cost_multiplies() {
    assert_eq!(extended_cost(3, 1250), 3750);
}

#[test]
fn negative_pack_size_treated_as_one() {
    assert_eq!(cases_to_units(4, -6), 4);
    assert_eq!(stored_pack_size(-6), 1);
    assert_eq!(stored_pack_size(0), 1);
    assert_eq!(stored_pack_size(12), 12);
}

#[test]
fn vendor_needs_a_name() {
    let mut v = VendorInput { id: None, name: "  ".to_string(), contact: None, phone: None, email: None, account_no: None, notes: None };
    assert_eq!(check_vendor_input(&v).unwrap_err(), "Vendor name is required");
    v.name = "Coastal Beverage".to_string();
    assert!(check_vendor_input(&v).is_ok());
}

#[test]
fn purchase_order_line_checks() {
    assert_eq!(check_po_lines(&vec![]).unwrap_err(), "A purchase order needs at least one line");
    assert_eq!(check_po_lines(&vec![po_line(2), po_line(0)]).unwrap_err(), "Order quantity must be positive");
    assert!(check_po_lines(&vec![po_line(2), po_line(1)]).is_ok());
}

#[test]
fn order_status_transitions() {
    for s in ["ordered", "cancelled", "closed"] {
        assert!(check_po_status(s).is_ok());
    }
    assert_eq!(check_po_status("received").unwrap_err(), "Invalid status transition");
    assert_eq!(check_po_status("draft").unwrap_err(), "Invalid status transition");
}

#[test]
fn receiving_against_an_order() {
    assert_eq!(check_receipts(&vec![]).unwrap_err(), "Nothing to receive");
    assert!(check_receipts(&vec![ReceiveLine { line_id: 1, cases_received: 2 }]).is_ok());
    assert!(!receipt_applies(&ReceiveLine { line_id: 1, cases_received: 0 }));
    assert!(receipt_applies(&ReceiveLine { line_id: 1, cases_received: 1 }));
    let line = PoLineState { product_id: 7, qty_ordered: 5, qty_received: 3, unit_cost: 1200, pack_size: 24 };
    assert_eq!(plan_line_receipt(&line, 2).unwrap(), 48);
    assert_eq!(plan_line_receipt(&line, 3).unwrap_err(), "Cannot receive more than ordered");
}

#[test]
fn receiving_updates_cost_only_when_it_changes() {
    assert_eq!(cost_update(1200, 24, 40), Some(50));
    assert_eq!(cost_update(1200, 24, 50), None);
    assert_eq!(cost_update(10, 24, 3), None);
    assert_eq!(cost_update(300, 0, 250), Some(300));
}

#[test]
fn receipt_status_and_message() {
    assert_eq!(receipt_status(5, 5), "received");
    assert_eq!(receipt_status(5, 6), "received");
    assert_eq!(receipt_status(5, 4), "partial");
    assert_eq!(received_message(72), "Received 72 units");
}

#[test]
fn adjustment_and_stock_reasons() {
    for r in ["damage", "spoilage", "shrink", "correction"] {
        assert!(check_adjustment_reason(r).is_ok());
    }
    assert_eq!(check_adjustment_reason("theft").unwrap_err(), "Invalid adjustment reason");
    for r in ["receive", "adjust", "count"] {
        assert!(check_stock_reason(r).is_ok());
    }
    assert_eq!(check_stock_reason("sale").unwrap_err(), "Invalid stock reason");
}

#[test]
fn reorder_suggestion_rounds_up_to_whole_cases() {
    // target = 10 + 24 = 34; short 32 units -> 2 cases
    assert_eq!(suggested_cases(2, 10, 24), Some(2));
    // exactly one case short
    assert_eq!(suggested_cases(10, 10, 24), Some(1));
    // already above target: nothing
    assert_eq!(suggested_cases(40, 10, 24), Some(0));
    // no case size: no suggestion can be made
    assert_eq!(suggested_cases(2, 10, 0), None);
    // single units
    assert_eq!(suggested_cases(0, 5, 1), Some(6));
}
