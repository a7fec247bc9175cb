use speedway_pos::devices::{
    mode_name, should_auto_open_drawer, CashDrawer, DeviceMode, DeviceResult, DeviceStatus, ReceiptPrinter,
    SimulatedCashDrawer, SimulatedReceiptPrinter,
};
use speedway_pos::hardware::{auto_drawer_result, device_list, manual_drawer_allowed, sim_fail};

#[test]
fn cash_sale_opens_drawer() {
    assert!(should_auto_open_drawer("sale", Some("cash"), false));
}

#[test]
fn card_only_sale_does_not_open_by_default() {
    assert!(!should_auto_open_drawer("sale", Some("card"), false));
}

#[test]
fn card_sale_opens_when_configured() {
    assert!(should_auto_open_drawer("sale", Some("card"), true));
}

#[test]
fn cash_refund_opens_drawer() {
    assert!(should_auto_open_drawer("refund", Some("cash"), false));
}

#[test]
fn card_refund_does_not_open_by_default() {
    assert!(!should_auto_open_drawer("refund", Some("card"), false));
}

#[test]
fn drawer_events_always_open() {
    for e in ["no_sale", "paid_in", "paid_out", "safe_drop"] {
        assert!(should_auto_open_drawer(e, None, false), "{} should open", e);
    }
}

#[test]
fn unrelated_events_do_not_open() {
    assert!(!should_auto_open_drawer("void", None, false));
    assert!(!should_auto_open_drawer("login", None, false));
}

#[test]
fn sale_without_tender_or_with_other_tender_does_not_open() {
    assert!(!should_auto_open_drawer("sale", None, true));
    assert!(!should_auto_open_drawer("sale", Some("ebt"), true));
}

#[test]
fn simulated_printer_success() {
    let p = SimulatedReceiptPrinter { fail: false };
    assert!(p.print_receipt("SPEEDWAY MARKET\nTotal $5.00").ok);
}

#[test]
fn simulated_printer_failure_is_reported_not_panicked() {
    let p = SimulatedReceiptPrinter { fail: true };
    let r = p.print_receipt("x");
    assert!(!r.ok);
    assert!(r.message.contains("failure"));
}

#[test]
fn simulated_drawer_open_ok() {
    let d = SimulatedCashDrawer { fail: false };
    assert!(d.open("cash sale").ok);
}

#[test]
fn simulated_printer_reports_the_document_size() {
    let p = SimulatedReceiptPrinter { fail: false };
    let r = p.print_receipt("SPEEDWAY MARKET\nTotal $5.00");
    assert_eq!(r.message, "Rendered 27 chars");
    assert_eq!(r.mode, "Simulated");
    assert!(p.status() == DeviceStatus::Simulated);
}

#[test]
fn simulated_drawer_messages() {
    let ok = SimulatedCashDrawer { fail: false }.open("cash sale");
    assert_eq!(ok.message, "Drawer opened: cash sale");
    let bad = SimulatedCashDrawer { fail: true }.open("cash sale");
    assert!(!bad.ok);
    assert_eq!(bad.message, "Simulated drawer failure");
    assert!(SimulatedCashDrawer { fail: true }.status() == DeviceStatus::Simulated);
}

#[test]
fn device_results_carry_the_mode_name() {
    let r = DeviceResult::ok(DeviceMode::SystemPrint, "done".to_string());
    assert!(r.ok);
    assert_eq!(r.mode, "SystemPrint");
    let e = DeviceResult::err(DeviceMode::NativeEscpos, "no driver".to_string());
    assert!(!e.ok);
    assert_eq!(e.mode, "NativeEscpos");
    assert_eq!(e.message, "no driver");
    assert_eq!(mode_name(DeviceMode::KeyboardWedge), "KeyboardWedge");
    assert_eq!(mode_name(DeviceMode::Disabled), "Disabled");
}

#[test]
fn automatic_drawer_result() {
    let opened = auto_drawer_result("sale", Some("cash"), false);
    assert!(opened.ok);
    assert_eq!(opened.mode, "Simulated");
    assert_eq!(opened.message, "Drawer opened: sale");
    let skipped = auto_drawer_result("sale", Some("card"), false);
    assert!(skipped.ok);
    assert_eq!(skipped.mode, "n/a");
    assert_eq!(skipped.message, "No drawer open required");
}

#[test]
fn manual_drawer_needs_a_manager_or_approval() {
    assert!(!manual_drawer_allowed("cashier", None));
    assert!(manual_drawer_allowed("cashier", Some(2)));
    assert!(manual_drawer_allowed("manager", None));
    assert!(manual_drawer_allowed("admin", None));
}

#[test]
fn device_list_is_honest() {
    let d = device_list("simulated".to_string(), "disabled".to_string());
    assert_eq!(d.len(), 6);
    assert_eq!(d[0].kind, "barcode_scanner");
    assert_eq!(d[0].status, "ready");
    assert_eq!(d[1].mode, "simulated");
    assert_eq!(d[1].status, "simulated");
    assert_eq!(d[2].label, "Cash Drawer");
    assert_eq!(d[2].mode, "disabled");
    assert_eq!(d[3].status, "window_available");
    assert!(!d[4].configurable);
    assert_eq!(d[5].kind, "label_printer");
}

#[test]
fn simulated_failure_switch() {
    assert!(sim_fail("1"));
    assert!(!sim_fail("0"));
    assert!(!sim_fail(""));
    assert!(!sim_fail("11"));
}
