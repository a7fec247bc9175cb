use speedway_pos::applog::{log_line, sanitize, tail_lines, timestamp};
use speedway_pos::audit::{audit_action_pattern, check_audit_access};
use speedway_pos::backup::BackupMeta;
use speedway_pos::catalog::{check_product_identity, contains_pattern, default_promo, friendly_product_error};
use speedway_pos::customers::{check_new_customer, customer_insert_error, customer_search, digits_only, normalize_phone};
use speedway_pos::hardware::{money, render_receipt, PrintedLine};
use speedway_pos::health::{auto_backup_days, auto_backup_due, diagnostic_text, health_report};
use speedway_pos::models::SessionInfo;
use speedway_pos::reports::{finish_report, period_clause, profit_figures, register_clause, ProfitInput};
use speedway_pos::settings::{is_known_setting_key, setting_i64_or, setting_str_or};
use speedway_pos::txns::{check_reversible, loyalty_reversal, refund_tender, return_movements, sale_movements, SoldItem};
use speedway_pos::sale::{price_line, ProductRecord, SaleLine};

fn meta(filename: &str, created_at: &str, kind: &str) -> BackupMeta {
    BackupMeta {
        filename: filename.to_string(),
        created_at: created_at.to_string(),
        app_version: "1.0.0".to_string(),
        schema_version: 9,
        source_size: 4096,
        backup_size: 4096,
        sha256: String::new(),
        kind: kind.to_string(),
    }
}

#[test]
fn phone_numbers_are_stored_as_ten_digits() {
    assert_eq!(normalize_phone("(813) 555-0101"), "8135550101");
    assert_eq!(normalize_phone("+1 813 555 0101"), "8135550101");
    assert_eq!(normalize_phone("2813555010"), "2813555010");
    assert_eq!(digits_only("a1b2c3"), "123");
}

#[test]
fn customer_registration_checks() {
    assert_eq!(check_new_customer("Maria", "555-01").err().unwrap(), "Enter a valid 10-digit US phone number");
    assert_eq!(check_new_customer("   ", "813-555-0101").err().unwrap(), "Name is required");
    let c = check_new_customer("  Maria Lopez ", "1-813-555-0101").ok().unwrap();
    assert_eq!(c.name, "Maria Lopez");
    assert_eq!(c.phone, "8135550101");
    assert_eq!(customer_insert_error("UNIQUE constraint failed: customers.phone"), "That phone number is already registered");
    assert_eq!(customer_insert_error("disk I/O error"), "disk I/O error");
}

#[test]
fn customer_search_by_name_or_last_digits() {
    assert!(customer_search("   ").is_none());
    let s = customer_search(" 0101 ").unwrap();
    assert_eq!(s.name_like, "%0101%");
    assert_eq!(s.phone_like, "%0101%");
    let n = customer_search("Maria").unwrap();
    assert_eq!(n.name_like, "%Maria%");
    assert_eq!(n.phone_like, "§none§");
}

#[test]
fn catalog_rules() {
    assert_eq!(check_product_identity("", "Cola").unwrap_err(), "SKU and name are required");
    assert_eq!(check_product_identity("0001", " ").unwrap_err(), "SKU and name are required");
    assert!(check_product_identity("0001", "Cola").is_ok());
    assert_eq!(friendly_product_error("UNIQUE constraint failed: products.sku"), "That SKU is already in use");
    assert_eq!(friendly_product_error("UNIQUE constraint failed: products.barcode"), "UNIQUE constraint failed: products.barcode");
    assert_eq!(default_promo(), "none");
    assert_eq!(contains_pattern("  cola "), "%cola%");
}

#[test]
fn settings_keys_and_defaults() {
    assert!(is_known_setting_key("store_name"));
    assert!(is_known_setting_key("receipt_copies"));
    assert!(!is_known_setting_key("admin_pin"));
    assert_eq!(setting_i64_or(Some("750"), 500), 750);
    assert_eq!(setting_i64_or(Some("lots"), 500), 500);
    assert_eq!(setting_i64_or(None, 500), 500);
    assert_eq!(setting_str_or(None, "Speedway Market"), "Speedway Market");
    assert_eq!(setting_str_or(Some("Corner Store".to_string()), "Speedway Market"), "Corner Store");
}

#[test]
fn log_lines_never_carry_secrets() {
    assert_eq!(sanitize("User PIN changed"), "[redacted: potential sensitive content]");
    assert_eq!(sanitize("api Token=abc"), "[redacted: potential sensitive content]");
    assert_eq!(sanitize("backup created"), "backup created");
    assert_eq!(timestamp(1700000000), "t=1700000000");
    assert_eq!(log_line("t=5", "INFO", "sale committed"), "t=5 [INFO] sale committed");
    assert_eq!(log_line("t=5", "WARN", "bad password"), "t=5 [WARN] [redacted: potential sensitive content]");
}

#[test]
fn log_tail_keeps_the_newest_lines() {
    assert_eq!(tail_lines("a\nb\nc\n", 2), vec!["b".to_string(), "c".to_string()]);
    assert_eq!(tail_lines("a\r\nb", 5), vec!["a".to_string(), "b".to_string()]);
    assert!(tail_lines("", 3).is_empty());
}

#[test]
fn audit_access_and_filter() {
    let cashier = SessionInfo { session_id: 1, cashier_id: 2, name: "Kim".to_string(), role: "cashier".to_string() };
    let manager = SessionInfo { session_id: 1, cashier_id: 3, name: "Lee".to_string(), role: "manager".to_string() };
    assert_eq!(check_audit_access(&None).err().unwrap(), "Not signed in");
    assert_eq!(check_audit_access(&Some(cashier)).err().unwrap(), "The audit log requires a manager");
    assert_eq!(check_audit_access(&Some(manager)).ok().unwrap().cashier_id, 3);
    assert_eq!(audit_action_pattern(&Some("drawer".to_string())), "%drawer%");
    assert_eq!(audit_action_pattern(&None), "%%");
}

#[test]
fn money_formatting() {
    assert_eq!(money(500), "$5.00");
    assert_eq!(money(1234), "$12.34");
    assert_eq!(money(7), "$0.07");
    assert_eq!(money(-250), "$-2.50");
    assert_eq!(money(-5), "$0.05");
}

#[test]
fn receipt_document() {
    let items = vec![PrintedLine { name: "Cola".to_string(), qty: 2, line_total: 398 }];
    let r = render_receipt("Speedway Market", "Thank you!", 17, "2024-05-01 10:00", 398, 28, 100, 326, "sale", "voided", &items);
    let dashes = "-".repeat(34);
    let expected = format!(
        "SPEEDWAY MARKET\n*** VOIDED ***\nSale #17  2024-05-01 10:00\n{d}\n2x Cola{p1}$3.98\n{d}\nSubtotal{p2}$3.98\nTax{p3}$0.28\nDiscount{p4}-$1.00\nTOTAL{p5}$3.26\n{d}\nThank you! (sale)\n{d}\n",
        d = dashes,
        p1 = " ".repeat(34 - 7 - 5),
        p2 = " ".repeat(34 - 8 - 5),
        p3 = " ".repeat(34 - 3 - 5),
        p4 = " ".repeat(34 - 8 - 6),
        p5 = " ".repeat(34 - 5 - 5),
    );
    assert_eq!(r, expected);
    let plain = render_receipt("Shop", "Bye", 1, "now", 100, 0, 0, 100, "sale", "completed", &vec![]);
    assert!(plain.starts_with("SHOP\nSale #1  now\n"));
    assert!(!plain.contains("Discount"));
}

#[test]
fn health_statuses() {
    let newest = meta("speedway-manual-9.db", "1700000000", "manual");
    let h = health_report(4096, 0, 9, Some(Some("ok".to_string())), Some(&newest), "", "daily".to_string(), "1.0.0".to_string(), "linux".to_string());
    assert_eq!(h.db_status, "Healthy");
    assert_eq!(h.integrity, "ok");
    assert_eq!(h.backup_status, "Healthy");
    assert_eq!(h.last_backup.as_deref(), Some("1700000000"));
    assert_eq!(h.sync_status, "Disabled");
    let bad = health_report(4096, 0, 9, Some(Some("corrupt page".to_string())), None, "disk full", "off".to_string(), "1.0.0".to_string(), "linux".to_string());
    assert_eq!(bad.db_status, "Error");
    assert_eq!(bad.integrity, "failed");
    assert_eq!(bad.backup_status, "Failed");
    let unknown = health_report(4096, 0, -1, None, None, "", "off".to_string(), "1.0.0".to_string(), "linux".to_string());
    assert_eq!(unknown.db_status, "Attention");
    assert_eq!(unknown.integrity, "not_run");
    assert_eq!(unknown.backup_status, "NeverBackedUp");
}

#[test]
fn diagnostics_text() {
    let t = diagnostic_text("1.0.0", "linux", 9, 4096, 0, None, "weekly");
    assert_eq!(
        t,
        "Speedway POS Diagnostics\napp_version: 1.0.0\nplatform: linux\nschema_version: 9\ndb_size_bytes: 4096\nwal_mode: WAL\nwal_size_bytes: 0\nbackup_status: NeverBackedUp\nlast_backup: never\nlast_backup_kind: n/a\nauto_backup: weekly\nsync: Disabled\n"
    );
}

#[test]
fn automatic_backup_schedule() {
    assert_eq!(auto_backup_days("daily"), 1);
    assert_eq!(auto_backup_days("every3"), 3);
    assert_eq!(auto_backup_days("weekly"), 7);
    assert_eq!(auto_backup_days("off"), 0);
    assert!(auto_backup_due(&vec![], 100, 1));
    let metas = vec![meta("m.db", "900000", "manual"), meta("a.db", "1000", "automatic")];
    assert!(auto_backup_due(&metas, 1000 + 86_400, 1));
    assert!(!auto_backup_due(&metas, 1000 + 86_399, 1));
    assert!(!auto_backup_due(&metas, 1000 + 86_400, 3));
}

#[test]
fn report_filters_and_figures() {
    assert_eq!(period_clause("today"), "AND t.created_at >= date('now')");
    assert_eq!(period_clause("week"), "AND t.created_at >= date('now','-7 days')");
    assert_eq!(period_clause("month"), "AND t.created_at >= date('now','-30 days')");
    assert_eq!(period_clause("all"), "");
    assert_eq!(register_clause(None), "");
    assert_eq!(register_clause(Some(2)), "AND t.register_id = 2");
    let r = finish_report("week".to_string(), 10000, 700, 3, vec![], vec![], vec![]);
    assert_eq!(r.net, 9300);
    assert_eq!(r.avg_basket, 3333);
    let empty = finish_report("today".to_string(), 0, 0, 0, vec![], vec![], vec![]);
    assert_eq!(empty.avg_basket, 0);
}

#[test]
fn profit_leaves_uncosted_lines_out() {
    let rows = vec![
        ProfitInput { department: "Beer".to_string(), revenue: 5000, costed_revenue: Some(4000), cost: Some(2500) },
        ProfitInput { department: "Misc".to_string(), revenue: 700, costed_revenue: None, cost: None },
    ];
    let (lines, t) = profit_figures(&rows);
    assert_eq!(lines[0].profit, 1500);
    assert_eq!(lines[1].profit, 0);
    assert_eq!(lines[1].costed_revenue, 0);
    assert_eq!(t.total_revenue, 5700);
    assert_eq!(t.costed_revenue, 4000);
    assert_eq!(t.total_cost, 2500);
    assert_eq!(t.gross_profit, 1500);
}

#[test]
fn reversals() {
    assert!(check_reversible("sale", "completed", false).is_ok());
    assert_eq!(check_reversible("sale", "voided", false).unwrap_err(), "Only completed sales can be voided");
    assert_eq!(check_reversible("refund", "completed", true).unwrap_err(), "Only completed sales can be refunded");
    assert_eq!(refund_tender(Some("card".to_string()), None).unwrap(), "card");
    assert_eq!(refund_tender(None, None).unwrap_err(), "Open a shift before issuing cash refunds");
    assert_eq!(refund_tender(None, Some(4)).unwrap(), "cash");
    assert_eq!(loyalty_reversal(Some(8), 25), Some((8, 25)));
    assert_eq!(loyalty_reversal(Some(8), 0), None);
    assert_eq!(loyalty_reversal(None, 25), None);
}

#[test]
fn voiding_a_sale_puts_the_stock_back() {
    let p = ProductRecord {
        id: 12,
        name: "Chips".to_string(),
        price: 299,
        cost: 150,
        age_restricted: false,
        bonus_points: 0,
        promo_type: "bogo".to_string(),
        promo_value: 0,
        open_price: false,
    };
    let line = price_line(&SaleLine { product_id: 12, qty: 3, manual_price: None }, Some(&p)).ok().unwrap();
    let out = sale_movements(&vec![line]);
    assert_eq!(out.len(), 1);
    assert_eq!((out[0].product_id, out[0].delta), (12, -3));
    let back = return_movements(&vec![SoldItem { product_id: 12, qty: 3 }]);
    assert_eq!((back[0].product_id, back[0].delta), (12, 3));
    assert_eq!(out[0].delta + back[0].delta, 0);
}

#[test]
fn open_price_items_per_department() {
    assert_eq!(speedway_pos::catalog::open_price_sku(7), "OPEN-7");
    assert_eq!(speedway_pos::catalog::open_price_name("Lottery"), "Lottery — Open Price");
}

#[test]
fn text_order_matches_rust() {
    for (a, b) in [("100", "1000"), ("1000", "200"), ("", "a"), ("a", ""), ("ab", "ab"), ("é", "z"), ("Z", "a")] {
        assert_eq!(speedway_pos::text::text_less(a, b), a < b, "{:?} {:?}", a, b);
    }
}

#[test]
fn stored_phone_numbers_normalise_to_themselves() {
    for raw in ["(813) 555-0101", "+1 813 555 0101", "1-1-1", "12345678901", "555"] {
        let once = normalize_phone(raw);
        assert_eq!(normalize_phone(&once), once, "{:?}", raw);
    }
}

#[test]
fn reversing_points_restores_the_balance() {
    use_reversal(430, 25);
    use_reversal(0, 12);
    assert_eq!(speedway_pos::txns::reversed_points(10, 25), 0);
    assert_eq!(speedway_pos::txns::reversed_points(100, -5), 105);
}

fn use_reversal(balance: i64, delta: i64) {
    // a sale moved the balance by `delta`; its reversal brings it back
    assert_eq!(speedway_pos::txns::reversed_points(balance + delta, delta), balance);
}
