use speedway_pos::models::SessionInfo;
use speedway_pos::security::{
    authorize, find_override, find_pin_match, gate, hash_pin, is_manager_only, is_valid_role,
    permission_denied_message, permission_requires_manager_message, requires_manager_message, resolve_override,
    role_can, verify_pin, Denial,
};

fn session(role: &str) -> SessionInfo {
    SessionInfo { session_id: 9, cashier_id: 3, name: "Dana".to_string(), role: role.to_string() }
}

#[test]
fn hash_then_verify_roundtrips() {
    let h = hash_pin("1234").unwrap();
    assert!(verify_pin("1234", &h));
    assert!(!verify_pin("0000", &h));
}

#[test]
fn pin_is_never_stored_in_plaintext() {
    let h = hash_pin("1234").unwrap();
    assert!(!h.contains("1234"));
}

#[test]
fn admin_can_do_anything() {
    assert!(role_can("admin", "void"));
    assert!(role_can("admin", "settings"));
}

#[test]
fn cashier_blocked_from_manager_only_actions() {
    assert!(!role_can("cashier", "void"));
    assert!(!role_can("cashier", "manage_cashiers"));
}

#[test]
fn cashier_allowed_base_actions() {
    assert!(role_can("cashier", "ring_sale"));
}

#[test]
fn manager_allowed_manager_actions() {
    assert!(role_can("manager", "void"));
    assert!(role_can("manager", "refund"));
}

#[test]
fn hashes_are_salted() {
    let a = hash_pin("1234").unwrap();
    let b = hash_pin("1234").unwrap();
    assert_ne!(a, b);
    assert!(verify_pin("1234", &a) && verify_pin("1234", &b));
    assert!(a.starts_with("$argon2"));
}

#[test]
fn garbage_hash_verifies_nothing() {
    assert!(!verify_pin("1234", "not a hash"));
    assert!(!verify_pin("1234", ""));
}

#[test]
fn sign_in_finds_the_first_matching_pin() {
    let hashes = vec![hash_pin("1111").unwrap(), hash_pin("2222").unwrap(), hash_pin("1111").unwrap()];
    assert_eq!(find_pin_match("2222", &hashes), Some(1));
    assert_eq!(find_pin_match("1111", &hashes), Some(0));
    assert_eq!(find_pin_match("9999", &hashes), None);
}

#[test]
fn override_needs_a_role_that_may_act() {
    let roles = vec!["cashier".to_string(), "manager".to_string()];
    let hashes = vec![hash_pin("1111").unwrap(), hash_pin("2222").unwrap()];
    assert_eq!(find_override("1111", &roles, &hashes, "void"), None);
    assert_eq!(find_override("2222", &roles, &hashes, "void"), Some(1));
    assert_eq!(find_override("1111", &roles, &hashes, "ring_sale"), Some(0));
}

#[test]
fn manager_only_list() {
    for a in [
        "void", "refund", "no_sale", "paid_out", "price_override", "shift_close_override", "product_delete",
        "settings", "manage_cashiers", "open_drawer", "configure_devices", "backup", "restore", "diagnostics",
    ] {
        assert!(is_manager_only(a), "{}", a);
        assert!(!role_can("cashier", a));
        assert!(role_can("manager", a));
    }
    assert!(!is_manager_only("ring_sale"));
    assert!(!role_can("guest", "void"));
    assert!(role_can("guest", "ring_sale"));
}

#[test]
fn valid_roles() {
    assert!(is_valid_role("cashier") && is_valid_role("manager") && is_valid_role("admin"));
    assert!(!is_valid_role("owner"));
    assert!(!is_valid_role("Admin"));
}

#[test]
fn authorize_outcomes() {
    assert!(matches!(authorize(&None, "void"), Err(Denial::NotSignedIn)));
    assert!(matches!(authorize(&Some(session("cashier")), "void"), Err(Denial::Forbidden)));
    let ok = authorize(&Some(session("manager")), "void").ok().unwrap();
    assert_eq!(ok.cashier_id, 3);
    assert_eq!(ok.name, "Dana");
}

#[test]
fn void_gate() {
    assert!(gate(&session("manager"), "void", None).is_ok());
    assert!(gate(&session("cashier"), "void", Some(5)).is_ok());
    assert_eq!(gate(&session("cashier"), "void", None).unwrap_err(), "'void' requires a manager");
}

#[test]
fn permission_messages() {
    assert_eq!(requires_manager_message("refund"), "'refund' requires a manager");
    assert_eq!(permission_denied_message("settings"), "Permission denied — 'settings'");
    assert_eq!(
        permission_requires_manager_message("settings"),
        "Permission denied — 'settings' requires a manager"
    );
    assert_eq!(resolve_override("settings", Some(1)), Ok(true));
    assert_eq!(resolve_override("settings", Some(0)).unwrap_err(), "Permission denied — 'settings'");
    assert_eq!(resolve_override("settings", None).unwrap_err(), "Permission denied — 'settings'");
}
