use speedway_pos::registers::{
    check_register_input, check_select_register, check_set_active, configured_register_id, format_uuid_v4,
    global_id_or_default, new_register_global_id, RegisterInput,
};

#[test]
fn uuid_has_canonical_shape() {
    let mut bytes = [0u8; 16];
    let s = format_uuid_v4(&mut bytes);
    let parts: Vec<&str> = s.split('-').collect();
    assert_eq!(parts.len(), 5);
    assert_eq!(parts[0].len(), 8);
    assert_eq!(parts[1].len(), 4);
    assert_eq!(parts[2].len(), 4);
    assert_eq!(parts[3].len(), 4);
    assert_eq!(parts[4].len(), 12);
}

#[test]
fn uuid_sets_version_and_variant_bits() {
    let mut bytes = [0xffu8; 16];
    let s = format_uuid_v4(&mut bytes);
    let third = s.split('-').nth(2).unwrap();
    assert_eq!(&third[0..1], "4");
    let fourth = s.split('-').nth(3).unwrap();
    assert!(["8", "9", "a", "b"].contains(&&fourth[0..1]));
}

#[test]
fn prefixed_id_is_recognizable() {
    let id = new_register_global_id();
    assert!(id.starts_with("reg-"));
    assert_eq!(id.len(), 4 + 36);
}

#[test]
fn uuid_of_known_bytes() {
    let mut bytes = [0u8, 1, 2, 3, 4, 5, 6, 7, 8, 9, 10, 11, 12, 13, 14, 15];
    let s = format_uuid_v4(&mut bytes);
    assert_eq!(s, "00010203-0405-4607-8809-0a0b0c0d0e0f");
    assert_eq!(bytes[6], 0x46);
    assert_eq!(bytes[8], 0x88);
    let mut zeros = [0u8; 16];
    assert_eq!(format_uuid_v4(&mut zeros), "00000000-0000-4000-8000-000000000000");
}

#[test]
fn fresh_ids_differ() {
    let a = new_register_global_id();
    let b = new_register_global_id();
    assert_ne!(a, b);
    assert_eq!(&a[18..19], "4");
}

#[test]
fn register_rules() {
    assert_eq!(check_register_input(&RegisterInput { id: None, name: " ".to_string() }).unwrap_err(), "Register name is required");
    assert!(check_register_input(&RegisterInput { id: Some(2), name: "Lane 2".to_string() }).is_ok());
    assert_eq!(check_set_active(false, 1).unwrap_err(), "Cannot deactivate the only active register");
    assert!(check_set_active(false, 2).is_ok());
    assert!(check_set_active(true, 0).is_ok());
    assert_eq!(check_select_register(None).unwrap_err(), "That register does not exist or is inactive");
    assert!(check_select_register(Some(3)).is_ok());
}

#[test]
fn configured_register_falls_back_to_one() {
    assert_eq!(configured_register_id("3"), 3);
    assert_eq!(configured_register_id("-2"), -2);
    assert_eq!(configured_register_id("lane"), 1);
    assert_eq!(configured_register_id(""), 1);
    assert_eq!(global_id_or_default(None), "reg-00000000-0000-0000-0000-000000000001");
    assert_eq!(global_id_or_default(Some("reg-x".to_string())), "reg-x");
}
