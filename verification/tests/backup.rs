use speedway_pos::backup::{
    assess_backup, backup_filename, backup_size_sane, compat, integrity_ok, restore_outcome, parse_restore_marker, restore_marker, retention_plan,
    sha256_hex, to_hex, vacuum_into_sql, BackupChecks, BackupMeta, CURRENT_SCHEMA_VERSION,
};

fn meta(filename: &str, created_at: &str, kind: &str) -> BackupMeta {
    BackupMeta {
        filename: filename.to_string(),
        created_at: created_at.to_string(),
        app_version: "1.0.0".to_string(),
        schema_version: CURRENT_SCHEMA_VERSION,
        source_size: 4096,
        backup_size: 4096,
        sha256: String::new(),
        kind: kind.to_string(),
    }
}

#[test]
fn compat_same_schema_is_compatible() {
    assert_eq!(compat(CURRENT_SCHEMA_VERSION), "Compatible");
}

#[test]
fn compat_older_needs_upgrade() {
    assert_eq!(compat(CURRENT_SCHEMA_VERSION - 1), "UpgradeRequired");
}

#[test]
fn compat_newer_rejected() {
    assert_eq!(compat(CURRENT_SCHEMA_VERSION + 1), "NewerApplicationRequired");
}

#[test]
fn compat_invalid_rejected() {
    assert_eq!(compat(-1), "InvalidBackup");
}

#[test]
fn checksum_is_deterministic_and_detects_change() {
    let h1 = sha256_hex(b"hello world");
    let h2 = sha256_hex(b"hello world");
    assert_eq!(h1, h2);
    let h3 = sha256_hex(b"hello WORLD");
    assert_ne!(h1, h3);
}

#[test]
fn checksum_matches_known_sha256_vectors() {
    assert_eq!(
        sha256_hex(b"hello world"),
        "b94d27b9934d3e08a52e52d7da7dabfac484efe37a5380ee9088f7ace2efcde9"
    );
    assert_eq!(
        sha256_hex(b""),
        "e3b0c44298fc1c149afbf4c8996fb92427ae41e4649b934ca495991b7852b855"
    );
    assert_eq!(sha256_hex(b"abc").len(), 64);
}

#[test]
fn hex_is_lower_case_two_digits_per_byte() {
    assert_eq!(to_hex(&vec![0u8, 15, 16, 171, 255]), "000f10abff");
    assert_eq!(to_hex(&vec![]), "");
}

#[test]
fn backup_file_names() {
    assert_eq!(backup_filename("manual", "1700000000"), "speedway-manual-1700000000.db");
    assert_eq!(backup_filename("safety", "42"), "speedway-safety-42.db");
}

#[test]
fn vacuum_statement_quotes_the_path() {
    assert_eq!(vacuum_into_sql("/tmp/a.db"), "VACUUM INTO '/tmp/a.db'");
    assert_eq!(vacuum_into_sql("/tmp/o'neil.db"), "VACUUM INTO '/tmp/o''neil.db'");
}

#[test]
fn missing_backup_is_invalid() {
    let v = assess_backup(None);
    assert!(!v.valid);
    assert_eq!(v.checks.len(), 1);
    assert_eq!(v.checks[0].0, "file_exists");
    assert!(!v.checks[0].1);
    assert_eq!(v.compatibility, "InvalidBackup");
    assert_eq!(v.message, "Backup file not found");
}

#[test]
fn good_backup_is_valid() {
    let v = assess_backup(Some(BackupChecks {
        size_ok: true,
        checksums: Some(("abc".to_string(), "abc".to_string())),
        can_open: true,
        integrity_ok: true,
        schema_version: CURRENT_SCHEMA_VERSION,
    }));
    assert!(v.valid);
    assert_eq!(v.compatibility, "Compatible");
    assert_eq!(v.schema_version, CURRENT_SCHEMA_VERSION);
    assert!(v.checks.iter().all(|(_, ok)| *ok));
}

#[test]
fn checksum_mismatch_makes_backup_invalid() {
    let v = assess_backup(Some(BackupChecks {
        size_ok: true,
        checksums: Some(("abc".to_string(), "abd".to_string())),
        can_open: true,
        integrity_ok: true,
        schema_version: CURRENT_SCHEMA_VERSION,
    }));
    assert!(!v.valid);
}

#[test]
fn older_schema_backup_is_not_valid_but_upgradable() {
    let v = assess_backup(Some(BackupChecks {
        size_ok: true,
        checksums: Some(("abc".to_string(), "abc".to_string())),
        can_open: true,
        integrity_ok: true,
        schema_version: CURRENT_SCHEMA_VERSION - 2,
    }));
    assert!(!v.valid);
    assert_eq!(v.compatibility, "UpgradeRequired");
}

#[test]
fn retention_keeps_the_newest_of_each_kind() {
    let metas = vec![
        meta("m4.db", "40", "manual"),
        meta("a3.db", "35", "automatic"),
        meta("m3.db", "30", "manual"),
        meta("s1.db", "25", "safety"),
        meta("a2.db", "22", "automatic"),
        meta("m2.db", "20", "manual"),
        meta("a1.db", "12", "automatic"),
        meta("m1.db", "10", "manual"),
    ];
    let del = retention_plan(&metas, "", 2, 1);
    assert_eq!(del, vec!["m2.db".to_string(), "m1.db".to_string(), "a2.db".to_string(), "a1.db".to_string()]);
}

#[test]
fn retention_spares_the_newest_backup_and_the_pending_restore() {
    let metas = vec![
        meta("a3.db", "35", "automatic"),
        meta("m2.db", "20", "manual"),
        meta("m1.db", "10", "manual"),
    ];
    // keep nothing: still the newest backup overall survives, and the file the
    // pending-restore marker names
    let del = retention_plan(&metas, "restore=m1.db\nsafety=s.db\n", 0, 0);
    assert_eq!(del, vec!["m2.db".to_string()]);
    assert!(retention_plan(&vec![], "", 0, 0).is_empty());
}

#[test]
fn restore_marker_round_trips() {
    let m = restore_marker("speedway-manual-1.db", "speedway-safety-2.db");
    assert_eq!(m, "restore=speedway-manual-1.db\nsafety=speedway-safety-2.db\n");
    let (r, s) = parse_restore_marker(&m);
    assert_eq!(r.as_deref(), Some("speedway-manual-1.db"));
    assert_eq!(s.as_deref(), Some("speedway-safety-2.db"));
}

#[test]
fn restore_marker_tolerates_crlf_and_missing_keys() {
    let (r, s) = parse_restore_marker("restore=x.db\r\nother=1\r\n");
    assert_eq!(r.as_deref(), Some("x.db"));
    assert_eq!(s, None);
    let (r, s) = parse_restore_marker("");
    assert_eq!(r, None);
    assert_eq!(s, None);
}

#[test]
fn listing_is_newest_first_and_stable() {
    let metas = vec![
        meta("b.db", "200", "manual"),
        meta("a.db", "100", "automatic"),
        meta("c.db", "300", "manual"),
        meta("d.db", "200", "safety"),
        meta("e.db", "1000", "manual"),
    ];
    let sorted = speedway_pos::backup::newest_first(&metas);
    let names: Vec<&str> = sorted.iter().map(|m| m.filename.as_str()).collect();
    // stamps compare as text, as the listing always has: "300" > "200" > "1000" > "100"
    assert_eq!(names, vec!["c.db", "b.db", "d.db", "e.db", "a.db"]);
    assert!(speedway_pos::backup::newest_first(&vec![]).is_empty());
}

#[test]
fn backup_size_and_integrity_inputs() {
    assert!(!backup_size_sane(0));
    assert!(!backup_size_sane(512));
    assert!(backup_size_sane(513));
    assert!(integrity_ok(&Some("ok".to_string())));
    assert!(!integrity_ok(&Some("*** in database main ***".to_string())));
    assert!(!integrity_ok(&Some("OK".to_string())));
    assert!(!integrity_ok(&None));
}

#[test]
fn restore_outcome_reports_and_rolls_back_only_on_failure() {
    let (status, rollback) = restore_outcome("pos_manual_1.db", None, Some("pos_safety_2.db".to_string()));
    assert_eq!(status, "restore applied from pos_manual_1.db");
    assert_eq!(rollback, None);
    let (status, rollback) =
        restore_outcome("pos_manual_1.db", Some("disk full".to_string()), Some("pos_safety_2.db".to_string()));
    assert_eq!(status, "restore FAILED (disk full); rolled back to safety");
    assert_eq!(rollback, Some("pos_safety_2.db".to_string()));
    let (_, rollback) = restore_outcome("pos_manual_1.db", Some("disk full".to_string()), None);
    assert_eq!(rollback, None);
}
