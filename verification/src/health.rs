//! System health status, the diagnostics summary, and when an automatic
//! backup is due.

use vstd::prelude::*;
use vstd::string::StringExecFns;
use crate::backup::BackupMeta;
use crate::text::{clone_opt_string, dec_int, dec_nat, parse_u64, parse_u64_spec, push_i64, push_u64, str_eq};

verus! {

pub struct HealthReport {
    /// Healthy | Attention | Error
    pub db_status: String,
    pub schema_version: i64,
    pub db_size: u64,
    pub wal_size: u64,
    /// ok | failed | not_run
    pub integrity: String,
    pub wal_mode: String,
    /// Healthy | Attention | NeverBackedUp | Failed
    pub backup_status: String,
    pub last_backup: Option<String>,
    pub last_backup_kind: Option<String>,
    pub auto_frequency: String,
    pub app_version: String,
    pub platform: String,
    pub sync_status: String,
}

/// The integrity status: not run, `PRAGMA integrity_check` answered "ok", or
/// anything else (including a failed query).
pub open spec fn integrity_spec(result: Option<Option<String>>) -> Seq<char> {
    match result {
        None => "not_run"@,
        Some(Some(v)) => if v@ == "ok"@ { "ok"@ } else { "failed"@ },
        Some(None) => "failed"@,
    }
}

pub open spec fn db_status_spec(integrity: Seq<char>, schema_version: int) -> Seq<char> {
    if integrity == "failed"@ { "Error"@ } else if schema_version < 0 { "Attention"@ } else { "Healthy"@ }
}

/// A recorded backup error marks backups "Failed" when there are none and
/// "Attention" otherwise.
pub open spec fn backup_status_spec(has_backup: bool, last_error: Seq<char>) -> Seq<char> {
    if last_error.len() > 0 && !has_backup {
        "Failed"@
    } else if last_error.len() > 0 {
        "Attention"@
    } else if has_backup {
        "Healthy"@
    } else {
        "NeverBackedUp"@
    }
}

/// The health report. `integrity` is `None` when the integrity pragma was not run,
/// `Some(None)` when it could not run, else its answer; `newest` is the newest
/// backup, if any; `last_error` the recorded backup error ("" when none).
pub fn health_report(
    db_size: u64,
    wal_size: u64,
    schema_version: i64,
    integrity: Option<Option<String>>,
    newest: Option<&BackupMeta>,
    last_error: &str,
    auto_frequency: String,
    app_version: String,
    platform: String,
) -> (r: HealthReport)
    ensures
        r.integrity@ == integrity_spec(integrity),
        r.db_status@ == db_status_spec(integrity_spec(integrity), schema_version as int),
        r.schema_version == schema_version,
        r.db_size == db_size,
        r.wal_size == wal_size,
        r.wal_mode@ == "WAL"@,
        r.backup_status@ == backup_status_spec(newest is Some, last_error@),
        r.last_backup == (match newest { Some(m) => Some(m.created_at), None => None::<String> }),
        r.last_backup_kind == (match newest { Some(m) => Some(m.kind), None => None::<String> }),
        r.auto_frequency == auto_frequency,
        r.app_version == app_version,
        r.platform == platform,
        r.sync_status@ == "Disabled"@,
{
    let integrity_text = match &integrity {
        None => String::from_str("not_run"),
        Some(Some(v)) => if str_eq(v.as_str(), "ok") { String::from_str("ok") } else { String::from_str("failed") },
        Some(None) => String::from_str("failed"),
    };
    let db_status = if str_eq(integrity_text.as_str(), "failed") {
        String::from_str("Error")
    } else if schema_version < 0 {
        String::from_str("Attention")
    } else {
        String::from_str("Healthy")
    };
    let (last_backup, last_backup_kind) = match newest {
        Some(m) => (Some(m.created_at.clone()), Some(m.kind.clone())),
        None => (None, None),
    };
    let has_error = !last_error.is_empty();
    let backup_status = if has_error && newest.is_none() {
        String::from_str("Failed")
    } else if has_error {
        String::from_str("Attention")
    } else if newest.is_some() {
        String::from_str("Healthy")
    } else {
        String::from_str("NeverBackedUp")
    };
    HealthReport {
        db_status,
        schema_version,
        db_size,
        wal_size,
        integrity: integrity_text,
        wal_mode: String::from_str("WAL"),
        backup_status,
        last_backup,
        last_backup_kind,
        auto_frequency,
        app_version,
        platform,
        sync_status: String::from_str("Disabled"),
    }
}

pub open spec fn diagnostic_spec(
    app_version: Seq<char>,
    platform: Seq<char>,
    schema_version: int,
    db_size: nat,
    wal_size: nat,
    newest: Option<(Seq<char>, Seq<char>)>,
    auto_frequency: Seq<char>,
) -> Seq<char> {
    "Speedway POS Diagnostics\napp_version: "@ + app_version
        + "\nplatform: "@ + platform
        + "\nschema_version: "@ + dec_int(schema_version)
        + "\ndb_size_bytes: "@ + dec_nat(db_size)
        + "\nwal_mode: WAL\nwal_size_bytes: "@ + dec_nat(wal_size)
        + "\nbackup_status: "@ + (if newest is Some { "Healthy"@ } else { "NeverBackedUp"@ })
        + "\nlast_backup: "@ + (match newest { Some(n) => n.0, None => "never"@ })
        + "\nlast_backup_kind: "@ + (match newest { Some(n) => n.1, None => "n/a"@ })
        + "\nauto_backup: "@ + auto_frequency
        + "\nsync: Disabled\n"@
}

/// The diagnostics summary: versions, sizes and backup state, nothing personal.
pub fn diagnostic_text(
    app_version: &str,
    platform: &str,
    schema_version: i64,
    db_size: u64,
    wal_size: u64,
    newest: Option<&BackupMeta>,
    auto_frequency: &str,
) -> (r: String)
    ensures
        r@ == diagnostic_spec(app_version@, platform@, schema_version as int, db_size as nat, wal_size as nat,
            match newest { Some(m) => Some((m.created_at@, m.kind@)), None => None }, auto_frequency@),
{
    let mut s = String::from_str("Speedway POS Diagnostics\napp_version: ");
    s.append(app_version);
    s.append("\nplatform: ");
    s.append(platform);
    s.append("\nschema_version: ");
    push_i64(&mut s, schema_version);
    s.append("\ndb_size_bytes: ");
    push_u64(&mut s, db_size);
    s.append("\nwal_mode: WAL\nwal_size_bytes: ");
    push_u64(&mut s, wal_size);
    s.append("\nbackup_status: ");
    match newest {
        Some(_) => s.append("Healthy"),
        None => s.append("NeverBackedUp"),
    }
    s.append("\nlast_backup: ");
    match newest {
        Some(m) => s.append(m.created_at.as_str()),
        None => s.append("never"),
    }
    s.append("\nlast_backup_kind: ");
    match newest {
        Some(m) => s.append(m.kind.as_str()),
        None => s.append("n/a"),
    }
    s.append("\nauto_backup: ");
    s.append(auto_frequency);
    s.append("\nsync: Disabled\n");
    s
}

// ---------------------------------------------------------------------------
// Automatic backups
// ---------------------------------------------------------------------------

pub open spec fn auto_backup_days_spec(freq: Seq<char>) -> nat {
    if freq == "daily"@ { 1 } else if freq == "every3"@ { 3 } else if freq == "weekly"@ { 7 } else { 0 }
}

/// Days between automatic backups for the configured frequency (0: none).
pub fn auto_backup_days(freq: &str) -> (r: u64)
    ensures
        r == auto_backup_days_spec(freq@),
        r <= 7,
{
    if str_eq(freq, "daily") { 1 } else if str_eq(freq, "every3") { 3 } else if str_eq(freq, "weekly") { 7 } else { 0 }
}

/// Index of the newest automatic backup in a newest-first list.
pub open spec fn first_automatic(metas: Seq<BackupMeta>) -> Option<int>
    decreases metas.len(),
{
    if metas.len() == 0 {
        None
    } else if metas[0].kind@ == "automatic"@ {
        Some(0)
    } else {
        match first_automatic(metas.drop_first()) {
            Some(i) => Some(i + 1),
            None => None,
        }
    }
}

/// Creation time in seconds recorded for a backup (0 when unreadable).
pub open spec fn created_secs(m: BackupMeta) -> int {
    match parse_u64_spec(m.created_at@) {
        Some(v) => v,
        None => 0,
    }
}

pub open spec fn auto_backup_due_spec(metas: Seq<BackupMeta>, now: int, days: int) -> bool {
    match first_automatic(metas) {
        None => true,
        Some(i) => {
            let last = created_secs(metas[i]);
            (if now >= last { now - last } else { 0 }) >= days * 86_400
        },
    }
}

/// An automatic backup is due when there is none yet, or the newest one is at
/// least `days` days old at `now` (seconds).
pub fn auto_backup_due(metas: &Vec<BackupMeta>, now: u64, days: u64) -> (r: bool)
    requires
        days * 86_400 <= u64::MAX,
    ensures
        r == auto_backup_due_spec(metas@, now as int, days as int),
{
    let mut i: usize = 0;
    while i < metas.len()
        invariant
            i <= metas.len(),
            days * 86_400 <= u64::MAX,
            forall|k: int| 0 <= k < i ==> metas@[k].kind@ != "automatic"@,
        decreases metas.len() - i,
    {
        if str_eq(metas[i].kind.as_str(), "automatic") {
            let last = match parse_u64(metas[i].created_at.as_str()) {
                Some(v) => v,
                None => 0,
            };
            proof {
                lemma_first_automatic(metas@, i as int);
            }
            return now.saturating_sub(last) >= days * 86_400;
        }
        i = i + 1;
    }
    proof {
        lemma_no_automatic(metas@);
    }
    true
}

proof fn lemma_first_automatic(metas: Seq<BackupMeta>, i: int)
    requires
        0 <= i < metas.len(),
        metas[i].kind@ == "automatic"@,
        forall|k: int| 0 <= k < i ==> metas[k].kind@ != "automatic"@,
    ensures
        first_automatic(metas) == Some(i),
    decreases i,
{
    if i > 0 {
        let rest = metas.drop_first();
        assert forall|k: int| 0 <= k < i - 1 implies rest[k].kind@ != "automatic"@ by {
            assert(rest[k] == metas[k + 1]);
        }
        assert(rest[i - 1] == metas[i]);
        lemma_first_automatic(rest, i - 1);
        assert(metas[0].kind@ != "automatic"@);
    }
}

proof fn lemma_no_automatic(metas: Seq<BackupMeta>)
    requires
        forall|k: int| 0 <= k < metas.len() ==> metas[k].kind@ != "automatic"@,
    ensures
        first_automatic(metas) is None,
    decreases metas.len(),
{
    if metas.len() > 0 {
        let rest = metas.drop_first();
        assert forall|k: int| 0 <= k < rest.len() implies rest[k].kind@ != "automatic"@ by {
            assert(rest[k] == metas[k + 1]);
        }
        lemma_no_automatic(rest);
        assert(metas[0].kind@ != "automatic"@);
    }
}

} // verus!
