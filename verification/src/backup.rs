//! Backup policy: schema compatibility, validation results, checksums,
//! retention, restore staging markers, health and diagnostics.

use vstd::prelude::*;
use vstd::string::StringExecFns;
use sha2::{Digest, Sha256};
use crate::text::{
    chars_of, dec_int, dec_nat, lines_spec, parse_u64, parse_u64_spec, push_char, push_i64, push_u64,
    seq_contains, seq_starts_with, split_lines, str_eq, strip_prefix, string_views, contains,
    clone_opt_string, lines_scan, strip_cr, text_less, text_lt, lemma_text_lt_asymmetric,
    lemma_text_not_lt_transitive,
};

verus! {

/// Schema version of this build (migrations 0001..0009).
pub const CURRENT_SCHEMA_VERSION: i64 = 9;

// ---------------------------------------------------------------------------
// Compatibility
// ---------------------------------------------------------------------------

pub open spec fn compat_spec(schema_version: int) -> Seq<char> {
    if schema_version < 0 {
        "InvalidBackup"@
    } else if schema_version == CURRENT_SCHEMA_VERSION {
        "Compatible"@
    } else if schema_version < CURRENT_SCHEMA_VERSION {
        "UpgradeRequired"@
    } else {
        "NewerApplicationRequired"@
    }
}

/// How a backup of schema `schema_version` relates to this build: unreadable,
/// the same, older (migrated forward on open) or newer (refused).
pub fn compat(schema_version: i64) -> (r: String)
    ensures
        r@ == compat_spec(schema_version as int),
{
    if schema_version < 0 {
        return String::from_str("InvalidBackup");
    }
    if schema_version == CURRENT_SCHEMA_VERSION {
        return String::from_str("Compatible");
    }
    if schema_version < CURRENT_SCHEMA_VERSION {
        return String::from_str("UpgradeRequired");
    }
    String::from_str("NewerApplicationRequired")
}

// ---------------------------------------------------------------------------
// Metadata and validation
// ---------------------------------------------------------------------------

/// The sidecar metadata written next to each backup file.
pub struct BackupMeta {
    pub filename: String,
    pub created_at: String,
    pub app_version: String,
    pub schema_version: i64,
    pub source_size: u64,
    pub backup_size: u64,
    pub sha256: String,
    /// "manual" | "automatic" | "safety"
    pub kind: String,
}

impl Clone for BackupMeta {
    fn clone(&self) -> (r: Self)
        ensures
            r == *self,
    {
        BackupMeta {
            filename: self.filename.clone(),
            created_at: self.created_at.clone(),
            app_version: self.app_version.clone(),
            schema_version: self.schema_version,
            source_size: self.source_size,
            backup_size: self.backup_size,
            sha256: self.sha256.clone(),
            kind: self.kind.clone(),
        }
    }
}

pub struct ValidationResult {
    pub valid: bool,
    pub checks: Vec<(String, bool)>,
    pub schema_version: i64,
    /// Compatible | UpgradeRequired | NewerApplicationRequired | InvalidBackup
    pub compatibility: String,
    pub message: String,
}

/// What was found out about an existing backup file.
pub struct BackupChecks {
    /// The file is larger than 512 bytes.
    pub size_ok: bool,
    /// (checksum of the file, checksum recorded in its sidecar), when both
    /// could be read.
    pub checksums: Option<(String, String)>,
    pub can_open: bool,
    pub integrity_ok: bool,
    /// `PRAGMA user_version`, or -1 when it could not be read.
    pub schema_version: i64,
}

pub open spec fn check_views(v: Seq<(String, bool)>) -> Seq<(Seq<char>, bool)> {
    v.map_values(|p: (String, bool)| (p.0@, p.1))
}

pub open spec fn checksum_ok_spec(c: BackupChecks) -> bool {
    match c.checksums {
        Some((actual, recorded)) => actual@ == recorded@,
        None => false,
    }
}

pub open spec fn backup_valid_spec(c: BackupChecks) -> bool {
    c.size_ok && checksum_ok_spec(c) && c.can_open && c.integrity_ok
        && compat_spec(c.schema_version as int) == "Compatible"@
}

/// A backup is valid exactly when it passed every check: it is large enough,
/// matches its recorded checksum, opens, passes the integrity check, has a
/// readable schema, and that schema is this build's. Failing any one check,
/// the integrity check among them, refuses it.
pub proof fn lemma_valid_backup_passed_every_check(c: BackupChecks)
    ensures
        backup_valid_spec(c) <==> (c.size_ok && c.can_open && c.integrity_ok && c.schema_version == CURRENT_SCHEMA_VERSION
            && match c.checksums { Some(pair) => pair.0@ == pair.1@, None => false }),
        !c.integrity_ok ==> !backup_valid_spec(c),
        !c.size_ok || !c.can_open || c.checksums is None ==> !backup_valid_spec(c),
{
    reveal_strlit("Compatible");
    reveal_strlit("InvalidBackup");
    reveal_strlit("UpgradeRequired");
    reveal_strlit("NewerApplicationRequired");
    assert("Compatible"@[0] == 'C' && "InvalidBackup"@[0] == 'I' && "UpgradeRequired"@[0] == 'U'
        && "NewerApplicationRequired"@[0] == 'N');
}

fn named_check(name: &str, ok: bool) -> (r: (String, bool))
    ensures
        r.0@ == name@,
        r.1 == ok,
{
    (String::from_str(name), ok)
}

/// The assessment of a backup file (`None`: the file does not exist). A backup is
/// valid when it is large enough, matches its recorded checksum, opens, passes
/// the integrity check and has this build's schema.
pub fn assess_backup(checks: Option<BackupChecks>) -> (r: ValidationResult)
    ensures
        checks is None ==> {
            &&& !r.valid
            &&& check_views(r.checks@) == seq![("file_exists"@, false)]
            &&& r.schema_version == -1
            &&& r.compatibility@ == "InvalidBackup"@
            &&& r.message@ == "Backup file not found"@
        },
        checks matches Some(c) ==> {
            &&& r.valid == backup_valid_spec(c)
            &&& check_views(r.checks@) == seq![
                ("file_exists"@, true),
                ("size_sane"@, c.size_ok),
                ("checksum_matches"@, checksum_ok_spec(c)),
                ("sqlite_opens"@, c.can_open),
                ("integrity_check"@, c.integrity_ok),
                ("schema_readable"@, c.schema_version >= 0)
            ]
            &&& r.schema_version == c.schema_version
            &&& r.compatibility@ == compat_spec(c.schema_version as int)
            &&& r.message@ == (if r.valid { "Backup is valid and compatible"@ } else {
                "Validation issues — compatibility: "@ + compat_spec(c.schema_version as int) })
        },
        r.valid <==> (r.compatibility@ == "Compatible"@
            && forall|i: int| 0 <= i < r.checks@.len() ==> (#[trigger] r.checks@[i]).1),
{
    match checks {
        None => {
            let mut v: Vec<(String, bool)> = Vec::new();
            v.push(named_check("file_exists", false));
            assert(check_views(v@) =~= seq![("file_exists"@, false)]);
            proof {
                reveal_strlit("Compatible");
                reveal_strlit("InvalidBackup");
                assert("Compatible"@[0] == 'C' && "InvalidBackup"@[0] == 'I');
                assert(check_views(v@)[0] == ("file_exists"@, false));
                assert(!v@[0].1);
            }
            let r = ValidationResult {
                valid: false,
                checks: v,
                schema_version: -1,
                compatibility: String::from_str("InvalidBackup"),
                message: String::from_str("Backup file not found"),
            };
            assert(!r.checks@[0].1);
            assert(r.compatibility@ != "Compatible"@);
            r
        },
        Some(c) => {
            let checksum_ok = match &c.checksums {
                Some((actual, recorded)) => str_eq(actual.as_str(), recorded.as_str()),
                None => false,
            };
            let compatibility = compat(c.schema_version);
            let is_compatible = str_eq(compatibility.as_str(), "Compatible");
            let valid = c.size_ok && checksum_ok && c.can_open && c.integrity_ok && is_compatible;
            let mut v: Vec<(String, bool)> = Vec::new();
            v.push(named_check("file_exists", true));
            v.push(named_check("size_sane", c.size_ok));
            v.push(named_check("checksum_matches", checksum_ok));
            v.push(named_check("sqlite_opens", c.can_open));
            v.push(named_check("integrity_check", c.integrity_ok));
            v.push(named_check("schema_readable", c.schema_version >= 0));
            assert(check_views(v@) =~= seq![
                ("file_exists"@, true),
                ("size_sane"@, c.size_ok),
                ("checksum_matches"@, checksum_ok_spec(c)),
                ("sqlite_opens"@, c.can_open),
                ("integrity_check"@, c.integrity_ok),
                ("schema_readable"@, c.schema_version >= 0)
            ]);
            proof {
                reveal_strlit("Compatible");
                reveal_strlit("InvalidBackup");
                assert("Compatible"@[0] == 'C' && "InvalidBackup"@[0] == 'I');
                assert(compat_spec(c.schema_version as int) == "Compatible"@ ==> c.schema_version >= 0);
                assert(v@.len() == 6);
                assert(v@[0].1 && v@[1].1 == c.size_ok && v@[2].1 == checksum_ok && v@[3].1 == c.can_open
                    && v@[4].1 == c.integrity_ok && v@[5].1 == (c.schema_version >= 0));
                if valid {
                    assert forall|i: int| 0 <= i < v@.len() implies (#[trigger] v@[i]).1 by {
                        assert(i == 0 || i == 1 || i == 2 || i == 3 || i == 4 || i == 5);
                    }
                }
            }
            let message = if valid {
                String::from_str("Backup is valid and compatible")
            } else {
                let mut m = String::from_str("Validation issues — compatibility: ");
                m.append(compatibility.as_str());
                m
            };
            let r = ValidationResult { valid, checks: v, schema_version: c.schema_version, compatibility, message };
            proof {
                if r.compatibility@ == "Compatible"@ && forall|i: int| 0 <= i < r.checks@.len() ==> (#[trigger] r.checks@[i]).1 {
                    assert(r.checks@[1].1 && r.checks@[2].1 && r.checks@[3].1 && r.checks@[4].1);
                }
            }
            r
        },
    }
}

// ---------------------------------------------------------------------------
// Checksums
// ---------------------------------------------------------------------------

/// The SHA-256 digest of `data`.
pub uninterp spec fn sha256_of(data: Seq<u8>) -> Seq<u8>;

/// `Sha256::digest`: the 32-byte SHA-256 digest of `data`.
#[verifier::external_body]
fn sha256_digest(data: &[u8]) -> (r: Vec<u8>)
    ensures
        r@ == sha256_of(data@),
        r@.len() == 32,
{
    Sha256::digest(data).to_vec()
}

pub open spec fn hex_digit(d: int) -> char {
    if d < 10 { crate::text::digit_char(d) } else if d == 10 { 'a' } else if d == 11 { 'b' }
    else if d == 12 { 'c' } else if d == 13 { 'd' } else if d == 14 { 'e' } else { 'f' }
}

/// Lower-case hex of bytes, two digits per byte, most significant nibble first.
pub open spec fn hex_text(bytes: Seq<u8>) -> Seq<char>
    decreases bytes.len(),
{
    if bytes.len() == 0 {
        Seq::empty()
    } else {
        hex_text(bytes.drop_last()) + seq![hex_digit((bytes.last() / 16) as int), hex_digit((bytes.last() % 16) as int)]
    }
}

fn hex_digit_char(d: u8) -> (c: char)
    requires
        d < 16,
    ensures
        c == hex_digit(d as int),
{
    if d == 0 { '0' } else if d == 1 { '1' } else if d == 2 { '2' } else if d == 3 { '3' }
    else if d == 4 { '4' } else if d == 5 { '5' } else if d == 6 { '6' } else if d == 7 { '7' }
    else if d == 8 { '8' } else if d == 9 { '9' } else if d == 10 { 'a' } else if d == 11 { 'b' }
    else if d == 12 { 'c' } else if d == 13 { 'd' } else if d == 14 { 'e' } else { 'f' }
}

/// Lower-case hex of `bytes`.
pub fn to_hex(bytes: &Vec<u8>) -> (r: String)
    ensures
        r@ == hex_text(bytes@),
{
    let mut s = String::new();
    let mut i: usize = 0;
    while i < bytes.len()
        invariant
            i <= bytes.len(),
            s@ == hex_text(bytes@.take(i as int)),
        decreases bytes.len() - i,
    {
        let b = bytes[i];
        push_char(&mut s, hex_digit_char(b / 16));
        push_char(&mut s, hex_digit_char(b % 16));
        proof {
            assert(bytes@.take(i + 1).drop_last() =~= bytes@.take(i as int));
        }
        i = i + 1;
        assert(s@ =~= hex_text(bytes@.take(i as int)));
    }
    assert(bytes@.take(bytes.len() as int) =~= bytes@);
    s
}

/// The checksum recorded for a backup: lower-case hex SHA-256 of its bytes.
pub fn sha256_hex(data: &[u8]) -> (r: String)
    ensures
        r@ == hex_text(sha256_of(data@)),
{
    let d = sha256_digest(data);
    to_hex(&d)
}

// ---------------------------------------------------------------------------
// Creating backups
// ---------------------------------------------------------------------------

pub open spec fn backup_filename_spec(kind: Seq<char>, stamp: Seq<char>) -> Seq<char> {
    "speedway-"@ + kind + "-"@ + stamp + ".db"@
}

/// "speedway-<kind>-<stamp>.db".
pub fn backup_filename(kind: &str, stamp: &str) -> (r: String)
    ensures
        r@ == backup_filename_spec(kind@, stamp@),
{
    let mut s = String::from_str("speedway-");
    s.append(kind);
    s.append("-");
    s.append(stamp);
    s.append(".db");
    s
}

/// `s` with every `'` doubled, as an SQL string literal needs.
pub open spec fn sql_escape(s: Seq<char>) -> Seq<char>
    decreases s.len(),
{
    if s.len() == 0 {
        Seq::empty()
    } else if s.last() == '\'' {
        sql_escape(s.drop_last()) + seq!['\'', '\'']
    } else {
        sql_escape(s.drop_last()).push(s.last())
    }
}

/// "VACUUM INTO '<path>'" with the path quoted as an SQL string literal.
pub fn vacuum_into_sql(path: &str) -> (r: String)
    ensures
        r@ == "VACUUM INTO '"@ + sql_escape(path@) + "'"@,
{
    let v = chars_of(path);
    let mut s = String::from_str("VACUUM INTO '");
    let ghost head = s@;
    let mut i: usize = 0;
    while i < v.len()
        invariant
            v@ == path@,
            i <= v.len(),
            s@ == head + sql_escape(v@.take(i as int)),
        decreases v.len() - i,
    {
        let c = v[i];
        push_char(&mut s, c);
        if c == '\'' {
            push_char(&mut s, '\'');
        }
        proof {
            assert(v@.take(i + 1).drop_last() =~= v@.take(i as int));
        }
        i = i + 1;
        assert(s@ =~= head + sql_escape(v@.take(i as int)));
    }
    assert(v@.take(v.len() as int) =~= v@);
    s.append("'");
    s
}

// ---------------------------------------------------------------------------
// Listing
// ---------------------------------------------------------------------------

/// `m` placed into a newest-first list: after every backup whose stamp does
/// not sort before its own.
pub open spec fn insert_newest_first(s: Seq<BackupMeta>, m: BackupMeta) -> Seq<BackupMeta>
    decreases s.len(),
{
    if s.len() == 0 {
        seq![m]
    } else if text_lt(s.last().created_at@, m.created_at@) {
        insert_newest_first(s.drop_last(), m).push(s.last())
    } else {
        s.push(m)
    }
}

/// The backups newest first: by creation stamp, latest first, and in listing
/// order among equal stamps (what a stable descending sort gives).
pub open spec fn newest_first_spec(s: Seq<BackupMeta>) -> Seq<BackupMeta>
    decreases s.len(),
{
    if s.len() == 0 {
        s
    } else {
        insert_newest_first(newest_first_spec(s.drop_last()), s.last())
    }
}

/// No backup is listed before one with a later stamp.
pub open spec fn is_newest_first(s: Seq<BackupMeta>) -> bool {
    forall|i: int, j: int| 0 <= i < j < s.len() ==> !text_lt(#[trigger] s[i].created_at@, #[trigger] s[j].created_at@)
}

proof fn lemma_insert_split(s: Seq<BackupMeta>, m: BackupMeta, j: int)
    requires
        0 <= j <= s.len(),
        forall|k: int| j <= k < s.len() ==> text_lt(#[trigger] s[k].created_at@, m.created_at@),
    ensures
        insert_newest_first(s, m) == insert_newest_first(s.take(j), m) + s.skip(j),
    decreases s.len(),
{
    if j == s.len() {
        assert(s.take(j) =~= s);
        assert(insert_newest_first(s.take(j), m) + s.skip(j) =~= insert_newest_first(s, m));
    } else {
        let d = s.drop_last();
        assert(s.last() == s[s.len() - 1]);
        assert(text_lt(s[s.len() - 1].created_at@, m.created_at@));
        assert forall|k: int| j <= k < d.len() implies text_lt(#[trigger] d[k].created_at@, m.created_at@) by {
            assert(d[k] == s[k]);
        }
        lemma_insert_split(d, m, j);
        assert(d.take(j) =~= s.take(j));
        assert(d.skip(j).push(s.last()) =~= s.skip(j));
        assert(insert_newest_first(s, m) =~= insert_newest_first(s.take(j), m) + s.skip(j));
    }
}

/// The backup list newest first (see `newest_first_spec`).
pub fn newest_first(metas: &Vec<BackupMeta>) -> (r: Vec<BackupMeta>)
    ensures
        r@ == newest_first_spec(metas@),
{
    let mut out: Vec<BackupMeta> = Vec::new();
    let mut i: usize = 0;
    assert(metas@.take(0) =~= Seq::<BackupMeta>::empty());
    while i < metas.len()
        invariant
            i <= metas.len(),
            out@ == newest_first_spec(metas@.take(i as int)),
        decreases metas.len() - i,
    {
        let m = metas[i].clone();
        let mut j: usize = out.len();
        while j > 0
            invariant_except_break
                j <= out.len(),
                forall|k: int| j <= k < out@.len() ==> text_lt(#[trigger] out@[k].created_at@, m.created_at@),
            ensures
                j <= out.len(),
                forall|k: int| j <= k < out@.len() ==> text_lt(#[trigger] out@[k].created_at@, m.created_at@),
                j == 0 || !text_lt(out@[j - 1].created_at@, m.created_at@),
            decreases j,
        {
            if !text_less(out[j - 1].created_at.as_str(), m.created_at.as_str()) {
                break;
            }
            j = j - 1;
        }
        proof {
            lemma_insert_split(out@, m, j as int);
            if j == 0 {
                assert(out@.take(0) =~= Seq::<BackupMeta>::empty());
                assert(insert_newest_first(out@.take(0), m) =~= out@.take(0).push(m));
            } else {
                assert(out@.take(j as int).last() == out@[j - 1]);
                assert(out@.take(j as int).len() > 0);
            }
            assert(metas@.take(i + 1).drop_last() =~= metas@.take(i as int));
            assert(metas@.take(i + 1).last() == metas@[i as int]);
        }
        let ghost before = out@;
        out.insert(j, m);
        assert(out@ =~= before.take(j as int).push(m) + before.skip(j as int));
        i = i + 1;
    }
    assert(metas@.take(metas.len() as int) =~= metas@);
    out
}

proof fn lemma_insert_all_not_before(d: Seq<BackupMeta>, m: BackupMeta, key: Seq<char>)
    requires
        forall|k: int| 0 <= k < d.len() ==> !text_lt(#[trigger] d[k].created_at@, key),
        !text_lt(m.created_at@, key),
    ensures
        forall|k: int| 0 <= k < insert_newest_first(d, m).len() ==> !text_lt(
            #[trigger] insert_newest_first(d, m)[k].created_at@,
            key,
        ),
    decreases d.len(),
{
    let r = insert_newest_first(d, m);
    if d.len() == 0 {
        assert(r =~= seq![m]);
    } else {
        let e = d.drop_last();
        let x = d.last();
        assert(x == d[d.len() - 1]);
        if text_lt(x.created_at@, m.created_at@) {
            assert forall|k: int| 0 <= k < e.len() implies !text_lt(#[trigger] e[k].created_at@, key) by {
                assert(e[k] == d[k]);
            }
            lemma_insert_all_not_before(e, m, key);
            let r0 = insert_newest_first(e, m);
            assert(r == r0.push(x));
            assert forall|k: int| 0 <= k < r.len() implies !text_lt(#[trigger] r[k].created_at@, key) by {
                if k < r0.len() {
                    assert(r[k] == r0[k]);
                } else {
                    assert(r[k] == x);
                }
            }
        } else {
            assert(r == d.push(m));
            assert forall|k: int| 0 <= k < r.len() implies !text_lt(#[trigger] r[k].created_at@, key) by {
                if k < d.len() {
                    assert(r[k] == d[k]);
                } else {
                    assert(r[k] == m);
                }
            }
        }
    }
}

proof fn lemma_insert_newest_first(s: Seq<BackupMeta>, m: BackupMeta)
    requires
        is_newest_first(s),
    ensures
        is_newest_first(insert_newest_first(s, m)),
        insert_newest_first(s, m).to_multiset() =~= s.to_multiset().insert(m),
        insert_newest_first(s, m).len() == s.len() + 1,
    decreases s.len(),
{
    broadcast use vstd::seq_lib::group_to_multiset_ensures;
    if s.len() == 0 {
        assert(seq![m] =~= s.push(m));
    } else {
        let x = s.last();
        let d = s.drop_last();
        assert(s =~= d.push(x));
        assert(x == s[s.len() - 1]);
        if text_lt(x.created_at@, m.created_at@) {
            assert(is_newest_first(d)) by {
                assert forall|i: int, j: int| 0 <= i < j < d.len() implies !text_lt(
                    #[trigger] d[i].created_at@,
                    #[trigger] d[j].created_at@,
                ) by {
                    assert(d[i] == s[i] && d[j] == s[j]);
                }
            }
            lemma_insert_newest_first(d, m);
            let r0 = insert_newest_first(d, m);
            assert forall|k: int| 0 <= k < d.len() implies !text_lt(#[trigger] d[k].created_at@, x.created_at@) by {
                assert(d[k] == s[k]);
                assert(!text_lt(s[k].created_at@, s[s.len() - 1].created_at@));
            }
            lemma_text_lt_asymmetric(x.created_at@, m.created_at@);
            lemma_insert_all_not_before(d, m, x.created_at@);
            let r = r0.push(x);
            assert forall|i: int, j: int| 0 <= i < j < r.len() implies !text_lt(
                #[trigger] r[i].created_at@,
                #[trigger] r[j].created_at@,
            ) by {
                if j < r0.len() {
                    assert(r[i] == r0[i] && r[j] == r0[j]);
                } else {
                    assert(r[i] == r0[i]);
                    assert(r[j] == x);
                }
            }
            assert(r.to_multiset() =~= r0.to_multiset().insert(x));
            assert(s.to_multiset() =~= d.to_multiset().insert(x));
        } else {
            let r = s.push(m);
            assert forall|i: int, j: int| 0 <= i < j < r.len() implies !text_lt(
                #[trigger] r[i].created_at@,
                #[trigger] r[j].created_at@,
            ) by {
                if j < s.len() {
                    assert(r[i] == s[i] && r[j] == s[j]);
                } else {
                    assert(r[j] == m);
                    assert(r[i] == s[i]);
                    if i < s.len() - 1 {
                        assert(!text_lt(s[i].created_at@, s[s.len() - 1].created_at@));
                        lemma_text_not_lt_transitive(s[i].created_at@, x.created_at@, m.created_at@);
                    }
                }
            }
        }
    }
}

/// The newest-first listing holds exactly the backups it was given, and no
/// backup in it comes before one with a later creation stamp.
pub proof fn lemma_newest_first_is_sorted_permutation(s: Seq<BackupMeta>)
    ensures
        newest_first_spec(s).len() == s.len(),
        newest_first_spec(s).to_multiset() =~= s.to_multiset(),
        is_newest_first(newest_first_spec(s)),
    decreases s.len(),
{
    broadcast use vstd::seq_lib::group_to_multiset_ensures;
    if s.len() > 0 {
        let d = s.drop_last();
        lemma_newest_first_is_sorted_permutation(d);
        lemma_insert_newest_first(newest_first_spec(d), s.last());
        assert(s =~= d.push(s.last()));
    }
}

// ---------------------------------------------------------------------------
// Retention
// ---------------------------------------------------------------------------

/// How many backups of `kind` the (newest-first) list holds.
pub open spec fn count_kind(metas: Seq<BackupMeta>, kind: Seq<char>) -> nat
    decreases metas.len(),
{
    if metas.len() == 0 {
        0
    } else {
        count_kind(metas.drop_last(), kind) + if metas.last().kind@ == kind { 1nat } else { 0nat }
    }
}

/// Backups of `kind` that retention deletes from the newest-first list: those
/// with at least `keep` newer backups of their kind, other than the newest
/// backup overall and any file the pending-restore marker names.
pub open spec fn retention_deletions(metas: Seq<BackupMeta>, kind: Seq<char>, keep: nat, newest: Seq<char>, protected: Seq<char>) -> Seq<Seq<char>>
    decreases metas.len(),
{
    if metas.len() == 0 {
        Seq::empty()
    } else {
        let prev = retention_deletions(metas.drop_last(), kind, keep, newest, protected);
        let m = metas.last();
        if m.kind@ == kind && count_kind(metas.drop_last(), kind) >= keep && m.filename@ != newest
            && !seq_contains(protected, m.filename@) {
            prev.push(m.filename@)
        } else {
            prev
        }
    }
}

/// The full plan: manual backups first, then automatic ones.
pub open spec fn retention_plan_spec(metas: Seq<BackupMeta>, protected: Seq<char>, keep_manual: nat, keep_auto: nat) -> Seq<Seq<char>> {
    if metas.len() == 0 {
        Seq::empty()
    } else {
        let newest = metas[0].filename@;
        retention_deletions(metas, "manual"@, keep_manual, newest, protected)
            + retention_deletions(metas, "automatic"@, keep_auto, newest, protected)
    }
}

fn kind_deletions(metas: &Vec<BackupMeta>, kind: &str, keep: usize, newest: &str, protected: &str, out: &mut Vec<String>)
    ensures
        string_views(final(out)@) == string_views(old(out)@)
            + retention_deletions(metas@, kind@, keep as nat, newest@, protected@),
{
    let mut seen: usize = 0;
    let mut i: usize = 0;
    let ghost base = string_views(old(out)@);
    while i < metas.len()
        invariant
            i <= metas.len(),
            seen as nat == count_kind(metas@.take(i as int), kind@),
            seen <= i,
            string_views(out@) == base + retention_deletions(metas@.take(i as int), kind@, keep as nat, newest@, protected@),
        decreases metas.len() - i,
    {
        let m = &metas[i];
        proof {
            assert(metas@.take(i + 1).drop_last() =~= metas@.take(i as int));
        }
        if str_eq(m.kind.as_str(), kind) {
            if seen >= keep && !str_eq(m.filename.as_str(), newest) && !contains(protected, m.filename.as_str()) {
                let ghost before = out@;
                let f = m.filename.clone();
                out.push(f);
                assert(metas@.take(i + 1).last() == metas@[i as int]);
                assert(string_views(out@) =~= string_views(before).push(f@));
                assert(string_views(out@) =~= base + retention_deletions(metas@.take(i + 1), kind@, keep as nat, newest@, protected@));
            }
            seen = seen + 1;
        }
        i = i + 1;
    }
    assert(metas@.take(metas.len() as int) =~= metas@);
}

/// Filenames that retention deletes from the newest-first backup list, keeping
/// `keep_manual` manual and `keep_auto` automatic backups. Safety backups are
/// never deleted here.
pub fn retention_plan(metas: &Vec<BackupMeta>, protected: &str, keep_manual: usize, keep_auto: usize) -> (r: Vec<String>)
    ensures
        string_views(r@) == retention_plan_spec(metas@, protected@, keep_manual as nat, keep_auto as nat),
{
    let mut out: Vec<String> = Vec::new();
    if metas.len() == 0 {
        assert(string_views(out@) =~= Seq::<Seq<char>>::empty());
        return out;
    }
    let newest = metas[0].filename.clone();
    assert(string_views(out@) =~= Seq::<Seq<char>>::empty());
    kind_deletions(metas, "manual", keep_manual, newest.as_str(), protected, &mut out);
    kind_deletions(metas, "automatic", keep_auto, newest.as_str(), protected, &mut out);
    assert(string_views(out@) =~= retention_plan_spec(metas@, protected@, keep_manual as nat, keep_auto as nat));
    out
}

proof fn lemma_deletions_are_safe(metas: Seq<BackupMeta>, kind: Seq<char>, keep: nat, newest: Seq<char>, protected: Seq<char>)
    ensures
        forall|k: int| 0 <= k < retention_deletions(metas, kind, keep, newest, protected).len() ==> {
            let f = #[trigger] retention_deletions(metas, kind, keep, newest, protected)[k];
            &&& f != newest
            &&& !seq_contains(protected, f)
            &&& exists|j: int| 0 <= j < metas.len() && metas[j].filename@ == f && metas[j].kind@ == kind
        },
    decreases metas.len(),
{
    if metas.len() > 0 {
        let prev = metas.drop_last();
        lemma_deletions_are_safe(prev, kind, keep, newest, protected);
        let d = retention_deletions(metas, kind, keep, newest, protected);
        let pd = retention_deletions(prev, kind, keep, newest, protected);
        assert forall|k: int| 0 <= k < d.len() implies {
            let f = #[trigger] d[k];
            &&& f != newest
            &&& !seq_contains(protected, f)
            &&& exists|j: int| 0 <= j < metas.len() && metas[j].filename@ == f && metas[j].kind@ == kind
        } by {
            if k < pd.len() {
                assert(d[k] == pd[k]);
                let j = choose|j: int| 0 <= j < prev.len() && prev[j].filename@ == pd[k] && prev[j].kind@ == kind;
                assert(metas[j] == prev[j]);
            } else {
                assert(d[k] == metas.last().filename@);
                assert(metas[metas.len() - 1] == metas.last());
            }
        }
    }
}

/// Retention never deletes the newest backup, never a file the pending-restore
/// marker names, and only manual or automatic backups of the list (never a
/// safety backup).
pub proof fn lemma_retention_is_safe(metas: Seq<BackupMeta>, protected: Seq<char>, keep_manual: nat, keep_auto: nat)
    requires
        metas.len() > 0,
    ensures
        forall|k: int| 0 <= k < retention_plan_spec(metas, protected, keep_manual, keep_auto).len() ==> {
            let f = #[trigger] retention_plan_spec(metas, protected, keep_manual, keep_auto)[k];
            &&& f != metas[0].filename@
            &&& !seq_contains(protected, f)
            &&& exists|j: int| 0 <= j < metas.len() && metas[j].filename@ == f
                && (metas[j].kind@ == "manual"@ || metas[j].kind@ == "automatic"@)
        },
{
    let newest = metas[0].filename@;
    let a = retention_deletions(metas, "manual"@, keep_manual, newest, protected);
    let b = retention_deletions(metas, "automatic"@, keep_auto, newest, protected);
    lemma_deletions_are_safe(metas, "manual"@, keep_manual, newest, protected);
    lemma_deletions_are_safe(metas, "automatic"@, keep_auto, newest, protected);
    let p = retention_plan_spec(metas, protected, keep_manual, keep_auto);
    assert(p == a + b);
    assert forall|k: int| 0 <= k < p.len() implies {
        let f = #[trigger] p[k];
        &&& f != metas[0].filename@
        &&& !seq_contains(protected, f)
        &&& exists|j: int| 0 <= j < metas.len() && metas[j].filename@ == f
            && (metas[j].kind@ == "manual"@ || metas[j].kind@ == "automatic"@)
    } by {
        if k < a.len() {
            assert(p[k] == a[k]);
        } else {
            assert(p[k] == b[k - a.len()]);
        }
    }
}

proof fn lemma_deletion_origin(metas: Seq<BackupMeta>, kind: Seq<char>, keep: nat, newest: Seq<char>, protected: Seq<char>)
    ensures
        forall|k: int| 0 <= k < retention_deletions(metas, kind, keep, newest, protected).len() ==> exists|i: int|
            0 <= i < metas.len() && metas[i].filename@ == #[trigger] retention_deletions(metas, kind, keep, newest, protected)[k]
                && metas[i].kind@ == kind && count_kind(metas.take(i), kind) >= keep,
    decreases metas.len(),
{
    if metas.len() > 0 {
        let prev = metas.drop_last();
        lemma_deletion_origin(prev, kind, keep, newest, protected);
        let d = retention_deletions(metas, kind, keep, newest, protected);
        let pd = retention_deletions(prev, kind, keep, newest, protected);
        assert forall|k: int| 0 <= k < d.len() implies exists|i: int|
            0 <= i < metas.len() && metas[i].filename@ == #[trigger] d[k] && metas[i].kind@ == kind
                && count_kind(metas.take(i), kind) >= keep by {
            if k < pd.len() {
                assert(d[k] == pd[k]);
                let i = choose|i: int| 0 <= i < prev.len() && prev[i].filename@ == pd[k] && prev[i].kind@ == kind
                    && count_kind(prev.take(i), kind) >= keep;
                assert(metas[i] == prev[i]);
                assert(prev.take(i) =~= metas.take(i));
            } else {
                let i = metas.len() - 1;
                assert(d[k] == metas.last().filename@);
                assert(metas[i] == metas.last());
                assert(metas.take(i) =~= prev);
            }
        }
    }
}

/// Retention keeps the newest backups of each kind: with distinct file names,
/// a manual backup that has fewer than `keep_manual` newer manual backups, or
/// an automatic one with fewer than `keep_auto` newer automatic ones, is never
/// deleted.
pub proof fn lemma_retention_keeps_newest(
    metas: Seq<BackupMeta>,
    protected: Seq<char>,
    keep_manual: nat,
    keep_auto: nat,
    j: int,
)
    requires
        0 <= j < metas.len(),
        forall|a: int, b: int| 0 <= a < b < metas.len() ==> #[trigger] metas[a].filename@ != #[trigger] metas[b].filename@,
        (metas[j].kind@ == "manual"@ && count_kind(metas.take(j), "manual"@) < keep_manual)
            || (metas[j].kind@ == "automatic"@ && count_kind(metas.take(j), "automatic"@) < keep_auto),
    ensures
        !retention_plan_spec(metas, protected, keep_manual, keep_auto).contains(metas[j].filename@),
{
    reveal_strlit("manual");
    reveal_strlit("automatic");
    assert("manual"@ != "automatic"@) by {
        assert("manual"@[0] != "automatic"@[0]);
    }
    let newest = metas[0].filename@;
    let a = retention_deletions(metas, "manual"@, keep_manual, newest, protected);
    let b = retention_deletions(metas, "automatic"@, keep_auto, newest, protected);
    lemma_deletion_origin(metas, "manual"@, keep_manual, newest, protected);
    lemma_deletion_origin(metas, "automatic"@, keep_auto, newest, protected);
    let p = retention_plan_spec(metas, protected, keep_manual, keep_auto);
    assert(p == a + b);
    let f = metas[j].filename@;
    if p.contains(f) {
        let k = choose|k: int| 0 <= k < p.len() && p[k] == f;
        if k < a.len() {
            assert(p[k] == a[k]);
            let i = choose|i: int| 0 <= i < metas.len() && metas[i].filename@ == #[trigger] a[k]
                && metas[i].kind@ == "manual"@ && count_kind(metas.take(i), "manual"@) >= keep_manual;
            if i != j {
                if i < j {
                    assert(metas[i].filename@ != metas[j].filename@);
                } else {
                    assert(metas[j].filename@ != metas[i].filename@);
                }
            }
            assert(i == j);
        } else {
            assert(p[k] == b[k - a.len()]);
            let i = choose|i: int| 0 <= i < metas.len() && metas[i].filename@ == #[trigger] b[k - a.len()]
                && metas[i].kind@ == "automatic"@ && count_kind(metas.take(i), "automatic"@) >= keep_auto;
            if i != j {
                if i < j {
                    assert(metas[i].filename@ != metas[j].filename@);
                } else {
                    assert(metas[j].filename@ != metas[i].filename@);
                }
            }
            assert(i == j);
        }
    }
}

// ---------------------------------------------------------------------------
// Restore staging
// ---------------------------------------------------------------------------

pub open spec fn restore_marker_spec(restore: Seq<char>, safety: Seq<char>) -> Seq<char> {
    "restore="@ + restore + "\n"@ + "safety="@ + safety + "\n"@
}

/// The pending-restore marker: the file to swap in and the safety backup.
pub fn restore_marker(restore: &str, safety: &str) -> (r: String)
    ensures
        r@ == restore_marker_spec(restore@, safety@),
{
    let mut s = String::from_str("restore=");
    s.append(restore);
    s.append("\n");
    s.append("safety=");
    s.append(safety);
    s.append("\n");
    s
}

/// The value of the last line that starts with `key`, without the key.
pub open spec fn marker_value(lines: Seq<Seq<char>>, key: Seq<char>) -> Option<Seq<char>>
    decreases lines.len(),
{
    if lines.len() == 0 {
        None
    } else if seq_starts_with(lines.last(), key) {
        Some(lines.last().skip(key.len() as int))
    } else {
        marker_value(lines.drop_last(), key)
    }
}

pub open spec fn opt_string_view(o: Option<String>) -> Option<Seq<char>> {
    match o {
        Some(s) => Some(s@),
        None => None,
    }
}

/// Reads a pending-restore marker: (file to restore, safety backup).
pub fn parse_restore_marker(marker: &str) -> (r: (Option<String>, Option<String>))
    ensures
        opt_string_view(r.0) == marker_value(lines_spec(marker@), "restore="@),
        opt_string_view(r.1) == marker_value(lines_spec(marker@), "safety="@),
{
    let lines = split_lines(marker);
    let ghost ls = lines_spec(marker@);
    let mut restore: Option<String> = None;
    let mut safety: Option<String> = None;
    let mut i: usize = 0;
    while i < lines.len()
        invariant
            i <= lines.len(),
            string_views(lines@) == ls,
            opt_string_view(restore) == marker_value(ls.take(i as int), "restore="@),
            opt_string_view(safety) == marker_value(ls.take(i as int), "safety="@),
        decreases lines.len() - i,
    {
        proof {
            assert(ls.take(i + 1).drop_last() =~= ls.take(i as int));
            assert(ls.take(i + 1).last() == lines@[i as int]@);
        }
        match strip_prefix(lines[i].as_str(), "restore=") {
            Some(v) => { restore = Some(v); },
            None => {},
        }
        match strip_prefix(lines[i].as_str(), "safety=") {
            Some(v) => { safety = Some(v); },
            None => {},
        }
        i = i + 1;
    }
    assert(ls.take(lines.len() as int) =~= ls);
    (restore, safety)
}

pub open spec fn restore_status_spec(restore_file: Seq<char>, failure: Option<Seq<char>>) -> Seq<char> {
    match failure {
        None => "restore applied from "@ + restore_file,
        Some(e) => "restore FAILED ("@ + e + "); rolled back to safety"@,
    }
}

/// The outcome of applying a staged restore: the status text, and the safety
/// backup to copy back over the database. `failure` is the error of the swap,
/// `None` when the restored file is in place. Only a failed swap rolls back,
/// and only to a safety backup that the marker named.
pub fn restore_outcome(restore_file: &str, failure: Option<String>, safety_file: Option<String>) -> (r: (String, Option<String>))
    ensures
        r.0@ == restore_status_spec(restore_file@, opt_string_view(failure)),
        opt_string_view(r.1) == (if failure is Some { opt_string_view(safety_file) } else { None }),
{
    match failure {
        None => {
            let mut s = String::from_str("restore applied from ");
            s.append(restore_file);
            (s, None)
        },
        Some(e) => {
            let mut s = String::from_str("restore FAILED (");
            s.append(e.as_str());
            s.append("); rolled back to safety");
            (s, safety_file)
        },
    }
}

// ---------------------------------------------------------------------------
// Validation inputs
// ---------------------------------------------------------------------------

/// A backup smaller than this cannot hold a database.
pub const MIN_BACKUP_BYTES: u64 = 512;

/// Whether a backup file's size is plausible: more than `MIN_BACKUP_BYTES`.
pub fn backup_size_sane(len: u64) -> (r: bool)
    ensures
        r == (len > MIN_BACKUP_BYTES),
{
    len > MIN_BACKUP_BYTES
}

/// Whether `PRAGMA integrity_check` reported a sound database: it ran
/// (`answer` is `Some`) and answered exactly "ok".
pub fn integrity_ok(answer: &Option<String>) -> (r: bool)
    ensures
        r == (answer matches Some(a) && a@ == "ok"@),
{
    match answer {
        Some(a) => str_eq(a.as_str(), "ok"),
        None => false,
    }
}

pub open spec fn no_newline(s: Seq<char>) -> bool {
    forall|i: int| 0 <= i < s.len() ==> #[trigger] s[i] != '\n'
}

proof fn lemma_scan_append_plain(x: Seq<char>, y: Seq<char>)
    requires
        no_newline(y),
    ensures
        lines_scan(x + y) == (lines_scan(x).0, lines_scan(x).1 + y),
    decreases y.len(),
{
    if y.len() == 0 {
        assert(x + y =~= x);
        assert(lines_scan(x).1 + y =~= lines_scan(x).1);
    } else {
        let y0 = y.drop_last();
        assert(no_newline(y0));
        lemma_scan_append_plain(x, y0);
        assert((x + y).drop_last() =~= x + y0);
        assert((x + y).last() == y.last());
        assert(y[y.len() - 1] != '\n');
        assert(lines_scan(x).1 + y0 + seq![y.last()] =~= lines_scan(x).1 + y);
    }
}

proof fn lemma_scan_append_line(x: Seq<char>, y: Seq<char>)
    requires
        no_newline(y),
    ensures
        lines_scan(x + y + "\n"@) == (lines_scan(x).0.push(strip_cr(lines_scan(x).1 + y)), Seq::<char>::empty()),
{
    reveal_strlit("\n");
    lemma_scan_append_plain(x, y);
    let z = x + y + "\n"@;
    assert(z.drop_last() =~= x + y);
    assert(z.last() == '\n');
}

/// Reading back a marker gives the two file names it was written with, when
/// neither holds a line break nor ends with a carriage return.
pub proof fn lemma_restore_marker_roundtrip(restore: Seq<char>, safety: Seq<char>)
    requires
        no_newline(restore),
        no_newline(safety),
        restore.len() > 0 ==> restore.last() != '\r',
        safety.len() > 0 ==> safety.last() != '\r',
    ensures
        marker_value(lines_spec(restore_marker_spec(restore, safety)), "restore="@) == Some(restore),
        marker_value(lines_spec(restore_marker_spec(restore, safety)), "safety="@) == Some(safety),
{
    reveal_strlit("restore=");
    reveal_strlit("safety=");
    reveal_strlit("\n");
    let l1 = "restore="@ + restore;
    let l2 = "safety="@ + safety;
    assert(no_newline(l1));
    assert(no_newline(l2));
    let e = Seq::<char>::empty();
    lemma_scan_append_line(e, l1);
    assert(e + l1 =~= l1);
    assert(lines_scan(e) == (Seq::<Seq<char>>::empty(), e));
    assert(e + l1 + "\n"@ =~= l1 + "\n"@);
    assert(strip_cr(e + l1) == l1);
    let a = l1 + "\n"@;
    lemma_scan_append_line(a, l2);
    assert(lines_scan(a).1 + l2 =~= l2);
    assert(strip_cr(l2) == l2);
    let m = restore_marker_spec(restore, safety);
    assert(m =~= a + l2 + "\n"@);
    let ls = lines_spec(m);
    assert(ls =~= seq![l1, l2]);
    assert(ls.last() == l2);
    assert(ls.drop_last() =~= seq![l1]);
    assert(!seq_starts_with(l2, "restore="@)) by {
        if seq_starts_with(l2, "restore="@) {
            assert(l2.subrange(0, 8)[0] == "restore="@[0]);
        }
    }
    assert(seq_starts_with(l1, "restore="@)) by {
        assert(l1.subrange(0, 8) =~= "restore="@);
    }
    assert(l1.skip(8) =~= restore);
    assert(seq_starts_with(l2, "safety="@)) by {
        assert(l2.subrange(0, 7) =~= "safety="@);
    }
    assert(l2.skip(7) =~= safety);
    assert(seq![l1].drop_last() =~= Seq::<Seq<char>>::empty());
    assert("restore="@.len() == 8);
    assert(seq![l1].last() == l1);
    assert(marker_value(seq![l1], "restore="@) == Some(restore));
    assert(marker_value(ls, "restore="@) == marker_value(ls.drop_last(), "restore="@));
}

} // verus!
