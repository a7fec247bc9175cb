//! The audit trail: who may read it and how its action filter is matched.

use vstd::prelude::*;
use vstd::string::StringExecFns;
use crate::models::SessionInfo;
use crate::security::{role_can, role_can_spec};

verus! {

/// One entry of the append-only audit trail, with the acting user's name.
pub struct AuditRow {
    pub id: i64,
    pub user: Option<String>,
    pub action: String,
    pub entity: Option<String>,
    pub entity_id: Option<i64>,
    pub detail: Option<String>,
    pub created_at: String,
}

/// Who may read the audit trail: a signed-in user whose role may change settings.
pub fn check_audit_access(session: &Option<SessionInfo>) -> (r: Result<SessionInfo, String>)
    ensures
        session is None ==> (r matches Err(m) && m@ == "Not signed in"@),
        session matches Some(s) ==> (if role_can_spec(s.role@, "settings"@) {
            r == Ok::<SessionInfo, String>(*s)
        } else {
            r matches Err(m) && m@ == "The audit log requires a manager"@
        }),
{
    match session {
        None => Err(String::from_str("Not signed in")),
        Some(s) => {
            if role_can(s.role.as_str(), "settings") {
                Ok(s.clone())
            } else {
                Err(String::from_str("The audit log requires a manager"))
            }
        },
    }
}

pub open spec fn action_pattern_spec(action_like: Option<Seq<char>>) -> Seq<char> {
    let inner = match action_like {
        Some(a) => a,
        None => Seq::empty(),
    };
    "%"@ + inner + "%"@
}

/// The `LIKE` pattern that matches actions containing `action_like`; with no
/// filter it matches every action.
pub fn audit_action_pattern(action_like: &Option<String>) -> (r: String)
    ensures
        r@ == action_pattern_spec(match action_like {
            Some(a) => Some(a@),
            None => None,
        }),
{
    let mut p = String::from_str("%");
    match action_like {
        Some(a) => {
            p.append(a.as_str());
        },
        None => {},
    }
    p.append("%");
    assert(p@ =~= action_pattern_spec(match action_like {
        Some(a) => Some(a@),
        None => None,
    }));
    p
}

} // verus!
