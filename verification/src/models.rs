//! Records shared by several parts of the library.

use vstd::prelude::*;

verus! {

/// The signed-in cashier.
pub struct SessionInfo {
    pub session_id: i64,
    pub cashier_id: i64,
    pub name: String,
    pub role: String,
}

impl Clone for SessionInfo {
    fn clone(&self) -> (r: Self)
        ensures
            r == *self,
    {
        SessionInfo {
            session_id: self.session_id,
            cashier_id: self.cashier_id,
            name: self.name.clone(),
            role: self.role.clone(),
        }
    }
}

/// A cash-drawer shift as stored.
pub struct Shift {
    pub id: i64,
    pub register_id: i64,
    pub cashier_id: i64,
    pub opening_float: i64,
    pub counted_cash: Option<i64>,
    pub expected_cash: Option<i64>,
    pub over_short: Option<i64>,
    pub status: String,
    pub opened_at: String,
    pub closed_at: Option<String>,
}

/// A sale as listed among the recent ones.
pub struct SaleSummary {
    pub id: i64,
    pub total: i64,
    pub created_at: String,
}

/// A product category.
pub struct Category {
    pub id: i64,
    pub name: String,
}

/// One inventory movement: a signed quantity change and its reason.
pub struct Movement {
    pub id: i64,
    pub product_id: i64,
    pub delta: i64,
    pub reason: String,
    pub created_at: String,
}

/// A staff account, without its PIN hash.
pub struct Cashier {
    pub id: i64,
    pub name: String,
    pub role: String,
    pub active: bool,
    pub created_at: String,
    pub updated_at: String,
}

} // verus!
