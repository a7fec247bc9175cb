//! Device abstraction: capability traits, the simulated adapters, and the one
//! rule that decides when the cash drawer opens by itself.
//!
//! Hardware is only ever driven after a sale has committed; a device failure
//! is reported in a `DeviceResult`, never by failing the sale.

use vstd::prelude::*;
use vstd::string::StringExecFns;
use crate::text::{dec_nat, push_u64, str_eq};

verus! {

/// Honest device status: a simulated device never reports as connected.
#[derive(Debug, Clone, Copy, PartialEq, Eq, Structural)]
pub enum DeviceStatus {
    Ready,
    Simulated,
    WindowAvailable,
    NotConfigured,
    Disconnected,
    Testing,
    Error,
}

#[derive(Debug, Clone, Copy, PartialEq, Eq, Structural)]
pub enum DeviceKind {
    BarcodeScanner,
    ReceiptPrinter,
    CashDrawer,
    CustomerDisplay,
    InvoicePrinter,
    LabelPrinter,
}

/// How a device is driven. `NativeEscpos` describes a future adapter.
#[derive(Debug, Clone, Copy, PartialEq, Eq, Structural)]
pub enum DeviceMode {
    Simulated,
    KeyboardWedge,
    SecondaryWindow,
    SystemPrint,
    NativeEscpos,
    Disabled,
}

/// The variant name of a mode, as `{:?}` prints it.
pub open spec fn mode_name_spec(mode: DeviceMode) -> Seq<char> {
    match mode {
        DeviceMode::Simulated => "Simulated"@,
        DeviceMode::KeyboardWedge => "KeyboardWedge"@,
        DeviceMode::SecondaryWindow => "SecondaryWindow"@,
        DeviceMode::SystemPrint => "SystemPrint"@,
        DeviceMode::NativeEscpos => "NativeEscpos"@,
        DeviceMode::Disabled => "Disabled"@,
    }
}

pub fn mode_name(mode: DeviceMode) -> (r: String)
    ensures
        r@ == mode_name_spec(mode),
{
    match mode {
        DeviceMode::Simulated => String::from_str("Simulated"),
        DeviceMode::KeyboardWedge => String::from_str("KeyboardWedge"),
        DeviceMode::SecondaryWindow => String::from_str("SecondaryWindow"),
        DeviceMode::SystemPrint => String::from_str("SystemPrint"),
        DeviceMode::NativeEscpos => String::from_str("NativeEscpos"),
        DeviceMode::Disabled => String::from_str("Disabled"),
    }
}

/// The outcome of a device action.
pub struct DeviceResult {
    pub ok: bool,
    pub mode: String,
    pub message: String,
}

impl DeviceResult {
    pub fn ok(mode: DeviceMode, message: String) -> (r: Self)
        ensures
            r.ok,
            r.mode@ == mode_name_spec(mode),
            r.message == message,
    {
        DeviceResult { ok: true, mode: mode_name(mode), message }
    }

    pub fn err(mode: DeviceMode, message: String) -> (r: Self)
        ensures
            !r.ok,
            r.mode@ == mode_name_spec(mode),
            r.message == message,
    {
        DeviceResult { ok: false, mode: mode_name(mode), message }
    }
}

// ---------------------------------------------------------------------------
// Capability traits
// ---------------------------------------------------------------------------

pub trait ReceiptPrinter {
    fn print_receipt(&self, doc: &str) -> DeviceResult;

    fn status(&self) -> DeviceStatus;
}

pub trait CashDrawer {
    fn open(&self, reason: &str) -> DeviceResult;

    fn status(&self) -> DeviceStatus;
}

pub trait DocumentPrinter {
    fn print_document(&self, doc: &str) -> DeviceResult;

    fn status(&self) -> DeviceStatus;
}

pub trait LabelPrinter {
    fn print_labels(&self, doc: &str, count: u32) -> DeviceResult;

    fn status(&self) -> DeviceStatus;
}

// ---------------------------------------------------------------------------
// Simulated adapters
// ---------------------------------------------------------------------------

/// A software receipt printer; `fail` forces the failure path.
pub struct SimulatedReceiptPrinter {
    pub fail: bool,
}

impl ReceiptPrinter for SimulatedReceiptPrinter {
    /// Succeeds (reporting the document's size in bytes) unless forced to fail.
    fn print_receipt(&self, doc: &str) -> (r: DeviceResult)
        ensures
            r.ok == !self.fail,
            r.mode@ == "Simulated"@,
            self.fail ==> r.message@ == "Simulated printer failure"@,
            !self.fail ==> r.message@ == "Rendered "@ + dec_nat(doc.len() as nat) + " chars"@,
    {
        if self.fail {
            return DeviceResult::err(DeviceMode::Simulated, String::from_str("Simulated printer failure"));
        }
        let n = doc.len();
        let mut m = String::from_str("Rendered ");
        push_u64(&mut m, n as u64);
        m.append(" chars");
        DeviceResult::ok(DeviceMode::Simulated, m)
    }

    fn status(&self) -> (r: DeviceStatus)
        ensures
            r == DeviceStatus::Simulated,
    {
        DeviceStatus::Simulated
    }
}

/// A software cash drawer; `fail` forces the failure path.
pub struct SimulatedCashDrawer {
    pub fail: bool,
}

impl CashDrawer for SimulatedCashDrawer {
    fn open(&self, reason: &str) -> (r: DeviceResult)
        ensures
            r.ok == !self.fail,
            r.mode@ == "Simulated"@,
            self.fail ==> r.message@ == "Simulated drawer failure"@,
            !self.fail ==> r.message@ == "Drawer opened: "@ + reason@,
    {
        if self.fail {
            return DeviceResult::err(DeviceMode::Simulated, String::from_str("Simulated drawer failure"));
        }
        let mut m = String::from_str("Drawer opened: ");
        m.append(reason);
        DeviceResult::ok(DeviceMode::Simulated, m)
    }

    fn status(&self) -> (r: DeviceStatus)
        ensures
            r == DeviceStatus::Simulated,
    {
        DeviceStatus::Simulated
    }
}

// ---------------------------------------------------------------------------
// The cash-drawer rule
// ---------------------------------------------------------------------------

/// Drawer events open the drawer; sales and refunds open it when paid in cash,
/// or by card when the store allows it; nothing else does.
pub open spec fn should_auto_open_drawer_spec(event: Seq<char>, tender_kind: Option<Seq<char>>, allow_card_drawer: bool) -> bool {
    if event == "no_sale"@ || event == "paid_in"@ || event == "paid_out"@ || event == "safe_drop"@ {
        true
    } else if event == "sale"@ || event == "refund"@ {
        match tender_kind {
            Some(k) => if k == "cash"@ { true } else if k == "card"@ { allow_card_drawer } else { false },
            None => false,
        }
    } else {
        false
    }
}

pub open spec fn opt_view(o: Option<&str>) -> Option<Seq<char>> {
    match o {
        Some(s) => Some(s@),
        None => None,
    }
}

/// The single rule for whether an event opens the drawer by itself.
pub fn should_auto_open_drawer(event: &str, tender_kind: Option<&str>, allow_card_drawer: bool) -> (r: bool)
    ensures
        r == should_auto_open_drawer_spec(event@, opt_view(tender_kind), allow_card_drawer),
{
    if str_eq(event, "no_sale") || str_eq(event, "paid_in") || str_eq(event, "paid_out") || str_eq(event, "safe_drop") {
        true
    } else if str_eq(event, "sale") || str_eq(event, "refund") {
        match tender_kind {
            Some(k) => {
                if str_eq(k, "cash") {
                    true
                } else if str_eq(k, "card") {
                    allow_card_drawer
                } else {
                    false
                }
            },
            None => false,
        }
    } else {
        false
    }
}

/// A card-only sale or refund never opens the drawer unless the store allows it.
pub proof fn lemma_card_needs_configuration(event: Seq<char>)
    ensures
        !should_auto_open_drawer_spec(event, Some("card"@), false)
            || event == "no_sale"@ || event == "paid_in"@ || event == "paid_out"@ || event == "safe_drop"@,
{
    reveal_strlit("card");
    reveal_strlit("cash");
    assert("card"@ != "cash"@) by {
        assert("card"@[2] != "cash"@[2]);
    }
}

} // verus!
