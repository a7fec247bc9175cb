//! What the device commands decide: the device list shown in settings, the
//! drawer permission, the automatic drawer decision and the receipt document
//! rendered from a stored transaction.

use vstd::prelude::*;
use vstd::string::StringExecFns;
use crate::devices::{should_auto_open_drawer, should_auto_open_drawer_spec, opt_view, CashDrawer, DeviceResult, SimulatedCashDrawer};
use crate::pricing::trunc_div;
use crate::security::{role_can, role_can_spec};
use crate::text::{byte_len, dec_int, dec_nat, digit_char, push_i64, push_repeat, push_u64, repeat_char, str_eq, to_uppercase, uppercase_of, utf8_len};

verus! {

/// The simulated-failure switch: the setting's value is exactly "1".
pub fn sim_fail(value: &str) -> (r: bool)
    ensures
        r == (value@ == "1"@),
{
    str_eq(value, "1")
}

pub struct DeviceInfo {
    pub kind: String,
    pub label: String,
    pub mode: String,
    pub status: String,
    pub configurable: bool,
}

pub open spec fn device_info_is(d: DeviceInfo, kind: Seq<char>, label: Seq<char>, mode: Seq<char>, status: Seq<char>, configurable: bool) -> bool {
    d.kind@ == kind && d.label@ == label && d.mode@ == mode && d.status@ == status && d.configurable == configurable
}

fn device_info(kind: &str, label: &str, mode: String, status: &str, configurable: bool) -> (r: DeviceInfo)
    ensures
        device_info_is(r, kind@, label@, mode@, status@, configurable),
{
    DeviceInfo {
        kind: String::from_str(kind),
        label: String::from_str(label),
        mode,
        status: String::from_str(status),
        configurable,
    }
}

/// The devices of a register with their honest status; the printer and drawer
/// modes come from settings.
pub fn device_list(printer_mode: String, drawer_mode: String) -> (r: Vec<DeviceInfo>)
    ensures
        r@.len() == 6,
        device_info_is(r@[0], "barcode_scanner"@, "Barcode Scanner"@, "keyboard_wedge"@, "ready"@, true),
        device_info_is(r@[1], "receipt_printer"@, "Receipt Printer"@, printer_mode@, "simulated"@, true),
        device_info_is(r@[2], "cash_drawer"@, "Cash Drawer"@, drawer_mode@, "simulated"@, true),
        device_info_is(r@[3], "customer_display"@, "Customer Display"@, "secondary_window"@, "window_available"@, true),
        device_info_is(r@[4], "invoice_printer"@, "Invoice / Document Printer"@, "system_print"@, "ready"@, false),
        device_info_is(r@[5], "label_printer"@, "Label Printer"@, "system_print"@, "ready"@, false),
{
    let mut v: Vec<DeviceInfo> = Vec::new();
    v.push(device_info("barcode_scanner", "Barcode Scanner", String::from_str("keyboard_wedge"), "ready", true));
    v.push(device_info("receipt_printer", "Receipt Printer", printer_mode, "simulated", true));
    v.push(device_info("cash_drawer", "Cash Drawer", drawer_mode, "simulated", true));
    v.push(device_info("customer_display", "Customer Display", String::from_str("secondary_window"), "window_available", true));
    v.push(device_info("invoice_printer", "Invoice / Document Printer", String::from_str("system_print"), "ready", false));
    v.push(device_info("label_printer", "Label Printer", String::from_str("system_print"), "ready", false));
    v
}

/// Opening the drawer by hand needs a role allowed to, or a manager's approval.
pub fn manual_drawer_allowed(role: &str, manager_approved_by: Option<i64>) -> (r: bool)
    ensures
        r == (role_can_spec(role@, "open_drawer"@) || manager_approved_by is Some),
{
    role_can(role, "open_drawer") || manager_approved_by.is_some()
}

/// After a committed cash event: open the (simulated) drawer when the rule says
/// so, else report that no opening was needed.
pub fn auto_drawer_result(event: &str, tender_kind: Option<&str>, allow_card: bool) -> (r: DeviceResult)
    ensures
        should_auto_open_drawer_spec(event@, opt_view(tender_kind), allow_card) ==> (r.ok
            && r.mode@ == "Simulated"@ && r.message@ == "Drawer opened: "@ + event@),
        !should_auto_open_drawer_spec(event@, opt_view(tender_kind), allow_card) ==> (r.ok
            && r.mode@ == "n/a"@ && r.message@ == "No drawer open required"@),
{
    if !should_auto_open_drawer(event, tender_kind, allow_card) {
        return DeviceResult {
            ok: true,
            mode: String::from_str("n/a"),
            message: String::from_str("No drawer open required"),
        };
    }
    let drawer = SimulatedCashDrawer { fail: false };
    drawer.open(event)
}

// ---------------------------------------------------------------------------
// Receipt document
// ---------------------------------------------------------------------------

/// One item line of a stored transaction.
pub struct PrintedLine {
    pub name: String,
    pub qty: i64,
    pub line_total: i64,
}

/// Width of a receipt line in bytes.
pub open spec fn receipt_width() -> int {
    34
}

/// `{:02}` of a number below 100.
pub open spec fn two_digits(n: nat) -> Seq<char> {
    if n < 10 { seq!['0', digit_char(n as int)] } else { dec_nat(n) }
}

/// The remainder of `trunc_div`: `a % b` as Rust computes it for `i64`.
pub open spec fn trunc_rem(a: int, b: int) -> int {
    a - b * trunc_div(a, b)
}

pub open spec fn abs(a: int) -> int {
    if a < 0 { -a } else { a }
}

/// Cents as money: "$" + whole dollars (rounded toward zero) + "." + two digits.
pub open spec fn money_text(cents: int) -> Seq<char> {
    "$"@ + dec_int(trunc_div(cents, 100)) + "."@ + two_digits(abs(trunc_rem(cents, 100)) as nat)
}

/// `l` and `r` spread across the receipt width (no padding when they do not fit).
pub open spec fn spread(l: Seq<char>, r: Seq<char>) -> Seq<char> {
    let used = utf8_len(l) + utf8_len(r);
    let pad = if used >= receipt_width() { 0 } else { receipt_width() - used };
    l + repeat_char(' ', pad as nat) + r
}

pub open spec fn item_label(l: PrintedLine) -> Seq<char> {
    dec_int(l.qty as int) + "x "@ + l.name@
}

pub open spec fn items_text(items: Seq<PrintedLine>) -> Seq<char>
    decreases items.len(),
{
    if items.len() == 0 {
        Seq::empty()
    } else {
        items_text(items.drop_last()) + spread(item_label(items.last()), money_text(items.last().line_total as int)) + "\n"@
    }
}

/// The line a receipt prints for one sold item: "<qty>x <name>" and the line
/// total, spread across the width, then a newline.
pub open spec fn item_line(l: PrintedLine) -> Seq<char> {
    spread(item_label(l), money_text(l.line_total as int)) + "\n"@
}

/// The item section prints every item, in order, one line each: the section
/// for two runs of items is the section for the first followed by the section
/// for the second, and a single item prints exactly its own line. So no item
/// is dropped, repeated or reordered, whatever precedes it.
pub proof fn lemma_items_text_prints_every_item(a: Seq<PrintedLine>, b: Seq<PrintedLine>, x: PrintedLine)
    ensures
        items_text(a + b) == items_text(a) + items_text(b),
        items_text(seq![x]) == item_line(x),
        items_text(a.push(x)) == items_text(a) + item_line(x),
    decreases b.len(),
{
    assert(seq![x].drop_last() =~= Seq::<PrintedLine>::empty());
    assert(items_text(Seq::<PrintedLine>::empty()) == Seq::<char>::empty());
    assert(seq![x].last() == x);
    assert(items_text(seq![x]) =~= items_text(seq![x].drop_last()) + item_line(x));
    assert(items_text(seq![x]) =~= item_line(x));
    assert(a.push(x).drop_last() =~= a);
    assert(items_text(a.push(x)) =~= items_text(a) + item_line(x));
    if b.len() == 0 {
        assert(a + b =~= a);
        assert(items_text(a) + items_text(b) =~= items_text(a));
    } else {
        lemma_items_text_prints_every_item(a, b.drop_last(), x);
        assert((a + b).drop_last() =~= a + b.drop_last());
        assert((a + b).last() == b.last());
        assert(items_text(a + b) =~= items_text(a) + items_text(b));
    }
}

pub open spec fn dashes() -> Seq<char> {
    repeat_char('-', 34)
}

pub open spec fn receipt_head(store: Seq<char>, txn_id: int, created: Seq<char>, status: Seq<char>) -> Seq<char> {
    uppercase_of(store) + "\n"@
        + (if status != "completed"@ { "*** "@ + uppercase_of(status) + " ***\n"@ } else { Seq::empty() })
        + "Sale #"@ + dec_int(txn_id) + "  "@ + created + "\n"@
        + dashes() + "\n"@
}

pub open spec fn receipt_totals(subtotal: int, tax: int, discount: int, total: int) -> Seq<char> {
    dashes() + "\n"@
        + spread("Subtotal"@, money_text(subtotal)) + "\n"@
        + spread("Tax"@, money_text(tax)) + "\n"@
        + (if discount > 0 { spread("Discount"@, "-"@ + money_text(discount)) + "\n"@ } else { Seq::empty() })
        + spread("TOTAL"@, money_text(total))
}

pub open spec fn receipt_foot(footer: Seq<char>, kind: Seq<char>) -> Seq<char> {
    "\n"@ + dashes() + "\n"@ + footer + " ("@ + kind + ")\n"@ + dashes() + "\n"@
}

/// The receipt document for a stored transaction: the store name upper-cased,
/// a banner when the sale is no longer "completed", the sale number and time,
/// one line per item, the totals (with the discount line only when there is a
/// discount) and the footer with the tender kind.
pub open spec fn receipt_text(
    store: Seq<char>,
    footer: Seq<char>,
    txn_id: int,
    created: Seq<char>,
    subtotal: int,
    tax: int,
    discount: int,
    total: int,
    kind: Seq<char>,
    status: Seq<char>,
    items: Seq<PrintedLine>,
) -> Seq<char> {
    receipt_head(store, txn_id, created, status) + items_text(items)
        + receipt_totals(subtotal, tax, discount, total) + receipt_foot(footer, kind)
}

fn push_two_digits(s: &mut String, n: u64)
    requires
        n < 100,
    ensures
        final(s)@ == old(s)@ + two_digits(n as nat),
{
    if n < 10 {
        push_u64(s, 0);
        push_u64(s, n);
        assert(final(s)@ =~= old(s)@ + two_digits(n as nat));
    } else {
        push_u64(s, n);
    }
}

/// Money text of `cents`.
pub fn money(cents: i64) -> (r: String)
    ensures
        r@ == money_text(cents as int),
{
    let mut s = String::from_str("$");
    push_i64(&mut s, cents / 100);
    s.append(".");
    let rem = cents % 100;
    let mag: u64 = if rem < 0 { (-rem) as u64 } else { rem as u64 };
    push_two_digits(&mut s, mag);
    assert(s@ =~= money_text(cents as int));
    s
}

/// Appends `l`, padding and `r`, spread across the receipt width.
fn push_spread(s: &mut String, l: &str, r: &str)
    ensures
        final(s)@ == old(s)@ + spread(l@, r@),
{
    let w: usize = 34;
    let pad = w.saturating_sub(byte_len(l)).saturating_sub(byte_len(r));
    s.append(l);
    push_repeat(s, ' ', pad);
    s.append(r);
    assert(final(s)@ =~= old(s)@ + spread(l@, r@));
}

fn push_dashes_line(s: &mut String)
    ensures
        final(s)@ == old(s)@ + dashes() + "\n"@,
{
    push_repeat(s, '-', 34);
    s.append("\n");
    assert(final(s)@ =~= old(s)@ + dashes() + "\n"@);
}

fn push_receipt_head(out: &mut String, store: &str, txn_id: i64, created: &str, status: &str)
    ensures
        final(out)@ == old(out)@ + receipt_head(store@, txn_id as int, created@, status@),
{
    let up = to_uppercase(store);
    out.append(up.as_str());
    out.append("\n");
    if !str_eq(status, "completed") {
        out.append("*** ");
        let up = to_uppercase(status);
        out.append(up.as_str());
        out.append(" ***\n");
    }
    out.append("Sale #");
    push_i64(out, txn_id);
    out.append("  ");
    out.append(created);
    out.append("\n");
    push_dashes_line(out);
    assert(final(out)@ =~= old(out)@ + receipt_head(store@, txn_id as int, created@, status@));
}

fn push_item_lines(out: &mut String, items: &Vec<PrintedLine>)
    ensures
        final(out)@ == old(out)@ + items_text(items@),
{
    let mut i: usize = 0;
    while i < items.len()
        invariant
            i <= items.len(),
            out@ == old(out)@ + items_text(items@.take(i as int)),
        decreases items.len() - i,
    {
        let it = &items[i];
        let mut label = String::new();
        push_i64(&mut label, it.qty);
        label.append("x ");
        label.append(it.name.as_str());
        let m = money(it.line_total);
        push_spread(out, label.as_str(), m.as_str());
        out.append("\n");
        proof {
            assert(items@.take(i + 1).drop_last() =~= items@.take(i as int));
            assert(label@ =~= item_label(items@[i as int]));
        }
        i = i + 1;
        assert(out@ =~= old(out)@ + items_text(items@.take(i as int)));
    }
    assert(items@.take(items.len() as int) =~= items@);
}

fn push_receipt_totals(out: &mut String, subtotal: i64, tax: i64, discount: i64, total: i64)
    ensures
        final(out)@ == old(out)@ + receipt_totals(subtotal as int, tax as int, discount as int, total as int),
{
    push_dashes_line(out);
    let m = money(subtotal);
    push_spread(out, "Subtotal", m.as_str());
    out.append("\n");
    let m = money(tax);
    push_spread(out, "Tax", m.as_str());
    out.append("\n");
    if discount > 0 {
        let mut d = String::from_str("-");
        let m = money(discount);
        d.append(m.as_str());
        push_spread(out, "Discount", d.as_str());
        out.append("\n");
    }
    let m = money(total);
    push_spread(out, "TOTAL", m.as_str());
    assert(final(out)@ =~= old(out)@ + receipt_totals(subtotal as int, tax as int, discount as int, total as int));
}

fn push_receipt_foot(out: &mut String, footer: &str, kind: &str)
    ensures
        final(out)@ == old(out)@ + receipt_foot(footer@, kind@),
{
    out.append("\n");
    push_dashes_line(out);
    out.append(footer);
    out.append(" (");
    out.append(kind);
    out.append(")\n");
    push_dashes_line(out);
    assert(final(out)@ =~= old(out)@ + receipt_foot(footer@, kind@));
}

/// Renders the receipt of a stored transaction from its authoritative data.
pub fn render_receipt(
    store: &str,
    footer: &str,
    txn_id: i64,
    created: &str,
    subtotal: i64,
    tax: i64,
    discount: i64,
    total: i64,
    kind: &str,
    status: &str,
    items: &Vec<PrintedLine>,
) -> (r: String)
    ensures
        r@ == receipt_text(store@, footer@, txn_id as int, created@, subtotal as int, tax as int,
            discount as int, total as int, kind@, status@, items@),
{
    let mut out = String::new();
    push_receipt_head(&mut out, store, txn_id, created, status);
    push_item_lines(&mut out, items);
    push_receipt_totals(&mut out, subtotal, tax, discount, total);
    push_receipt_foot(&mut out, footer, kind);
    assert(out@ =~= receipt_text(store@, footer@, txn_id as int, created@, subtotal as int, tax as int,
        discount as int, total as int, kind@, status@, items@));
    out
}

pub open spec fn test_receipt_spec(store: Seq<char>) -> Seq<char> {
    store + "\n--- TEST RECEIPT ---\nItem A         $1.00\nTOTAL          $1.00\nThank you!"@
}

/// The printer self-test document: the store name and a fixed sample sale.
pub fn test_receipt(store: &str) -> (r: String)
    ensures
        r@ == test_receipt_spec(store@),
{
    let mut s = String::from_str(store);
    s.append("\n--- TEST RECEIPT ---\nItem A         $1.00\nTOTAL          $1.00\nThank you!");
    s
}

} // verus!
