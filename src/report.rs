//! What operations hand back to their callers.
use vstd::prelude::*;
use crate::locator::DeviceDescriptor;

verus! {

/// A device listed as a printer.
pub struct PrinterInfo {
    pub vendor_id: u16,
    pub product_id: u16,
    pub name: String,
    pub connected: bool,
}

/// The outcome of an operation that succeeded, with a message for the user.
pub struct PrintResult {
    pub success: bool,
    pub message: String,
}

pub open spec fn digit_char(d: nat) -> char {
    if d == 0 {
        '0'
    } else if d == 1 {
        '1'
    } else if d == 2 {
        '2'
    } else if d == 3 {
        '3'
    } else if d == 4 {
        '4'
    } else if d == 5 {
        '5'
    } else if d == 6 {
        '6'
    } else if d == 7 {
        '7'
    } else if d == 8 {
        '8'
    } else {
        '9'
    }
}

/// The decimal notation of `n`, without leading zeros.
pub open spec fn decimal(n: nat) -> Seq<char>
    decreases n,
{
    if n < 10 {
        seq![digit_char(n)]
    } else {
        decimal(n / 10).push(digit_char(n % 10))
    }
}

/// The label of a printer whose product string could not be read.
pub open spec fn fallback_name() -> Seq<char> {
    "USB Printer"@
}

fn digit_str(d: usize) -> (r: &'static str)
    requires
        d < 10,
    ensures
        r@ == seq![digit_char(d as nat)],
{
    proof {
        reveal_strlit("0");
        reveal_strlit("1");
        reveal_strlit("2");
        reveal_strlit("3");
        reveal_strlit("4");
        reveal_strlit("5");
        reveal_strlit("6");
        reveal_strlit("7");
        reveal_strlit("8");
        reveal_strlit("9");
    }
    let r = if d == 0 {
        "0"
    } else if d == 1 {
        "1"
    } else if d == 2 {
        "2"
    } else if d == 3 {
        "3"
    } else if d == 4 {
        "4"
    } else if d == 5 {
        "5"
    } else if d == 6 {
        "6"
    } else if d == 7 {
        "7"
    } else if d == 8 {
        "8"
    } else {
        "9"
    };
    assert(r@ =~= seq![digit_char(d as nat)]);
    r
}

/// `prefix` followed by `rest`.
pub(crate) fn concat(prefix: &str, rest: &str) -> (r: String)
    ensures
        r@ == prefix@ + rest@,
{
    let mut r = String::from_str(prefix);
    r.append(rest);
    r
}

/// The decimal notation of `n`.
pub fn decimal_string(n: usize) -> (r: String)
    ensures
        r@ == decimal(n as nat),
    decreases n,
{
    if n < 10 {
        String::from_str(digit_str(n))
    } else {
        let mut r = decimal_string(n / 10);
        r.append(digit_str(n % 10));
        r
    }
}

/// The list entry for a device; `product_name` is its product string when it
/// could be read.
pub fn printer_info(d: DeviceDescriptor, product_name: Option<String>, connected: bool) -> (r:
    PrinterInfo)
    ensures
        r.vendor_id == d.vendor_id,
        r.product_id == d.product_id,
        r.connected == connected,
        r.name@ == match product_name {
            Some(s) => s@,
            None => fallback_name(),
        },
{
    let name = match product_name {
        Some(s) => s,
        None => String::from_str("USB Printer"),
    };
    PrinterInfo { vendor_id: d.vendor_id, product_id: d.product_id, name, connected }
}

} // verus!
