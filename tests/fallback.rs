use receipt_printer::dispatch::{
    first_step, next_step, print_commands, quote_for_powershell, DispatchStep, Platform,
    RunOutcome,
};
use receipt_printer::locator::DeviceDescriptor;
use receipt_printer::report::{decimal_string, printer_info};

fn finish(step: DispatchStep) -> Result<(bool, String), String> {
    match step {
        DispatchStep::Finish(Ok(p)) => Ok((p.success, p.message)),
        DispatchStep::Finish(Err(e)) => Err(e),
        DispatchStep::Run(k) => panic!("expected a result, got run {}", k),
    }
}

#[test]
fn missing_first_utility_falls_back_to_second() {
    assert!(matches!(first_step(Platform::Linux), DispatchStep::Run(0)));
    let s = next_step(Platform::Linux, 0, RunOutcome::NotStarted("No such file".to_string()));
    assert!(matches!(s, DispatchStep::Run(1)));
    let s = next_step(Platform::Linux, 1, RunOutcome::Exited { success: true, stderr: String::new() });
    assert_eq!(finish(s), Ok((true, "Printed to default system printer".to_string())));
}

#[test]
fn failing_first_utility_is_not_retried() {
    let s = next_step(
        Platform::Linux,
        0,
        RunOutcome::Exited { success: false, stderr: "lp: Error - no default destination".to_string() },
    );
    assert_eq!(finish(s), Err("Print failed: lp: Error - no default destination".to_string()));
}

#[test]
fn all_utilities_missing() {
    let s = next_step(Platform::Linux, 1, RunOutcome::NotStarted("not found".to_string()));
    assert_eq!(finish(s), Err("Failed to execute print command: not found".to_string()));
    let s = next_step(Platform::MacOs, 0, RunOutcome::NotStarted("not found".to_string()));
    assert_eq!(finish(s), Err("Failed to execute lp command: not found".to_string()));
}

#[test]
fn unsupported_platform_fails_at_once() {
    assert_eq!(
        finish(first_step(Platform::Other)),
        Err("Silent printing not supported on this platform".to_string())
    );
    assert!(print_commands(Platform::Other, "/tmp/x").is_empty());
}

#[test]
fn commands_per_platform() {
    let c = print_commands(Platform::Linux, "/tmp/job.txt");
    assert_eq!(c.len(), 2);
    assert_eq!(c[0].program, "lp");
    assert_eq!(c[0].args, vec!["/tmp/job.txt".to_string()]);
    assert_eq!(c[1].program, "lpr");
    assert_eq!(c[1].args, vec!["/tmp/job.txt".to_string()]);
    let c = print_commands(Platform::MacOs, "/tmp/job.txt");
    assert_eq!(c.len(), 1);
    assert_eq!(c[0].program, "lp");
    let c = print_commands(Platform::Windows, "C:\\Temp\\O'Brien.txt");
    assert_eq!(c.len(), 1);
    assert_eq!(c[0].program, "powershell");
    assert_eq!(
        c[0].args,
        vec!["-Command".to_string(), "Get-Content 'C:\\Temp\\O''Brien.txt' | Out-Printer".to_string()]
    );
}

#[test]
fn quotes_are_doubled() {
    assert_eq!(quote_for_powershell("a'b''c"), "a''b''''c");
    assert_eq!(quote_for_powershell(""), "");
    assert_eq!(quote_for_powershell("plain é"), "plain é");
}

#[test]
fn decimal_notation() {
    assert_eq!(decimal_string(0), "0");
    assert_eq!(decimal_string(7), "7");
    assert_eq!(decimal_string(1024), "1024");
    assert_eq!(decimal_string(usize::MAX), usize::MAX.to_string());
}

#[test]
fn printer_names() {
    let d = DeviceDescriptor { vendor_id: 0x0483, product_id: 0x5743, class_code: 0x07 };
    let p = printer_info(d, None, false);
    assert_eq!(p.name, "USB Printer");
    assert_eq!((p.vendor_id, p.product_id, p.connected), (0x0483, 0x5743, false));
    let p = printer_info(d, Some("XP-80C".to_string()), true);
    assert_eq!(p.name, "XP-80C");
    assert!(p.connected);
}
