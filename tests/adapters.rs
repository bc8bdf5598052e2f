use print_relay::dispatch::{
    admin_check_plan, plan, requires_admin, JobAction, Operation, PrintJobOptions, Request,
};
use print_relay::error::AdapterError;
use print_relay::outcome::{
    admin_verdict, after_delete, after_print, interpret, CommandOutcome, Payload, PrintStep,
};
use print_relay::parse::{job_from_line, parse_jobs, parse_printers, printers_from_names};
use print_relay::platform::{
    detect_platform, is_windows_7_or_newer, platform_label, OsFamily, PlatformKind, WindowsVersion,
};

fn s(t: &str) -> String {
    t.to_string()
}

fn finished(success: bool, stdout: &str, stderr: &str) -> CommandOutcome {
    CommandOutcome::Finished { success, stdout: s(stdout), stderr: s(stderr) }
}

fn options(remove: bool) -> PrintJobOptions {
    PrintJobOptions {
        id: s("HP_LaserJet"),
        path: s("/tmp/label.pdf"),
        print_setting: s("fit"),
        remove_after_print: remove,
    }
}

#[test]
fn malformed_middle_line_is_skipped() {
    let out = "HP-12 alice report.pdf 2024-05-01 10:00 pending\nbroken line\nHP-13 bob memo.txt 2024-05-01 10:05 held for approval\n";
    let jobs = parse_jobs(out);
    assert_eq!(jobs.len(), 2);
    assert_eq!(jobs[0].job_id, "HP-12");
    assert_eq!(jobs[0].user, "alice");
    assert_eq!(jobs[0].file, "report.pdf");
    assert_eq!(jobs[0].created, "2024-05-01 10:00");
    assert_eq!(jobs[0].status, "pending");
    assert_eq!(jobs[1].job_id, "HP-13");
    assert_eq!(jobs[1].status, "held for approval");
}

#[test]
fn empty_listing_has_no_jobs() {
    assert_eq!(parse_jobs("").len(), 0);
    assert_eq!(parse_jobs("\n\n   \n").len(), 0);
}

#[test]
fn job_line_needs_six_words() {
    assert!(job_from_line("a b c d e").is_none());
    let j = job_from_line("  7\tcarol  x.pdf Mon 12:00 printing  now\r").unwrap();
    assert_eq!(j.job_id, "7");
    assert_eq!(j.user, "carol");
    assert_eq!(j.created, "Mon 12:00");
    assert_eq!(j.status, "printing now");
}

#[test]
fn printers_are_found_and_han_is_stripped() {
    let out = "打印机HP_LaserJet闲置，启用时间始于2024年\n打印机Canon打印机现在正在打印。\n";
    let ps = parse_printers(out);
    assert_eq!(ps.len(), 2);
    assert_eq!(ps[0].id, "HP_LaserJet");
    assert_eq!(ps[0].name, "HP_LaserJet");
    assert_eq!(ps[1].id, "Canon");
    assert_eq!(ps[1].name, "Canon");
    assert_eq!(parse_printers("no printers here").len(), 0);
}

#[test]
fn printer_names_become_records() {
    let ps = printers_from_names(&vec![s("a"), s("b")]);
    assert_eq!(ps.len(), 2);
    assert_eq!(ps[1].id, "b");
    assert_eq!(ps[1].name, "b");
}

#[test]
fn platform_probe_classifies_hosts() {
    let v = |major, minor| Some(WindowsVersion { major, minor });
    assert_eq!(detect_platform(OsFamily::Windows, v(10, 0)), PlatformKind::WindowsModern);
    assert_eq!(detect_platform(OsFamily::Windows, v(6, 2)), PlatformKind::WindowsModern);
    assert_eq!(detect_platform(OsFamily::Windows, v(6, 1)), PlatformKind::WindowsLegacy);
    assert_eq!(detect_platform(OsFamily::Windows, None), PlatformKind::WindowsLegacy);
    assert_eq!(detect_platform(OsFamily::MacOs, None), PlatformKind::MacLike);
    assert_eq!(detect_platform(OsFamily::Other, None), PlatformKind::Unknown);
    assert_eq!(platform_label(PlatformKind::WindowsModern), "windows_7_above");
}

#[test]
fn platform_probe_is_idempotent() {
    let v = Some(WindowsVersion { major: 6, minor: 3 });
    assert_eq!(detect_platform(OsFamily::Windows, v), detect_platform(OsFamily::Windows, v));
}

#[test]
fn unix_resume_job_is_unsupported() {
    for (p, j) in [("", ""), ("HP", "1"), ("x; rm -rf /", "$(id)")] {
        let r = Request::Job { action: JobAction::Resume, printer: s(p), job_id: s(j) };
        assert!(matches!(plan(PlatformKind::MacLike, &r, "sm.exe"), Err(AdapterError::PlatformUnsupported)));
        assert!(plan(PlatformKind::Unknown, &r, "sm.exe").is_err());
    }
}

#[test]
fn unsupported_operations_for_each_adapter() {
    let by_name = Request::ListPrintersByName { name: s("HP") };
    assert!(plan(PlatformKind::MacLike, &by_name, "h").is_err());
    let print = Request::Print { options: options(false) };
    assert!(plan(PlatformKind::Unknown, &print, "h").is_err());
    let by_id = Request::ListJobsById { printer: s("HP"), job_id: s("3") };
    assert!(plan(PlatformKind::WindowsModern, &by_id, "h").is_ok());
    assert!(plan(PlatformKind::WindowsLegacy, &by_id, "h").is_ok());
    assert!(plan(PlatformKind::MacLike, &by_id, "h").is_err());
}

#[test]
fn values_are_passed_as_discrete_arguments() {
    let r = Request::ListJobs { printer: s("HP \"; Remove-Item *") };
    let p = plan(PlatformKind::MacLike, &r, "h").unwrap();
    assert_eq!(p.program, "lpstat");
    assert_eq!(p.args, vec![s("-o"), s("HP \"; Remove-Item *")]);
    let r = Request::Job { action: JobAction::Pause, printer: s("HP'x"), job_id: s("9") };
    let p = plan(PlatformKind::WindowsModern, &r, "h").unwrap();
    assert_eq!(p.program, "powershell");
    assert_eq!(p.args.len(), 4);
    assert!(p.args[3].starts_with("Suspend-PrintJob"));
    assert!(!p.args[3].contains("HP'x"));
    assert_eq!(p.env, vec![(s("PRINT_RELAY_PRINTER"), s("HP'x")), (s("PRINT_RELAY_JOB"), s("9"))]);
}

#[test]
fn legacy_listings_always_print_an_array() {
    for r in [
        Request::ListPrinters,
        Request::ListPrintersByName { name: s("HP") },
        Request::ListJobs { printer: s("HP") },
    ] {
        let p = plan(PlatformKind::WindowsLegacy, &r, "h").unwrap();
        assert!(p.args[3].starts_with("ConvertTo-Json -InputObject @("));
        assert!(p.args[3].ends_with(")"));
    }
}

#[test]
fn print_plans_per_adapter() {
    let r = Request::Print { options: options(false) };
    let p = plan(PlatformKind::WindowsModern, &r, "C:\\Temp\\sm.exe").unwrap();
    assert_eq!(p.program, "C:\\Temp\\sm.exe");
    assert_eq!(p.args, vec![s("-print-to"), s("HP_LaserJet"), s("fit"), s("/tmp/label.pdf")]);
    let p = plan(PlatformKind::WindowsLegacy, &r, "sm").unwrap();
    assert_eq!(p.args, vec![s("-print-to"), s("HP_LaserJet"), s("/tmp/label.pdf")]);
    let p = plan(PlatformKind::MacLike, &r, "sm").unwrap();
    assert_eq!(p.program, "lp");
    assert_eq!(
        p.args,
        vec![s("-d"), s("HP_LaserJet"), s("-o"), s("media=Custom.76x130mm"), s("/tmp/label.pdf")]
    );
}

#[test]
fn failed_command_is_external_failure() {
    let r = interpret(PlatformKind::WindowsModern, Operation::ListPrinters, finished(false, "", "boom"));
    assert!(matches!(r, Err(AdapterError::ExternalCommandFailed(d)) if d == "boom"));
    let r = interpret(
        PlatformKind::MacLike,
        Operation::ListJobs,
        CommandOutcome::NotStarted { reason: s("no lpstat") },
    );
    assert!(matches!(r, Err(AdapterError::ExternalCommandFailed(d)) if d == "no lpstat"));
}

#[test]
fn successful_outputs_are_normalised() {
    let r = interpret(PlatformKind::MacLike, Operation::ListJobs, finished(true, "1 u f d t s\n", ""));
    assert!(matches!(r, Ok(Payload::Jobs(js)) if js.len() == 1));
    let r = interpret(PlatformKind::WindowsModern, Operation::ListJobs, finished(true, " [] \n", ""));
    assert!(matches!(r, Ok(Payload::Text(t)) if t == " [] \n"));
    let r = interpret(PlatformKind::WindowsLegacy, Operation::ListJobs, finished(true, " [] \n", ""));
    assert!(matches!(r, Ok(Payload::Text(t)) if t == "[]"));
    let r = interpret(PlatformKind::WindowsLegacy, Operation::ListJobs, finished(false, "", " x \r\n"));
    assert!(matches!(r, Err(AdapterError::ExternalCommandFailed(d)) if d == "x"));
    let r = interpret(PlatformKind::WindowsModern, Operation::ListJobs, finished(false, "", " x "));
    assert!(matches!(r, Err(AdapterError::ExternalCommandFailed(d)) if d == " x "));
    let r = interpret(
        PlatformKind::WindowsLegacy,
        Operation::ListJobs,
        CommandOutcome::NotStarted { reason: s(" gone ") },
    );
    assert!(matches!(r, Err(AdapterError::ExternalCommandFailed(d)) if d == " gone "));
    let r = interpret(PlatformKind::Unknown, Operation::ListPrinters, finished(true, "打印机X闲置", ""));
    assert!(matches!(r, Ok(Payload::Printers(ps)) if ps.len() == 1 && ps[0].id == "X"));
}

#[test]
fn successful_print_deletes_once_when_asked() {
    let step = after_print(PlatformKind::WindowsModern, &options(true), finished(true, "", ""));
    assert!(matches!(step, PrintStep::Delete { path } if path == "/tmp/label.pdf"));
    let step = after_print(PlatformKind::WindowsModern, &options(false), finished(true, "", ""));
    assert!(matches!(step, PrintStep::Done(Ok(m)) if m == "Windows-打印成功"));
}

#[test]
fn failed_print_deletes_nothing() {
    let step = after_print(PlatformKind::MacLike, &options(true), finished(false, "", "no printer"));
    assert!(matches!(step, PrintStep::Done(Err(AdapterError::ExternalCommandFailed(d))) if d == "no printer"));
}

#[test]
fn delete_failure_is_reported_apart() {
    let r = after_delete(PlatformKind::WindowsLegacy, Err(s("denied")));
    assert!(matches!(r, Err(AdapterError::PostOperationCleanupFailed(d)) if d == "denied"));
    let r = after_delete(PlatformKind::WindowsLegacy, Ok(()));
    assert!(matches!(r, Ok(m) if m == "Windows7-打印成功"));
    assert_eq!(AdapterError::PostOperationCleanupFailed(s("denied")).message(), "cleanup after the operation failed: denied");
    assert_eq!(AdapterError::PlatformUnsupported.message(), "Unsupported OS");
}

#[test]
fn legacy_listing_checks_administrators() {
    assert!(requires_admin(PlatformKind::WindowsLegacy, Operation::ListPrinters));
    assert!(!requires_admin(PlatformKind::WindowsModern, Operation::ListPrinters));
    let p = admin_check_plan();
    assert_eq!(p.program, "whoami");
    assert!(admin_verdict(&finished(true, "BUILTIN\\Administrators Alias S-1-5-32-544 Enabled", "")).is_ok());
    let r = admin_verdict(&finished(true, "BUILTIN\\Users S-1-5-32-545", ""));
    assert!(matches!(r, Err(AdapterError::PrivilegesRequired)));
    assert_eq!(AdapterError::PrivilegesRequired.message(), "Administrative privileges required.");
    assert!(admin_verdict(&CommandOutcome::NotStarted { reason: s("x") }).is_err());
}

#[test]
fn every_error_has_a_message() {
    assert_eq!(AdapterError::ExternalCommandFailed(s("x")).message(), "external command failed: x");
    assert_eq!(AdapterError::ParseFailed(s("y")).message(), "output could not be parsed: y");
    assert_eq!(AdapterError::ConnectionAbsent.message(), "WebSocket connection not established");
    assert_eq!(AdapterError::BindFailed(s("in use")).message(), "relay could not bind its address: in use");
}

#[test]
fn version_threshold_is_past_six_one() {
    assert!(!is_windows_7_or_newer(WindowsVersion { major: 6, minor: 1 }));
    assert!(is_windows_7_or_newer(WindowsVersion { major: 6, minor: 2 }));
    assert!(is_windows_7_or_newer(WindowsVersion { major: 10, minor: 0 }));
    assert!(!is_windows_7_or_newer(WindowsVersion { major: 5, minor: 9 }));
}
