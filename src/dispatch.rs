//! Routing an operation to the adapter of the active platform, as a plan of
//! one external command whose caller-supplied values are discrete arguments or
//! environment entries, never part of command syntax.
use vstd::prelude::*;
use crate::error::AdapterError;
use crate::platform::PlatformKind;
use crate::text::views;

verus! {

/// A job state change.
#[derive(Clone, Copy, Debug, PartialEq, Eq, Structural)]
pub enum JobAction {
    Resume,
    Pause,
    Restart,
    Remove,
}

/// What the caller asks a print to do.
#[derive(Clone, Debug)]
pub struct PrintJobOptions {
    pub id: String,
    pub path: String,
    pub print_setting: String,
    pub remove_after_print: bool,
}

/// One operation of the adapter contract, with its arguments.
#[derive(Clone, Debug)]
pub enum Request {
    ListPrinters,
    ListPrintersByName { name: String },
    ListJobs { printer: String },
    ListJobsById { printer: String, job_id: String },
    Job { action: JobAction, printer: String, job_id: String },
    Print { options: PrintJobOptions },
}

/// The operation of a request, without its arguments.
#[derive(Clone, Copy, Debug, PartialEq, Eq, Structural)]
pub enum Operation {
    ListPrinters,
    ListPrintersByName,
    ListJobs,
    ListJobsById,
    Job(JobAction),
    Print,
}

pub open spec fn op_of(r: Request) -> Operation {
    match r {
        Request::ListPrinters => Operation::ListPrinters,
        Request::ListPrintersByName { .. } => Operation::ListPrintersByName,
        Request::ListJobs { .. } => Operation::ListJobs,
        Request::ListJobsById { .. } => Operation::ListJobsById,
        Request::Job { action, .. } => Operation::Job(action),
        Request::Print { .. } => Operation::Print,
    }
}

impl Request {
    pub fn operation(&self) -> (r: Operation)
        ensures
            r == op_of(*self),
    {
        match self {
            Request::ListPrinters => Operation::ListPrinters,
            Request::ListPrintersByName { .. } => Operation::ListPrintersByName,
            Request::ListJobs { .. } => Operation::ListJobs,
            Request::ListJobsById { .. } => Operation::ListJobsById,
            Request::Job { action, .. } => Operation::Job(*action),
            Request::Print { .. } => Operation::Print,
        }
    }
}

/// Which operations each adapter implements. The Unix-like adapter lists
/// printers and jobs and prints; an unrecognised host falls back to it for
/// listing printers only; both Windows adapters implement everything.
pub open spec fn supports(k: PlatformKind, op: Operation) -> bool {
    match k {
        PlatformKind::WindowsModern => true,
        PlatformKind::WindowsLegacy => true,
        PlatformKind::MacLike => op == Operation::ListPrinters || op == Operation::ListJobs || op
            == Operation::Print,
        PlatformKind::Unknown => op == Operation::ListPrinters,
    }
}

pub fn is_supported(k: PlatformKind, op: Operation) -> (r: bool)
    ensures
        r == supports(k, op),
{
    match k {
        PlatformKind::WindowsModern => true,
        PlatformKind::WindowsLegacy => true,
        PlatformKind::MacLike => match op {
            Operation::ListPrinters | Operation::ListJobs | Operation::Print => true,
            _ => false,
        },
        PlatformKind::Unknown => match op {
            Operation::ListPrinters => true,
            _ => false,
        },
    }
}

/// One external command: the program, its arguments, and environment entries
/// that the command reads its parameters from.
#[derive(Clone, Debug)]
pub struct CommandPlan {
    pub program: String,
    pub args: Vec<String>,
    pub env: Vec<(String, String)>,
}

pub struct PlanView {
    pub program: Seq<char>,
    pub args: Seq<Seq<char>>,
    pub env: Seq<(Seq<char>, Seq<char>)>,
}

pub open spec fn env_views(e: Seq<(String, String)>) -> Seq<(Seq<char>, Seq<char>)> {
    e.map_values(|p: (String, String)| (p.0@, p.1@))
}

impl View for CommandPlan {
    type V = PlanView;

    open spec fn view(&self) -> PlanView {
        PlanView { program: self.program@, args: views(self.args@), env: env_views(self.env@) }
    }
}

pub open spec fn printer_var() -> Seq<char> {
    "PRINT_RELAY_PRINTER"@
}

pub open spec fn job_var() -> Seq<char> {
    "PRINT_RELAY_JOB"@
}

/// The PowerShell script of an operation on a Windows adapter. Scripts read
/// the printer and the job from the environment.
pub open spec fn script_of(legacy: bool, op: Operation) -> Seq<char> {
    match op {
        Operation::ListPrinters => if legacy {
            "ConvertTo-Json -InputObject @(Get-WmiObject -Class Win32_Printer | ForEach-Object { [pscustomobject]@{ id = $_.Name.Trim(); name = $_.Name.Trim() } })"@
        } else {
            "Get-Printer | Select-Object Name, DriverName, JobCount, PrintProcessor, PortName, ShareName, ComputerName, PrinterStatus, Shared, Type, Priority | ConvertTo-Json"@
        },
        Operation::ListPrintersByName => if legacy {
            "ConvertTo-Json -InputObject @(Get-WmiObject -Class Win32_Printer | Where-Object { $_.Name -eq $env:PRINT_RELAY_PRINTER } | ForEach-Object { [pscustomobject]@{ id = $_.Name.Trim(); name = $_.Name.Trim(); DriverName = $_.DriverName; JobCount = $_.JobCount; PrintProcessor = $_.PrintProcessor; PortName = $_.PortName; ShareName = $_.ShareName; ComputerName = $_.SystemName; PrinterStatus = $_.PrinterStatus; Shared = $_.Shared; Type = [string]$_.Type; Priority = $_.Priority } })"@
        } else {
            "Get-Printer -Name $env:PRINT_RELAY_PRINTER | Select-Object Name, DriverName, JobCount, PrintProcessor, PortName, ShareName, ComputerName, PrinterStatus, Shared, Type, Priority | ConvertTo-Json"@
        },
        Operation::ListJobs => if legacy {
            "ConvertTo-Json -InputObject @(Get-WmiObject -Class Win32_PrintJob | Where-Object { $_.Name.Contains($env:PRINT_RELAY_PRINTER) } | ForEach-Object { [pscustomobject]@{ DocumentName = $_.Document; SubmittedTime = $_.TimeSubmitted; UserName = $_.Owner; PrinterName = $_.HostPrintQueue } })"@
        } else {
            "Get-PrintJob -PrinterName $env:PRINT_RELAY_PRINTER | Select-Object DocumentName, SubmittedTime, UserName, PrinterName | ConvertTo-Json"@
        },
        Operation::ListJobsById => "Get-PrintJob -PrinterName $env:PRINT_RELAY_PRINTER -ID $env:PRINT_RELAY_JOB | Select-Object DocumentName, Id, TotalPages, Position, Size, UserName, PagesPrinted, JobTime, ComputerName, Datatype, PrinterName, Priority, SubmittedTime, JobStatus | ConvertTo-Json"@,
        Operation::Job(JobAction::Resume) => "Resume-PrintJob -PrinterName $env:PRINT_RELAY_PRINTER -ID $env:PRINT_RELAY_JOB"@,
        Operation::Job(JobAction::Pause) => "Suspend-PrintJob -PrinterName $env:PRINT_RELAY_PRINTER -ID $env:PRINT_RELAY_JOB"@,
        Operation::Job(JobAction::Restart) => "Restart-PrintJob -PrinterName $env:PRINT_RELAY_PRINTER -ID $env:PRINT_RELAY_JOB"@,
        Operation::Job(JobAction::Remove) => "Remove-PrintJob -PrinterName $env:PRINT_RELAY_PRINTER -ID $env:PRINT_RELAY_JOB"@,
        Operation::Print => seq![],
    }
}

pub open spec fn powershell(script: Seq<char>, env: Seq<(Seq<char>, Seq<char>)>) -> PlanView {
    PlanView {
        program: "powershell"@,
        args: seq!["-NoProfile"@, "-NonInteractive"@, "-Command"@, script],
        env,
    }
}

/// The command that carries out `r` on adapter `k`; `helper` is the path of
/// the PDF print helper that the Windows adapters run.
pub open spec fn plan_of(k: PlatformKind, r: Request, helper: Seq<char>) -> PlanView {
    let legacy = k == PlatformKind::WindowsLegacy;
    if k == PlatformKind::MacLike || k == PlatformKind::Unknown {
        match r {
            Request::ListJobs { printer } => PlanView {
                program: "lpstat"@,
                args: seq!["-o"@, printer@],
                env: seq![],
            },
            Request::Print { options } => PlanView {
                program: "lp"@,
                args: seq!["-d"@, options.id@, "-o"@, "media=Custom.76x130mm"@, options.path@],
                env: seq![],
            },
            _ => PlanView { program: "lpstat"@, args: seq!["-p"@], env: seq![] },
        }
    } else {
        match r {
            Request::ListPrinters => powershell(script_of(legacy, op_of(r)), seq![]),
            Request::ListPrintersByName { name } => powershell(
                script_of(legacy, op_of(r)),
                seq![(printer_var(), name@)],
            ),
            Request::ListJobs { printer } => powershell(
                script_of(legacy, op_of(r)),
                seq![(printer_var(), printer@)],
            ),
            Request::ListJobsById { printer, job_id } => powershell(
                script_of(legacy, op_of(r)),
                seq![(printer_var(), printer@), (job_var(), job_id@)],
            ),
            Request::Job { printer, job_id, .. } => powershell(
                script_of(legacy, op_of(r)),
                seq![(printer_var(), printer@), (job_var(), job_id@)],
            ),
            Request::Print { options } => PlanView {
                program: helper,
                args: if legacy {
                    seq!["-print-to"@, options.id@, options.path@]
                } else {
                    seq!["-print-to"@, options.id@, options.print_setting@, options.path@]
                },
                env: seq![],
            },
        }
    }
}

fn script_text(legacy: bool, op: Operation) -> (r: String)
    ensures
        r@ == script_of(legacy, op),
{
    match op {
        Operation::ListPrinters => if legacy {
            String::from_str("ConvertTo-Json -InputObject @(Get-WmiObject -Class Win32_Printer | ForEach-Object { [pscustomobject]@{ id = $_.Name.Trim(); name = $_.Name.Trim() } })")
        } else {
            String::from_str("Get-Printer | Select-Object Name, DriverName, JobCount, PrintProcessor, PortName, ShareName, ComputerName, PrinterStatus, Shared, Type, Priority | ConvertTo-Json")
        },
        Operation::ListPrintersByName => if legacy {
            String::from_str("ConvertTo-Json -InputObject @(Get-WmiObject -Class Win32_Printer | Where-Object { $_.Name -eq $env:PRINT_RELAY_PRINTER } | ForEach-Object { [pscustomobject]@{ id = $_.Name.Trim(); name = $_.Name.Trim(); DriverName = $_.DriverName; JobCount = $_.JobCount; PrintProcessor = $_.PrintProcessor; PortName = $_.PortName; ShareName = $_.ShareName; ComputerName = $_.SystemName; PrinterStatus = $_.PrinterStatus; Shared = $_.Shared; Type = [string]$_.Type; Priority = $_.Priority } })")
        } else {
            String::from_str("Get-Printer -Name $env:PRINT_RELAY_PRINTER | Select-Object Name, DriverName, JobCount, PrintProcessor, PortName, ShareName, ComputerName, PrinterStatus, Shared, Type, Priority | ConvertTo-Json")
        },
        Operation::ListJobs => if legacy {
            String::from_str("ConvertTo-Json -InputObject @(Get-WmiObject -Class Win32_PrintJob | Where-Object { $_.Name.Contains($env:PRINT_RELAY_PRINTER) } | ForEach-Object { [pscustomobject]@{ DocumentName = $_.Document; SubmittedTime = $_.TimeSubmitted; UserName = $_.Owner; PrinterName = $_.HostPrintQueue } })")
        } else {
            String::from_str("Get-PrintJob -PrinterName $env:PRINT_RELAY_PRINTER | Select-Object DocumentName, SubmittedTime, UserName, PrinterName | ConvertTo-Json")
        },
        Operation::ListJobsById => String::from_str("Get-PrintJob -PrinterName $env:PRINT_RELAY_PRINTER -ID $env:PRINT_RELAY_JOB | Select-Object DocumentName, Id, TotalPages, Position, Size, UserName, PagesPrinted, JobTime, ComputerName, Datatype, PrinterName, Priority, SubmittedTime, JobStatus | ConvertTo-Json"),
        Operation::Job(JobAction::Resume) => String::from_str("Resume-PrintJob -PrinterName $env:PRINT_RELAY_PRINTER -ID $env:PRINT_RELAY_JOB"),
        Operation::Job(JobAction::Pause) => String::from_str("Suspend-PrintJob -PrinterName $env:PRINT_RELAY_PRINTER -ID $env:PRINT_RELAY_JOB"),
        Operation::Job(JobAction::Restart) => String::from_str("Restart-PrintJob -PrinterName $env:PRINT_RELAY_PRINTER -ID $env:PRINT_RELAY_JOB"),
        Operation::Job(JobAction::Remove) => String::from_str("Remove-PrintJob -PrinterName $env:PRINT_RELAY_PRINTER -ID $env:PRINT_RELAY_JOB"),
        Operation::Print => String::new(),
    }
}

fn text(s: &str) -> (r: String)
    ensures
        r@ == s@,
{
    String::from_str(s)
}

fn powershell_plan(script: String, env: Vec<(String, String)>) -> (r: CommandPlan)
    ensures
        r@ == powershell(script@, env_views(env@)),
{
    let args = vec![text("-NoProfile"), text("-NonInteractive"), text("-Command"), script];
    let r = CommandPlan { program: text("powershell"), args, env };
    proof {
        assert(r@.args =~= powershell(script@, env_views(env@)).args);
    }
    r
}

fn env_entry(name: &str, value: &String) -> (r: (String, String))
    ensures
        r.0@ == name@,
        r.1@ == value@,
{
    (text(name), value.clone())
}

/// The command that carries out `request` on adapter `kind`, or
/// `PlatformUnsupported` exactly where that adapter does not implement the
/// operation; nothing is run either way.
pub fn plan(kind: PlatformKind, request: &Request, helper: &str) -> (r: Result<
    CommandPlan,
    AdapterError,
>)
    ensures
        match r {
            Ok(p) => supports(kind, op_of(*request)) && p@ == plan_of(kind, *request, helper@),
            Err(e) => !supports(kind, op_of(*request)) && e is PlatformUnsupported,
        },
{
    let op = request.operation();
    if !is_supported(kind, op) {
        return Err(AdapterError::PlatformUnsupported);
    }
    let legacy = kind == PlatformKind::WindowsLegacy;
    if kind == PlatformKind::MacLike || kind == PlatformKind::Unknown {
        let p = match request {
            Request::ListJobs { printer } => CommandPlan {
                program: text("lpstat"),
                args: vec![text("-o"), printer.clone()],
                env: Vec::new(),
            },
            Request::Print { options } => CommandPlan {
                program: text("lp"),
                args: vec![
                    text("-d"),
                    options.id.clone(),
                    text("-o"),
                    text("media=Custom.76x130mm"),
                    options.path.clone(),
                ],
                env: Vec::new(),
            },
            _ => CommandPlan { program: text("lpstat"), args: vec![text("-p")], env: Vec::new() },
        };
        proof {
            let v = plan_of(kind, *request, helper@);
            assert(p@.args =~= v.args);
            assert(p@.env =~= v.env);
        }
        return Ok(p);
    }
    let script = script_text(legacy, op);
    let p = match request {
        Request::ListPrinters => powershell_plan(script, Vec::new()),
        Request::ListPrintersByName { name } => powershell_plan(
            script,
            vec![env_entry("PRINT_RELAY_PRINTER", name)],
        ),
        Request::ListJobs { printer } => powershell_plan(
            script,
            vec![env_entry("PRINT_RELAY_PRINTER", printer)],
        ),
        Request::ListJobsById { printer, job_id } => powershell_plan(
            script,
            vec![env_entry("PRINT_RELAY_PRINTER", printer), env_entry("PRINT_RELAY_JOB", job_id)],
        ),
        Request::Job { printer, job_id, .. } => powershell_plan(
            script,
            vec![env_entry("PRINT_RELAY_PRINTER", printer), env_entry("PRINT_RELAY_JOB", job_id)],
        ),
        Request::Print { options } => {
            let args = if legacy {
                vec![text("-print-to"), options.id.clone(), options.path.clone()]
            } else {
                vec![
                    text("-print-to"),
                    options.id.clone(),
                    options.print_setting.clone(),
                    options.path.clone(),
                ]
            };
            CommandPlan { program: text(helper), args, env: Vec::new() }
        },
    };
    proof {
        let v = plan_of(kind, *request, helper@);
        assert(p@.args =~= v.args);
        assert(p@.env =~= v.env);
    }
    Ok(p)
}

/// Whether the operation first needs the administrators check: listing
/// printers through the legacy Windows adapter does.
pub open spec fn needs_admin(k: PlatformKind, op: Operation) -> bool {
    k == PlatformKind::WindowsLegacy && op == Operation::ListPrinters
}

pub fn requires_admin(kind: PlatformKind, op: Operation) -> (r: bool)
    ensures
        r == needs_admin(kind, op),
{
    kind == PlatformKind::WindowsLegacy && op == Operation::ListPrinters
}

/// The command whose output lists the groups of the current user.
pub fn admin_check_plan() -> (r: CommandPlan)
    ensures
        r@.program == "whoami"@,
        r@.args == seq!["/groups"@],
        r@.env.len() == 0,
{
    let r = CommandPlan { program: text("whoami"), args: vec![text("/groups")], env: Vec::new() };
    proof {
        assert(r@.args =~= seq!["/groups"@]);
    }
    r
}

/// Each adapter refuses what it does not implement: the Unix-like adapter
/// (and the fallback for unrecognised hosts) implements no job state change
/// and no lookup of a printer or job by name or id, whatever the arguments.
pub proof fn lemma_unix_like_refusals(action: JobAction)
    ensures
        !supports(PlatformKind::MacLike, Operation::Job(action)),
        !supports(PlatformKind::Unknown, Operation::Job(action)),
        !supports(PlatformKind::MacLike, Operation::ListPrintersByName),
        !supports(PlatformKind::MacLike, Operation::ListJobsById),
        !supports(PlatformKind::Unknown, Operation::Print),
{
}

} // verus!
