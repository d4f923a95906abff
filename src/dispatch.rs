//! The plain-text fallback through the host's print spooler. The caller
//! stages the text in a transient file, runs the commands that these
//! functions name, and reports how each run went.
use vstd::prelude::*;
use crate::report::{PrintResult, concat};

verus! {

/// The host platform, which fixes the print utilities to try.
#[derive(Clone, Copy, Debug, PartialEq, Eq, Structural)]
pub enum Platform {
    Windows,
    MacOs,
    Linux,
    Other,
}

/// A program and its arguments.
pub struct PrintCommand {
    pub program: String,
    pub args: Vec<String>,
}

/// How running one print utility went.
pub enum RunOutcome {
    /// The utility could not be started at all.
    NotStarted(String),
    /// The utility ran and exited, with its error stream.
    Exited { success: bool, stderr: String },
}

/// What the caller is to do next.
pub enum DispatchStep {
    /// Run the command at this position of the platform's list.
    Run(usize),
    /// Stop with this result.
    Finish(Result<PrintResult, String>),
}

/// How many utilities the platform offers, tried in order.
pub open spec fn command_count(p: Platform) -> nat {
    match p {
        Platform::Windows => 1,
        Platform::MacOs => 1,
        Platform::Linux => 2,
        Platform::Other => 0,
    }
}

/// The path inside a single-quoted PowerShell string: each quote doubled.
pub open spec fn quote_single(s: Seq<char>) -> Seq<char>
    decreases s.len(),
{
    if s.len() == 0 {
        Seq::empty()
    } else {
        let head = if s.last() == '\'' {
            seq!['\'', '\'']
        } else {
            seq![s.last()]
        };
        quote_single(s.drop_last()) + head
    }
}

pub open spec fn program_of(p: Platform, k: int) -> Seq<char> {
    match p {
        Platform::Windows => "powershell"@,
        Platform::Linux => if k == 1 {
            "lpr"@
        } else {
            "lp"@
        },
        _ => "lp"@,
    }
}

pub open spec fn args_match(p: Platform, path: Seq<char>, args: Seq<String>) -> bool {
    match p {
        Platform::Windows => args.len() == 2 && args[0]@ == "-Command"@ && args[1]@ == "Get-Content '"@
            + quote_single(path) + "' | Out-Printer"@,
        _ => args.len() == 1 && args[0]@ == path,
    }
}

pub open spec fn spawn_failure_prefix(p: Platform) -> Seq<char> {
    match p {
        Platform::MacOs => "Failed to execute lp command: "@,
        _ => "Failed to execute print command: "@,
    }
}

pub open spec fn unsupported_message() -> Seq<char> {
    "Silent printing not supported on this platform"@
}

pub open spec fn printed_message() -> Seq<char> {
    "Printed to default system printer"@
}

/// The step that follows the run of utility `attempt`: a utility that could
/// not be started gives way to the next one, if any; a utility that ran
/// decides the result.
pub open spec fn next_matches(p: Platform, attempt: int, o: RunOutcome, r: DispatchStep) -> bool {
    match o {
        RunOutcome::NotStarted(e) => if attempt + 1 < command_count(p) {
            r == DispatchStep::Run((attempt + 1) as usize)
        } else {
            r matches DispatchStep::Finish(Err(m)) && m@ == spawn_failure_prefix(p) + e@
        },
        RunOutcome::Exited { success, stderr } => if success {
            r matches DispatchStep::Finish(Ok(pr)) && pr.success && pr.message@ == printed_message()
        } else {
            r matches DispatchStep::Finish(Err(m)) && m@ == "Print failed: "@ + stderr@
        },
    }
}

/// Doubles each single quote of `s`.
pub fn quote_for_powershell(s: &str) -> (r: String)
    ensures
        r@ == quote_single(s@),
{
    let n = s.unicode_len();
    let mut r = String::new();
    let mut i: usize = 0;
    while i < n
        invariant
            n == s@.len(),
            i <= n,
            r@ == quote_single(s@.subrange(0, i as int)),
        decreases n - i,
    {
        let c = s.get_char(i);
        proof {
            let t = s@.subrange(0, i + 1);
            assert(t.drop_last() =~= s@.subrange(0, i as int));
            assert(t.last() == c);
        }
        let ghost t = s@.subrange(0, i + 1);
        if c == '\'' {
            let two: &str = "''";
            proof {
                reveal_strlit("''");
                assert(two@ =~= seq!['\'', '\'']);
            }
            r.append(two);
            assert(r@ =~= quote_single(t.drop_last()) + seq!['\'', '\'']);
        } else {
            let one = s.substring_char(i, i + 1);
            assert(one@ =~= seq![c]);
            r.append(one);
        }
        assert(r@ == quote_single(t));
        i = i + 1;
    }
    assert(s@.subrange(0, n as int) =~= s@);
    r
}

/// The print utilities of the platform, in the order they are tried, each
/// given the path of the staged file.
pub fn print_commands(p: Platform, path: &str) -> (r: Vec<PrintCommand>)
    ensures
        r@.len() == command_count(p),
        forall|k: int|
            0 <= k < r@.len() ==> (#[trigger] r@[k]).program@ == program_of(p, k) && args_match(
                p,
                path@,
                r@[k].args@,
            ),
{
    let mut r: Vec<PrintCommand> = Vec::new();
    match p {
        Platform::Windows => {
            let head = concat("Get-Content '", quote_for_powershell(path).as_str());
            let script = concat(head.as_str(), "' | Out-Printer");
            let args = vec![String::from_str("-Command"), script];
            r.push(PrintCommand { program: String::from_str("powershell"), args });
        },
        Platform::MacOs => {
            r.push(PrintCommand { program: String::from_str("lp"), args: vec![String::from_str(path)] });
        },
        Platform::Linux => {
            r.push(PrintCommand { program: String::from_str("lp"), args: vec![String::from_str(path)] });
            r.push(PrintCommand { program: String::from_str("lpr"), args: vec![String::from_str(path)] });
        },
        Platform::Other => {},
    }
    r
}

/// The first step: run the first utility, or fail at once where the
/// platform has none.
pub fn first_step(p: Platform) -> (r: DispatchStep)
    ensures
        command_count(p) > 0 ==> r == DispatchStep::Run(0),
        command_count(p) == 0 ==> (r matches DispatchStep::Finish(Err(m)) && m@ == unsupported_message()),
{
    match p {
        Platform::Other => DispatchStep::Finish(Err(String::from_str("Silent printing not supported on this platform"))),
        _ => DispatchStep::Run(0),
    }
}

/// The step after utility `attempt` ran with outcome `o`.
pub fn next_step(p: Platform, attempt: usize, o: RunOutcome) -> (r: DispatchStep)
    requires
        attempt < command_count(p),
    ensures
        next_matches(p, attempt as int, o, r),
{
    match o {
        RunOutcome::NotStarted(e) => {
            let count: usize = match p {
                Platform::Linux => 2,
                Platform::Other => 0,
                _ => 1,
            };
            if attempt + 1 < count {
                DispatchStep::Run(attempt + 1)
            } else {
                let prefix: &str = match p {
                    Platform::MacOs => "Failed to execute lp command: ",
                    _ => "Failed to execute print command: ",
                };
                DispatchStep::Finish(Err(concat(prefix, e.as_str())))
            }
        },
        RunOutcome::Exited { success, stderr } => {
            if success {
                DispatchStep::Finish(
                    Ok(
                        PrintResult {
                            success: true,
                            message: String::from_str("Printed to default system printer"),
                        },
                    ),
                )
            } else {
                DispatchStep::Finish(Err(concat("Print failed: ", stderr.as_str())))
            }
        },
    }
}

/// On a platform with two utilities, a first utility that cannot be started
/// gives way to the second, whose success is the operation's success; a first
/// utility that runs and fails ends the operation with its error, and the
/// second is never tried.
pub proof fn lemma_fallback_exhaustion(
    p: Platform,
    missing: String,
    stderr: String,
    after_missing: DispatchStep,
    after_second_ok: DispatchStep,
    after_first_failed: DispatchStep,
)
    requires
        command_count(p) == 2,
        next_matches(p, 0, RunOutcome::NotStarted(missing), after_missing),
        next_matches(p, 1, RunOutcome::Exited { success: true, stderr }, after_second_ok),
        next_matches(p, 0, RunOutcome::Exited { success: false, stderr }, after_first_failed),
    ensures
        after_missing == DispatchStep::Run(1),
        after_second_ok matches DispatchStep::Finish(Ok(pr)) && pr.success,
        after_first_failed matches DispatchStep::Finish(Err(m)) && m@ == "Print failed: "@ + stderr@,
{
}

} // verus!
