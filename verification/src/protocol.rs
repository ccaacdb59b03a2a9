//! The capability raiser and process launcher.
//!
//! For each requested capability name, in request order: resolve it, raise
//! it into the inheritable set, then into the ambient set, and report the
//! outcome. A raise failure is diagnosed, with a remediation hint, and the
//! run goes on with the next request. After all requests the effective set
//! is read once and reported; then the process image is replaced with the
//! target program — or, when none was given, the run ends in a usage
//! error. The order of the underlying operations is the one `crate::plan`
//! states and proves invariant.

use std::io::Write;

use vstd::prelude::*;
use vstd::string::*;

use crate::cap::Capability;
use crate::cap::cap_prefix;
use crate::resolve::resolve;
use crate::resolve::spec_resolve;

verus! {

/// The error type of the capability subsystem's own crate.
#[verifier::external_type_specification]
#[verifier::external_body]
pub struct ExCapsError(caps::errors::CapsError);

/// A name the capability subsystem itself accepts: the prefixed canonical
/// name of some capability.
pub open spec fn is_registered_name(s: Seq<char>) -> bool {
    exists|c: Capability| s == cap_prefix() + c.base_name()
}

/// Relies on caps::raise, with the calling process (no tid) and the
/// Inheritable set: raises the capability named by its prefixed canonical
/// name, or returns the subsystem's error; caps::Capability::from_str
/// converts the name, and accepts every prefixed canonical name.
#[verifier::external_body]
fn os_raise_inheritable(name: &str) -> (r: Result<(), caps::errors::CapsError>)
    requires
        is_registered_name(name@),
{
    let cap = <caps::Capability as std::str::FromStr>::from_str(name).unwrap();
    caps::raise(None, caps::CapSet::Inheritable, cap)
}

/// Relies on caps::raise, with the calling process (no tid) and the
/// Ambient set: raises the capability named by its prefixed canonical
/// name, or returns the subsystem's error; caps::Capability::from_str
/// converts the name, and accepts every prefixed canonical name.
#[verifier::external_body]
fn os_raise_ambient(name: &str) -> (r: Result<(), caps::errors::CapsError>)
    requires
        is_registered_name(name@),
{
    let cap = <caps::Capability as std::str::FromStr>::from_str(name).unwrap();
    caps::raise(None, caps::CapSet::Ambient, cap)
}

/// Relies on caps::read, with the calling process (no tid) and the
/// Effective set: returns the current effective set, rendered for the
/// report, or the subsystem's error.
#[verifier::external_body]
fn os_read_effective() -> (r: Result<String, caps::errors::CapsError>) {
    match caps::read(None, caps::CapSet::Effective) {
        Ok(s) => Ok(format!("{:?}", s)),
        Err(e) => Err(e),
    }
}

/// Relies on the Display of the capability subsystem's error type, to
/// render the underlying OS error for diagnostics. The rendering is never
/// empty: that Display always writes its "caps error: " prefix before the
/// message.
#[verifier::external_body]
fn caps_error_text(e: &caps::errors::CapsError) -> (r: String)
    ensures
        r@.len() > 0,
{
    format!("{}", e)
}

/// Relies on exec::execvp: replaces the current process image with
/// `program`, handing it `args` as the full argument vector (the program
/// name as argument zero). It returns only when the replacement failed,
/// and then describes why.
#[verifier::external_body]
fn os_execvp(program: &str, args: &Vec<String>) -> (r: String) {
    format!("{}", exec::execvp(program, args))
}

/// Relies on std::io::stdout, the informational channel: quiet mode
/// suppresses what goes through here.
#[verifier::external_body]
fn emit_info(line: &str) {
    let _ = writeln!(std::io::stdout(), "{}", line);
}

/// Relies on std::io::stderr, the diagnostic channel: never suppressed.
#[verifier::external_body]
fn emit_diag(line: &str) {
    let _ = writeln!(std::io::stderr(), "{}", line);
}

/// The status line for a capability raised in both sets, naming the input
/// as given and the resolved identifier.
pub fn status_line(name: &str, cap: &Capability) -> (r: String)
    ensures
        r@ == "Raised in inheritable and ambient capsets: "@ + name@ + " ("@ + cap_prefix()
            + cap.base_name() + ")"@,
{
    let mut s = String::from_str("Raised in inheritable and ambient capsets: ");
    s.append(name);
    s.append(" (");
    s.append(cap.full_name().as_str());
    s.append(")");
    s
}

/// The diagnostic line for a failed raise, naming the input as given and
/// the underlying OS error.
pub fn failure_line(name: &str, error: &str) -> (r: String)
    ensures
        r@ == "Error raising cap \""@ + name@ + "\": "@ + error@,
{
    let mut s = String::from_str("Error raising cap \"");
    s.append(name);
    s.append("\": ");
    s.append(error);
    s
}

/// The remediation hint for a failed raise: a shell-command template that
/// grants the permitted capability on the current executable through the
/// file-capability tool, with the lowercase capability name and the
/// effective+inheritable+permitted subset suffix.
pub fn remediation_hint(exe: &str, cap: &Capability) -> (r: String)
    ensures
        r@ == "  try running: sudo setcap "@ + cap.lower_name() + "=eip \""@ + exe@ + "\""@,
{
    let mut s = String::from_str("  try running: sudo setcap ");
    s.append(cap.lower_name_str());
    s.append("=eip \"");
    s.append(exe);
    s.append("\"");
    s
}

/// The report of the effective set, printed once after all raises.
pub fn effective_line(report: &str) -> (r: String)
    ensures
        r@ == "Current effective caps: "@ + report@ + "."@,
{
    let mut s = String::from_str("Current effective caps: ");
    s.append(report);
    s.append(".");
    s
}

/// The usage error for a run without a target program.
pub fn usage_line() -> (r: String)
    ensures
        r@ == "Usage: ambient [-c caps] prog [args]"@,
{
    String::from_str("Usage: ambient [-c caps] prog [args]")
}

/// The diagnostic for a failed process replacement.
pub fn exec_failure_line(error: &str) -> (r: String)
    ensures
        r@ == "error execvp: "@ + error@,
{
    let mut s = String::from_str("error execvp: ");
    s.append(error);
    s
}

/// What ended a run. Every variant is terminal: a raise failure is not
/// among them, since the run goes on past it.
#[derive(Debug)]
pub enum RunError {
    /// A requested name resolved to no capability: a contract violation,
    /// since the argument boundary validates names; the run aborts.
    UnknownCapability { input: String },
    /// The effective set could not be read: the capability subsystem is
    /// unusable, and the run aborts.
    EffectiveReadFailed { error: String },
    /// No target program was given.
    MissingProgram,
    /// The process replacement failed; nothing follows it.
    ExecFailed { error: String },
}

impl RunError {
    /// The diagnostic text of a terminal error.
    pub fn message(&self) -> (r: String)
        ensures
            match self {
                RunError::UnknownCapability { input } => r@ == "unrecognised capability: "@
                    + input@,
                RunError::EffectiveReadFailed { error } => r@
                    == "Error reading effective caps: "@ + error@,
                RunError::MissingProgram => r@ == "Usage: ambient [-c caps] prog [args]"@,
                RunError::ExecFailed { error } => r@ == "error execvp: "@ + error@,
            },
    {
        match self {
            RunError::UnknownCapability { input } => {
                let mut s = String::from_str("unrecognised capability: ");
                s.append(input.as_str());
                s
            },
            RunError::EffectiveReadFailed { error } => {
                let mut s = String::from_str("Error reading effective caps: ");
                s.append(error.as_str());
                s
            },
            RunError::MissingProgram => usage_line(),
            RunError::ExecFailed { error } => exec_failure_line(error.as_str()),
        }
    }
}

/// The record of one processed request: the input as given, what it
/// resolved to, and whether both raises went through.
pub struct RaiseStatus {
    pub name: String,
    pub cap: Capability,
    pub raised: bool,
}

/// Raise one capability into the inheritable set and then into the ambient
/// set of the calling process, in that order — the ambient raise needs the
/// capability inheritable first, so the order is a precondition of the
/// second step, not a convenience. On failure of either step the error
/// text of the step that refused comes back, and the later step is not
/// attempted. Whether the subsystem grants a raise depends on the
/// process's permitted set, so no success is promised; a failure always
/// carries a non-empty rendering of the subsystem's error.
pub fn raise_capability(cap: &Capability) -> (r: Result<(), String>)
    ensures
        r matches Err(s) ==> s@.len() > 0,
{
    let name = cap.full_name();
    proof {
        assert(name@ == cap_prefix() + (*cap).base_name());
    }
    match os_raise_inheritable(name.as_str()) {
        Err(e) => Err(caps_error_text(&e)),
        Ok(_) => match os_raise_ambient(name.as_str()) {
            Err(e) => Err(caps_error_text(&e)),
            Ok(_) => Ok(()),
        },
    }
}

/// Process every requested name, in order, each independently: resolve it,
/// raise it in both sets, and report — a status line when both raises went
/// through (unless quiet), a diagnostic with a remediation hint on the
/// error channel when one refused. A failed raise never stops the run; a
/// name that resolves to nothing does, as a contract violation, and the
/// error carries that input unchanged.
pub fn raise_all(names: &Vec<String>, quiet: bool, exe: &str) -> (r: Result<
    Vec<RaiseStatus>,
    RunError,
>)
    ensures
        match r {
            Ok(out) => out@.len() == names@.len() && forall|i: int|
                0 <= i < names@.len() ==> spec_resolve(names@[i]@) is Some && (
                #[trigger] out@[i]).cap == spec_resolve(names@[i]@).unwrap() && out@[i].name@
                    == names@[i]@,
            Err(e) => e matches RunError::UnknownCapability { input } && exists|i: int|
                0 <= i < names@.len() && #[trigger] names@[i]@ == input@ && spec_resolve(
                    names@[i]@,
                ) is None && (forall|j: int| 0 <= j < i ==> spec_resolve(#[trigger] names@[j]@) is Some),
        },
{
    let mut out: Vec<RaiseStatus> = Vec::new();
    let mut i: usize = 0;
    while i < names.len()
        invariant
            i <= names@.len(),
            out@.len() == i,
            forall|j: int|
                0 <= j < i ==> spec_resolve(names@[j]@) is Some && (#[trigger] out@[j]).cap
                    == spec_resolve(names@[j]@).unwrap() && out@[j].name@ == names@[j]@,
        decreases names@.len() - i,
    {
        let name = &names[i];
        let cap = match resolve(name.as_str()) {
            Ok(c) => c,
            Err(e) => {
                proof {
                    assert forall|j: int| 0 <= j < i implies spec_resolve(
                        #[trigger] names@[j]@,
                    ) is Some by {
                        assert(out@[j].name@ == names@[j]@);
                    }
                }
                return Err(RunError::UnknownCapability { input: e.input });
            },
        };
        match raise_capability(&cap) {
            Ok(_) => {
                if !quiet {
                    emit_info(status_line(name.as_str(), &cap).as_str());
                }
                out.push(RaiseStatus { name: name.clone(), cap, raised: true });
            },
            Err(error) => {
                emit_diag(failure_line(name.as_str(), error.as_str()).as_str());
                emit_diag(remediation_hint(exe, &cap).as_str());
                out.push(RaiseStatus { name: name.clone(), cap, raised: false });
            },
        }
        i += 1;
    }
    Ok(out)
}

/// Read the effective set of the calling process and, unless quiet, report
/// it on the informational channel. A failed read is fatal: the capability
/// subsystem itself is unusable then.
pub fn report_effective(quiet: bool) -> (r: Result<(), RunError>)
    ensures
        r matches Err(e) ==> e is EffectiveReadFailed,
{
    match os_read_effective() {
        Ok(report) => {
            if !quiet {
                emit_info(effective_line(report.as_str()).as_str());
            }
            Ok(())
        },
        Err(e) => Err(RunError::EffectiveReadFailed { error: caps_error_text(&e) }),
    }
}

/// The terminal step: replace the process image with the target program,
/// the whole argument vector passed on, the program name as argument zero.
/// Without a target program the run ends in the usage error instead, and
/// no replacement is attempted. On success nothing returns; every return
/// is a failure.
pub fn launch(args: &Vec<String>) -> (r: RunError)
    ensures
        args@.len() == 0 <==> r is MissingProgram,
        args@.len() > 0 <==> r is ExecFailed,
{
    if args.len() == 0 {
        RunError::MissingProgram
    } else {
        let error = os_execvp(args[0].as_str(), args);
        RunError::ExecFailed { error }
    }
}

/// A whole run: raise every requested capability (inheritable, then
/// ambient, each request independent), report the effective set once, then
/// hand the process over to the target program. On success the call never
/// returns — the process is replaced; every return is the terminal error
/// of the stage that failed, for the caller to print and exit on.
pub fn run(names: &Vec<String>, quiet: bool, exe: &str, args: &Vec<String>) -> (r: RunError)
    ensures
        r matches RunError::UnknownCapability { input } ==> exists|i: int|
            0 <= i < names@.len() && #[trigger] names@[i]@ == input@ && spec_resolve(
                names@[i]@,
            ) is None && (forall|j: int| 0 <= j < i ==> spec_resolve(#[trigger] names@[j]@) is Some),
        (exists|i: int| 0 <= i < names@.len() && spec_resolve(#[trigger] names@[i]@) is None)
            ==> r is UnknownCapability,
        r is MissingProgram ==> args@.len() == 0,
        r is ExecFailed ==> args@.len() > 0,
{
    match raise_all(names, quiet, exe) {
        Ok(statuses) => {
            proof {
                assert forall|i: int| 0 <= i < names@.len() implies spec_resolve(
                    #[trigger] names@[i]@,
                ) is Some by {
                    assert(statuses@[i].name@ == names@[i]@);
                }
            }
        },
        Err(e) => {
            return e;
        },
    }
    match report_effective(quiet) {
        Ok(_) => (),
        Err(e) => {
            return e;
        },
    }
    launch(args)
}

} // verus!
