//! Pre-flight safety: a file is touched only once it is complete and at rest.
//! The gates are checked in order, and the first that fails settles it.
use vstd::prelude::*;

use crate::paths::{extension, extension_spec};
use crate::text::{
    contains, seq_contains, str_eq, to_lowercase, trim, trim_spec, lowercase_spec,
};

verus! {

/// The extension is one that download clients give to files in progress.
pub open spec fn is_incomplete_extension(e: Seq<char>) -> bool {
    ||| e == "!qb"@
    ||| e == "part"@
    ||| e == "crdownload"@
    ||| e == "tmp"@
    ||| e == "downloading"@
    ||| e == "aria2"@
}

/// Whether a lowercased extension is one that download clients give to files
/// in progress.
pub fn incomplete_extension(e: &str) -> (r: bool)
    ensures
        r == is_incomplete_extension(e@),
{
    str_eq(e, "!qb") || str_eq(e, "part") || str_eq(e, "crdownload") || str_eq(e, "tmp")
        || str_eq(e, "downloading") || str_eq(e, "aria2")
}

/// Gate 1: the path is not inside an `incomplete` or `downloading` folder and
/// does not carry an in-progress extension (both compared in lowercase).
pub open spec fn name_and_path_ok(path: Seq<char>) -> bool {
    let lower = lowercase_spec(path);
    &&& !seq_contains(lower, "/incomplete/"@)
    &&& !seq_contains(lower, "/downloading/"@)
    &&& match extension_spec(path) {
        Some(e) => !is_incomplete_extension(lowercase_spec(e)),
        None => true,
    }
}

/// Gate 1: rejects in-progress extensions and incomplete download folders.
pub fn passes_name_and_path_check(path: &str) -> (r: bool)
    ensures
        r == name_and_path_ok(path@),
{
    let lower = to_lowercase(path);
    if contains(lower.as_str(), "/incomplete/") || contains(lower.as_str(), "/downloading/") {
        return false;
    }
    match extension(path) {
        Some(e) => {
            let e_lower = to_lowercase(e);
            !incomplete_extension(e_lower.as_str())
        },
        None => true,
    }
}

/// The gates after the name check, in the order they are checked.
#[derive(Debug, Clone, Copy, PartialEq, Eq, Structural)]
pub enum SafetyGate {
    /// No process holds the file open (`fuser`, else `lsof`).
    ActiveLock,
    /// The file was not modified within the last 60 seconds.
    Quiescence,
    /// `ffprobe` reads the container's index.
    ContainerIndex,
}

/// What follows in a safety check.
#[derive(Debug, Clone, Copy, PartialEq, Eq, Structural)]
pub enum SafetyStep {
    /// Check this gate and report whether the file passed it.
    Check(SafetyGate),
    /// The check is over: whether the file may be processed.
    Verdict(bool),
}

/// Starts the safety check of `path`: the name gate is decided at once; the
/// lock gate comes next.
pub fn is_file_safe_and_complete(path: &str, bypass_quiescence: bool) -> (r: SafetyStep)
    ensures
        name_and_path_ok(path@) ==> r == SafetyStep::Check(SafetyGate::ActiveLock),
        !name_and_path_ok(path@) ==> r == SafetyStep::Verdict(false),
{
    if !passes_name_and_path_check(path) {
        SafetyStep::Verdict(false)
    } else {
        SafetyStep::Check(SafetyGate::ActiveLock)
    }
}

/// One step of a safety check: what follows once the file `passed` (or failed)
/// `gate`. When the settling window is bypassed, the index probe follows the
/// lock check directly.
pub open spec fn safety_step_follows(
    gate: SafetyGate,
    passed: bool,
    bypass_quiescence: bool,
    r: SafetyStep,
) -> bool {
    if !passed {
        r == SafetyStep::Verdict(false)
    } else {
        match gate {
            SafetyGate::ActiveLock => if bypass_quiescence {
                r == SafetyStep::Check(SafetyGate::ContainerIndex)
            } else {
                r == SafetyStep::Check(SafetyGate::Quiescence)
            },
            SafetyGate::Quiescence => r == SafetyStep::Check(SafetyGate::ContainerIndex),
            SafetyGate::ContainerIndex => r == SafetyStep::Verdict(true),
        }
    }
}

/// Advances a safety check after `gate` was checked.
pub fn advance_safety_check(gate: SafetyGate, passed: bool, bypass_quiescence: bool) -> (r:
    SafetyStep)
    ensures
        safety_step_follows(gate, passed, bypass_quiescence, r),
{
    if !passed {
        return SafetyStep::Verdict(false);
    }
    match gate {
        SafetyGate::ActiveLock => if bypass_quiescence {
            SafetyStep::Check(SafetyGate::ContainerIndex)
        } else {
            SafetyStep::Check(SafetyGate::Quiescence)
        },
        SafetyGate::Quiescence => SafetyStep::Check(SafetyGate::ContainerIndex),
        SafetyGate::ContainerIndex => SafetyStep::Verdict(true),
    }
}

/// The verdict of a check: the first verdict among its steps.
pub open spec fn first_verdict(r1: SafetyStep, r2: SafetyStep, r3: SafetyStep, r4: SafetyStep) -> SafetyStep {
    if r1 is Verdict {
        r1
    } else if r2 is Verdict {
        r2
    } else if r3 is Verdict {
        r3
    } else {
        r4
    }
}

/// Law: a safety check reaches a verdict within four steps, and the file is
/// judged safe exactly when it passes every gate: its name and path, the lock
/// check, the settling window (unless bypassed) and the index probe.
pub proof fn law_safe_iff_every_gate_passes(
    path: Seq<char>,
    bypass_quiescence: bool,
    unlocked: bool,
    settled: bool,
    index_ok: bool,
    r1: SafetyStep,
    r2: SafetyStep,
    r3: SafetyStep,
    r4: SafetyStep,
)
    requires
        name_and_path_ok(path) ==> r1 == SafetyStep::Check(SafetyGate::ActiveLock),
        !name_and_path_ok(path) ==> r1 == SafetyStep::Verdict(false),
        r1 == SafetyStep::Check(SafetyGate::ActiveLock) ==> safety_step_follows(
            SafetyGate::ActiveLock,
            unlocked,
            bypass_quiescence,
            r2,
        ),
        r2 == SafetyStep::Check(SafetyGate::Quiescence) ==> safety_step_follows(
            SafetyGate::Quiescence,
            settled,
            bypass_quiescence,
            r3,
        ),
        r2 == SafetyStep::Check(SafetyGate::ContainerIndex) ==> safety_step_follows(
            SafetyGate::ContainerIndex,
            index_ok,
            bypass_quiescence,
            r3,
        ),
        r3 == SafetyStep::Check(SafetyGate::ContainerIndex) ==> safety_step_follows(
            SafetyGate::ContainerIndex,
            index_ok,
            bypass_quiescence,
            r4,
        ),
    ensures
        first_verdict(r1, r2, r3, r4) is Verdict,
        first_verdict(r1, r2, r3, r4) == SafetyStep::Verdict(true) <==> name_and_path_ok(path)
            && unlocked && (bypass_quiescence || settled) && index_ok,
{
}

/// Whether `fuser`'s answer shows the file in use: it succeeded and reported
/// a write access or any process at all.
pub open spec fn fuser_lock_spec(success: bool, stdout: Seq<char>, stderr: Seq<char>) -> bool {
    success && (seq_contains(stdout, "w"@) || seq_contains(stderr, "w"@) || trim_spec(stdout).len()
        > 0)
}

pub fn fuser_reports_lock(success: bool, stdout: &str, stderr: &str) -> (r: bool)
    ensures
        r == fuser_lock_spec(success, stdout@, stderr@),
{
    success && (contains(stdout, "w") || contains(stderr, "w") || !trim(stdout).is_empty())
}

/// The settling window, in seconds.
pub const QUIESCENCE_SECS: u64 = 60;

/// Gate 3: the file settled, given the whole seconds since its last
/// modification (`None` when that lies in the future, which passes).
pub fn passes_quiescence(elapsed_secs: Option<u64>) -> (r: bool)
    ensures
        r == match elapsed_secs {
            Some(e) => e >= QUIESCENCE_SECS,
            None => true,
        },
{
    match elapsed_secs {
        Some(e) => e >= QUIESCENCE_SECS,
        None => true,
    }
}

} // verus!
