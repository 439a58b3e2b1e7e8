//! Session orchestration decisions: which error a session surfaces to its
//! caller, and the human-readable notices that frame a recording.
//!
//! The surrounding binary performs the spawn and runs the relay loop; this
//! module decides what the session as a whole reports. Terminal-mode
//! restoration is owed on every path — see [`crate::term`] — so the verdict
//! here is computed after restoration has been accounted for and never
//! swallows a failure.

use crate::error::SrError;
use crate::term::{
    apply_op, apply_ops, lemma_apply_ops_concat, lemma_ops_preserve_original, TermOp,
    TerminalLifecycle,
};
use vstd::prelude::*;
use vstd::string::StringExecFns;

verus! {

/// The errno reported when the environment names no shell (ENOENT).
pub const NO_SHELL_ERRNO: i32 = 2;

/// Session start needs the shell program, taken from the environment's
/// shell-selection value. With a value the session proceeds with exactly
/// that program; with none, session start fails before any child exists.
pub fn resolve_shell(shell: Option<String>) -> (r: Result<String, SrError>)
    ensures
        (shell matches Some(s) ==> (r matches Ok(p) && p@ == s@)),
        (shell is None ==> r == Err::<String, SrError>(SrError::Spawn(NO_SHELL_ERRNO))),
{
    match shell {
        Some(s) => Ok(s),
        None => Err(SrError::Spawn(NO_SHELL_ERRNO)),
    }
}

/// Mode restoration at the session level: a session enters raw mode once,
/// then takes some path — success, a spawn failure, a fatal relay error, a
/// forced peer closure — and teardown restores unconditionally. Whatever
/// terminal operations the path in between performs, the live terminal
/// afterwards is bit-identical to the pristine snapshot; so is it on the
/// path that fails before raw mode was ever entered.
pub proof fn lemma_session_mode_restoration(l: TerminalLifecycle, middle: Seq<TermOp>)
    ensures
        apply_ops(l, seq![TermOp::EnterRaw] + middle + seq![TermOp::Restore]).live == l.original,
        apply_ops(l, seq![TermOp::Restore]).live == l.original,
{
    reveal_with_fuel(apply_ops, 3);
    let pre = seq![TermOp::EnterRaw] + middle;
    lemma_apply_ops_concat(l, pre, seq![TermOp::Restore]);
    lemma_ops_preserve_original(l, pre);
    let settled = apply_ops(l, pre);
    assert(seq![TermOp::Restore].drop_first() =~= Seq::<TermOp>::empty());
    assert(apply_ops(settled, seq![TermOp::Restore]) == apply_op(settled, TermOp::Restore));
    assert(apply_ops(l, seq![TermOp::Restore]) == apply_op(l, TermOp::Restore));
}

/// Outcome of the attempt to allocate a pseudo-terminal and fork the
/// child shell.
#[derive(Clone, Copy, Debug, PartialEq, Eq, Structural)]
pub enum SpawnOutcome {
    /// The parent holds the pty master; the child is running the shell.
    Spawned,
    /// Allocation or fork failed with this errno; no child exists.
    SpawnFailed(i32),
}

/// What the session reports to its caller: a spawn failure is surfaced as
/// a spawn error and nothing else ran; otherwise the relay loop's own
/// result is surfaced unchanged, success and failure alike.
pub fn session_verdict(spawn: SpawnOutcome, relay_result: Result<(), SrError>) -> (r: Result<
    (),
    SrError,
>)
    ensures
        (spawn matches SpawnOutcome::SpawnFailed(e) ==> r == Err::<(), SrError>(SrError::Spawn(e))),
        (spawn is Spawned ==> r == relay_result),
{
    match spawn {
        SpawnOutcome::SpawnFailed(e) => Err(SrError::Spawn(e)),
        SpawnOutcome::Spawned => relay_result,
    }
}

/// The notice announcing that recording has started into `output_path`.
pub fn start_notice(output_path: &str) -> (r: String)
    ensures
        r@ == "sr recording started, output file is "@ + output_path@ + "\r\n"@,
{
    String::from_str("sr recording started, output file is ").concat(output_path).concat("\r\n")
}

/// The notice announcing that recording into `output_path` is done.
pub fn finish_notice(output_path: &str) -> (r: String)
    ensures
        r@ == "sr recording done, output file is "@ + output_path@ + "\r\n"@,
{
    String::from_str("sr recording done, output file is ").concat(output_path).concat("\r\n")
}

} // verus!
