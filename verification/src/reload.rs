//! The two-phase reload engine.
//!
//! A reload attempt stages the configuration to a deterministic path,
//! then drives the external tool twice: once with `--test` (validate) and
//! once with `--reload` (apply). The apply phase is reachable only
//! through a successful validate phase, and the whole attempt collapses
//! to a single status string for the wire response.
//!
//! The filesystem write and the subprocess runs are performed outside the
//! library; their observed outcomes are fed back into a [`ReloadRun`],
//! which decides every step and classifies the result.

use vstd::prelude::*;

verus! {

use vstd::string::*;

use crate::GenId;
use crate::text::{spec_i64_chars, i64_to_string};

/// How a reload attempt failed.
#[derive(Debug)]
pub enum FrrErr {
    /// The configuration could not be staged to disk.
    StagingFailed(String),
    /// The external tool rejected the configuration in the validate phase.
    ValidationFailed,
    /// The external tool failed in the apply phase.
    ApplyFailed,
    /// The external tool could not be spawned.
    ProcessSpawnFailed(String),
    /// Waiting for the external tool failed.
    ProcessWaitFailed(String),
}

/// The observed outcome of staging the configuration to disk.
#[derive(Debug)]
pub enum StageOutcome {
    /// The staged file holds the full configuration text.
    Written,
    /// An I/O failure, with the underlying error rendered for the log.
    Failed(String),
}

/// The observed outcome of one invocation of the external tool.
#[derive(Debug)]
pub enum ExecOutcome {
    /// The tool ran to completion; `true` means exit status zero.
    Exited(bool),
    /// The tool could not be spawned.
    SpawnFailed(String),
    /// Waiting for the tool failed.
    WaitFailed(String),
}

/// Where a reload attempt stands.
#[derive(Debug)]
pub enum ReloadPhase {
    /// The configuration must be staged to disk.
    Staging,
    /// The tool must be run with `--test`.
    Validating,
    /// The tool must be run with `--reload`.
    Applying,
    /// The attempt is over, successfully or not.
    Done(Result<(), FrrErr>),
}

/// The next piece of outside work a reload attempt asks for.
#[derive(Debug, Clone, Copy, PartialEq, Eq, Structural)]
pub enum ReloadAction {
    /// Write the configuration text to the staged file.
    WriteConfigFile,
    /// Run the external tool; `test` selects `--test` over `--reload`.
    RunTool { test: bool },
}

/// The phase after the staging outcome is known.
pub open spec fn spec_stage_step(out: StageOutcome) -> ReloadPhase {
    match out {
        StageOutcome::Written => ReloadPhase::Validating,
        StageOutcome::Failed(detail) => ReloadPhase::Done(Err(FrrErr::StagingFailed(detail))),
    }
}

/// The phase after one tool invocation's outcome is known.
pub open spec fn spec_exec_step(phase: ReloadPhase, out: ExecOutcome) -> ReloadPhase
    recommends
        phase is Validating || phase is Applying,
{
    match phase {
        ReloadPhase::Validating => match out {
            ExecOutcome::Exited(ok) => if ok {
                ReloadPhase::Applying
            } else {
                ReloadPhase::Done(Err(FrrErr::ValidationFailed))
            },
            ExecOutcome::SpawnFailed(detail) => ReloadPhase::Done(
                Err(FrrErr::ProcessSpawnFailed(detail)),
            ),
            ExecOutcome::WaitFailed(detail) => ReloadPhase::Done(
                Err(FrrErr::ProcessWaitFailed(detail)),
            ),
        },
        ReloadPhase::Applying => match out {
            ExecOutcome::Exited(ok) => if ok {
                ReloadPhase::Done(Ok(()))
            } else {
                ReloadPhase::Done(Err(FrrErr::ApplyFailed))
            },
            ExecOutcome::SpawnFailed(detail) => ReloadPhase::Done(
                Err(FrrErr::ProcessSpawnFailed(detail)),
            ),
            ExecOutcome::WaitFailed(detail) => ReloadPhase::Done(
                Err(FrrErr::ProcessWaitFailed(detail)),
            ),
        },
        _ => phase,
    }
}

/// The apply phase is reachable only through a successful validate phase:
/// any other validate outcome finishes the attempt, so the apply
/// subprocess is never requested after a failed validation.
pub proof fn lemma_apply_needs_validate_success(phase: ReloadPhase, out: ExecOutcome)
    ensures
        spec_exec_step(phase, out) is Applying ==> phase is Validating && out == ExecOutcome::Exited(
            true,
        ),
        phase is Validating && !(out == ExecOutcome::Exited(true)) ==> spec_exec_step(phase, out)
            is Done,
{
}

/// Success is reported only when both phases ran and exited zero: staging
/// alone never yields success, and only a successful apply phase, itself
/// reachable only through a successful validate phase, finishes with `Ok`.
pub proof fn lemma_success_needs_both_phases(stage: StageOutcome, phase: ReloadPhase, out: ExecOutcome)
    ensures
        spec_stage_step(stage) != ReloadPhase::Done(Ok::<(), FrrErr>(())),
        (phase is Validating || phase is Applying) && spec_exec_step(phase, out)
            == ReloadPhase::Done(Ok::<(), FrrErr>(())) ==> phase is Applying && out
            == ExecOutcome::Exited(true),
{
}

/// One reload attempt, stepped from the outside: ask [`ReloadRun::next_action`]
/// what to do, perform it, and record the observed outcome.
pub struct ReloadRun {
    phase: ReloadPhase,
}

impl View for ReloadRun {
    type V = ReloadPhase;

    closed spec fn view(&self) -> ReloadPhase {
        self.phase
    }
}

impl ReloadRun {
    /// A fresh attempt: the configuration must be staged first.
    pub fn new() -> (r: Self)
        ensures
            r@ is Staging,
    {
        ReloadRun { phase: ReloadPhase::Staging }
    }

    /// The outside work the attempt asks for next, none once it is over.
    pub fn next_action(&self) -> (a: Option<ReloadAction>)
        ensures
            self@ is Staging ==> a == Some(ReloadAction::WriteConfigFile),
            self@ is Validating ==> a == Some(ReloadAction::RunTool { test: true }),
            self@ is Applying ==> a == Some(ReloadAction::RunTool { test: false }),
            self@ is Done ==> a is None,
    {
        match &self.phase {
            ReloadPhase::Staging => Some(ReloadAction::WriteConfigFile),
            ReloadPhase::Validating => Some(ReloadAction::RunTool { test: true }),
            ReloadPhase::Applying => Some(ReloadAction::RunTool { test: false }),
            ReloadPhase::Done(_) => None,
        }
    }

    /// Records the staging outcome: on success the validate phase is next,
    /// on failure the attempt is over and no subprocess is ever requested.
    pub fn record_stage(&mut self, out: StageOutcome)
        requires
            old(self)@ is Staging,
        ensures
            final(self)@ == spec_stage_step(out),
    {
        self.phase = match out {
            StageOutcome::Written => ReloadPhase::Validating,
            StageOutcome::Failed(detail) => ReloadPhase::Done(Err(FrrErr::StagingFailed(detail))),
        };
    }

    /// Records one tool invocation's outcome, moving validate to apply on
    /// success and finishing the attempt in every other case.
    pub fn record_exec(&mut self, out: ExecOutcome)
        requires
            old(self)@ is Validating || old(self)@ is Applying,
        ensures
            final(self)@ == spec_exec_step(old(self)@, out),
    {
        let validating = match &self.phase {
            ReloadPhase::Validating => true,
            _ => false,
        };
        self.phase = match out {
            ExecOutcome::Exited(ok) => {
                if validating {
                    if ok {
                        ReloadPhase::Applying
                    } else {
                        ReloadPhase::Done(Err(FrrErr::ValidationFailed))
                    }
                } else {
                    if ok {
                        ReloadPhase::Done(Ok(()))
                    } else {
                        ReloadPhase::Done(Err(FrrErr::ApplyFailed))
                    }
                }
            },
            ExecOutcome::SpawnFailed(detail) => ReloadPhase::Done(
                Err(FrrErr::ProcessSpawnFailed(detail)),
            ),
            ExecOutcome::WaitFailed(detail) => ReloadPhase::Done(
                Err(FrrErr::ProcessWaitFailed(detail)),
            ),
        };
    }

    /// Whether the attempt is over.
    pub fn is_done(&self) -> (b: bool)
        ensures
            b == (self@ is Done),
    {
        match &self.phase {
            ReloadPhase::Done(_) => true,
            _ => false,
        }
    }

    /// The wire status string of a finished attempt.
    pub fn response(&self) -> (r: String)
        requires
            self@ is Done,
        ensures
            self@ matches ReloadPhase::Done(outcome) ==> r@ == spec_response_chars(outcome),
    {
        match &self.phase {
            ReloadPhase::Done(outcome) => frr_reload(outcome),
            _ => {
                proof {
                    assert(false);
                }
                String::new()
            },
        }
    }
}

/// The log rendering of each failure, distinct per failure stage.
pub open spec fn spec_err_chars(e: FrrErr) -> Seq<char> {
    match e {
        FrrErr::StagingFailed(detail) => "Failed to write config file: "@ + detail@,
        FrrErr::ValidationFailed => "Reloading error: validation failed"@,
        FrrErr::ApplyFailed => "Reloading error: apply failed"@,
        FrrErr::ProcessSpawnFailed(detail) => "Failed to spawn reloader: "@ + detail@,
        FrrErr::ProcessWaitFailed(detail) => "Failed to wait for reloader: "@ + detail@,
    }
}

impl FrrErr {
    /// Renders the failure as its short human-readable description.
    pub fn describe(&self) -> (r: String)
        ensures
            r@ == spec_err_chars(*self),
    {
        match self {
            FrrErr::StagingFailed(detail) => {
                let mut s: String = "Failed to write config file: ".to_owned();
                s.append(detail.as_str());
                s
            },
            FrrErr::ValidationFailed => "Reloading error: validation failed".to_owned(),
            FrrErr::ApplyFailed => "Reloading error: apply failed".to_owned(),
            FrrErr::ProcessSpawnFailed(detail) => {
                let mut s: String = "Failed to spawn reloader: ".to_owned();
                s.append(detail.as_str());
                s
            },
            FrrErr::ProcessWaitFailed(detail) => {
                let mut s: String = "Failed to wait for reloader: ".to_owned();
                s.append(detail.as_str());
                s
            },
        }
    }
}

/// The status string sent back for one reload outcome: `Ok` on success,
/// the failure's description otherwise.
pub open spec fn spec_response_chars(outcome: Result<(), FrrErr>) -> Seq<char> {
    match outcome {
        Ok(_) => "Ok"@,
        Err(e) => spec_err_chars(e),
    }
}

/// The wire status is truthful: it reads `Ok` exactly when the reload
/// succeeded, so no failure can be mistaken for success by the
/// requester.
pub proof fn lemma_response_ok_iff_success(outcome: Result<(), FrrErr>)
    ensures
        (spec_response_chars(outcome) == "Ok"@) <==> outcome is Ok,
{
    reveal_strlit("Ok");
    match outcome {
        Ok(_) => {
        },
        Err(e) => {
            reveal_strlit("Failed to write config file: ");
            reveal_strlit("Reloading error: validation failed");
            reveal_strlit("Reloading error: apply failed");
            reveal_strlit("Failed to spawn reloader: ");
            reveal_strlit("Failed to wait for reloader: ");
            assert(spec_err_chars(e).len() > 2);
        },
    }
}

/// Collapses a reload outcome to the status string sent back to the
/// requester.
pub fn frr_reload(outcome: &Result<(), FrrErr>) -> (r: String)
    ensures
        r@ == spec_response_chars(*outcome),
{
    match outcome {
        Ok(_) => "Ok".to_owned(),
        Err(e) => e.describe(),
    }
}

/// The staged file's path: fully determined by the output directory and
/// the generation id, so re-staging a generation id overwrites the prior
/// file.
pub open spec fn spec_config_path(outdir: Seq<char>, genid: GenId) -> Seq<char> {
    outdir + "/frr-config-gen-"@ + spec_i64_chars(genid) + ".conf"@
}

/// Computes the deterministic staged-file path for one generation id.
pub fn config_file_path(outdir: &str, genid: GenId) -> (r: String)
    ensures
        r@ == spec_config_path(outdir@, genid),
{
    let mut s: String = outdir.to_owned();
    s.append("/frr-config-gen-");
    let digits = i64_to_string(genid);
    s.append(digits.as_str());
    s.append(".conf");
    s
}

/// The tool's mode flag: validate or apply.
pub open spec fn spec_mode_flag(test: bool) -> Seq<char> {
    if test {
        "--test"@
    } else {
        "--reload"@
    }
}

/// The full argument vector of one tool invocation: the mode flag, the
/// configured fixed arguments, then the staged file's path.
pub fn build_exec_args(test: bool, reload_args: &Vec<&str>, conf_file: &str) -> (r: Vec<String>)
    ensures
        r@.map_values(|s: String| s@) == seq![spec_mode_flag(test)] + reload_args@.map_values(
            |s: &str| s@,
        ) + seq![conf_file@],
{
    let mut v: Vec<String> = Vec::new();
    if test {
        v.push("--test".to_owned());
    } else {
        v.push("--reload".to_owned());
    }
    let mut i: usize = 0;
    while i < reload_args.len()
        invariant
            i <= reload_args@.len(),
            v@.len() == 1 + i,
            v@[0]@ == spec_mode_flag(test),
            forall|j: int| 0 <= j < i ==> v@[j + 1]@ == reload_args@[j]@,
        decreases reload_args@.len() - i,
    {
        v.push(reload_args[i].to_owned());
        i = i + 1;
    }
    v.push(conf_file.to_owned());
    proof {
        assert(v@.map_values(|s: String| s@) =~= seq![spec_mode_flag(test)]
            + reload_args@.map_values(|s: &str| s@) + seq![conf_file@]);
    }
    v
}

/// The process-wide single reload slot: at most one reload attempt is in
/// flight, whatever number of connections is being served.
pub struct Orchestrator {
    busy: bool,
}

impl Orchestrator {
    /// Whether a reload attempt is currently in flight.
    pub closed spec fn in_flight(&self) -> bool {
        self.busy
    }

    /// A fresh orchestrator with no attempt in flight.
    pub fn new() -> (r: Self)
        ensures
            !r.in_flight(),
    {
        Orchestrator { busy: false }
    }

    /// Claims the single reload slot: a fresh attempt is handed out only
    /// when none is in flight, so two attempts never overlap.
    pub fn try_begin(&mut self) -> (r: Option<ReloadRun>)
        ensures
            final(self).in_flight(),
            old(self).in_flight() ==> r is None,
            !old(self).in_flight() ==> (r matches Some(run) && run@ is Staging),
    {
        if self.busy {
            None
        } else {
            self.busy = true;
            Some(ReloadRun::new())
        }
    }

    /// Releases the slot once the attempt is over.
    pub fn finish(&mut self, run: ReloadRun)
        requires
            run@ is Done,
        ensures
            !final(self).in_flight(),
    {
        let _ = run;
        self.busy = false;
    }
}

} // verus!
