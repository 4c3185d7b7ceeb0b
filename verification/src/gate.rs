//! The environment-variable gate: decides, before anything is spawned,
//! whether the wrapper should stop deliberately (with exit code 0) instead
//! of running the child.

use vstd::prelude::*;

verus! {

/// The optional gate configuration: a variable whose presence skips
/// execution, and a variable whose absence skips execution. Both checks are
/// evaluated before spawning, skip-check first; either may independently
/// end the run. A gate firing is a deliberate no-op exit, not an error.
#[derive(Clone, Debug)]
pub struct GateConfig {
    /// Name of a variable that, when present in the environment (with any
    /// value), ends the run before spawning.
    pub skip_if_env: Option<String>,
    /// Name of a variable that must be present in the environment for the
    /// run to proceed.
    pub resume_if_env: Option<String>,
}

/// Which of the two gates ended the run.
#[derive(Clone, Copy, Debug, PartialEq, Eq, Structural)]
pub enum GateCause {
    /// The skip variable was configured and present.
    SkipVarSet,
    /// The resume variable was configured and absent.
    ResumeVarUnset,
}

/// Whether to go on and spawn the child, or to stop here with exit code 0.
#[derive(Clone, Copy, Debug, PartialEq, Eq, Structural)]
pub enum GateDecision {
    /// Proceed to spawn the child.
    Continue,
    /// End the run deliberately, with exit code 0, for the given cause.
    Terminate(GateCause),
}

/// What gating decides, given whether each variable name is configured
/// and whether it is present in the environment. The skip-check is
/// evaluated first: when both gates would fire, the skip gate is the one
/// reported.
pub open spec fn evaluate_spec(
    skip_configured: bool,
    skip_set: bool,
    resume_configured: bool,
    resume_set: bool,
) -> GateDecision {
    if skip_configured && skip_set {
        GateDecision::Terminate(GateCause::SkipVarSet)
    } else if resume_configured && !resume_set {
        GateDecision::Terminate(GateCause::ResumeVarUnset)
    } else {
        GateDecision::Continue
    }
}

/// Decides whether to run the child. `skip_set` and `resume_set` report
/// whether the configured variable of each gate is present in the
/// environment; each is consulted only when the corresponding name is
/// configured.
pub fn evaluate(gate: &GateConfig, skip_set: bool, resume_set: bool) -> (d: GateDecision)
    ensures
        d == evaluate_spec(
            gate.skip_if_env is Some,
            skip_set,
            gate.resume_if_env is Some,
            resume_set,
        ),
{
    if gate.skip_if_env.is_some() && skip_set {
        GateDecision::Terminate(GateCause::SkipVarSet)
    } else if gate.resume_if_env.is_some() && !resume_set {
        GateDecision::Terminate(GateCause::ResumeVarUnset)
    } else {
        GateDecision::Continue
    }
}

/// Gate law: the run is ended exactly when the skip variable is configured
/// and present, or the resume variable is configured and absent; and when
/// both conditions hold at once, the skip gate is the one that decides.
pub proof fn lemma_gate_decision(
    skip_configured: bool,
    skip_set: bool,
    resume_configured: bool,
    resume_set: bool,
)
    ensures
        (evaluate_spec(skip_configured, skip_set, resume_configured, resume_set) is Terminate)
            <==> ((skip_configured && skip_set) || (resume_configured && !resume_set)),
        skip_configured && skip_set ==> evaluate_spec(
            skip_configured,
            skip_set,
            resume_configured,
            resume_set,
        ) == GateDecision::Terminate(GateCause::SkipVarSet),
{
}

} // verus!
