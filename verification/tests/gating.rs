use bin_wrapper::gate::{evaluate, GateCause, GateConfig, GateDecision};

fn both_configured() -> GateConfig {
    GateConfig {
        skip_if_env: Some(String::from("SKIP_VAR")),
        resume_if_env: Some(String::from("RESUME_VAR")),
    }
}

#[test]
fn gate_both_configured_four_combinations() {
    let gate = both_configured();
    // skip present, resume present: skip wins.
    assert_eq!(
        evaluate(&gate, true, true),
        GateDecision::Terminate(GateCause::SkipVarSet)
    );
    // skip present, resume absent: skip wins (evaluated first).
    assert_eq!(
        evaluate(&gate, true, false),
        GateDecision::Terminate(GateCause::SkipVarSet)
    );
    // skip absent, resume present: continue.
    assert_eq!(evaluate(&gate, false, true), GateDecision::Continue);
    // skip absent, resume absent: resume gate fires.
    assert_eq!(
        evaluate(&gate, false, false),
        GateDecision::Terminate(GateCause::ResumeVarUnset)
    );
}

#[test]
fn gate_only_skip_configured() {
    let gate = GateConfig {
        skip_if_env: Some(String::from("SKIP_VAR")),
        resume_if_env: None,
    };
    assert_eq!(
        evaluate(&gate, true, false),
        GateDecision::Terminate(GateCause::SkipVarSet)
    );
    assert_eq!(evaluate(&gate, false, false), GateDecision::Continue);
}

#[test]
fn gate_only_resume_configured() {
    let gate = GateConfig {
        skip_if_env: None,
        resume_if_env: Some(String::from("RESUME_VAR")),
    };
    assert_eq!(
        evaluate(&gate, false, false),
        GateDecision::Terminate(GateCause::ResumeVarUnset)
    );
    assert_eq!(evaluate(&gate, false, true), GateDecision::Continue);
}

#[test]
fn gate_nothing_configured_always_continues() {
    let gate = GateConfig { skip_if_env: None, resume_if_env: None };
    assert_eq!(evaluate(&gate, false, false), GateDecision::Continue);
    assert_eq!(evaluate(&gate, true, true), GateDecision::Continue);
}
