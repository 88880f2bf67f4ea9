use authflow::Credential;
use authflow::Principal;
use authflow::Process;
use authflow::Proof;
use authflow::SessionState;
use authflow::StepOutcome;
use authflow::Supplier;
use authflow::VerificationStep;
use authflow::Workflow;

fn directory_jean() -> Vec<Credential> {
    vec![Credential::new(String::from("jean"), String::from("pass"))]
}

/// The two-step workflow of the worked scenarios: secret match at LOA 1,
/// one-time code 12 at LOA 2.
fn two_step_workflow() -> Workflow {
    let mut w = Workflow::new();
    w.add_credential_validator(1, Supplier::new(VerificationStep::secret_match(directory_jean())));
    w.add_credential_validator(2, Supplier::new(VerificationStep::one_time_code(12)));
    w
}

fn user_secret(user: &str, secret: &str) -> Proof {
    Proof::UserSecret { user: String::from(user), secret: String::from(secret) }
}

#[test]
fn scenario_a_full_run() {
    let w = two_step_workflow();
    let mut s = Process::new(&w);

    let st = s.process(&user_secret("jean", "pass"));
    assert_eq!(st.state, SessionState::Active { index: 1 });
    assert_eq!(st.principal, Some(Principal(String::from("jean"))));
    assert_eq!(st.reached_loa, 1);

    let st = s.process(&Proof::OneTimeCode { code: 12 });
    assert_eq!(st.state, SessionState::Terminal);
    assert_eq!(st.principal, Some(Principal(String::from("jean"))));
    assert_eq!(st.reached_loa, 2);
}

#[test]
fn scenario_b_wrong_secret_rejected() {
    let w = two_step_workflow();
    let mut s = Process::new(&w);

    let st = s.process(&user_secret("jean", "wrong"));
    assert_eq!(st.state, SessionState::Active { index: 0 });
    assert_eq!(st.principal, None);
    assert_eq!(st.reached_loa, 0);
}

#[test]
fn scenario_c_wrong_code_holds_cursor() {
    let w = two_step_workflow();
    let mut s = Process::new(&w);
    s.process(&user_secret("jean", "pass"));

    let st = s.process(&Proof::OneTimeCode { code: 99 });
    assert_eq!(st.state, SessionState::Active { index: 1 });
    assert_eq!(st.principal, Some(Principal(String::from("jean"))));
    assert_eq!(st.reached_loa, 1);
}

#[test]
fn scenario_d_empty_workflow_starts_terminal() {
    let w = Workflow::new();
    let s = Process::new(&w);

    let st = s.status();
    assert_eq!(st.state, SessionState::Terminal);
    assert_eq!(st.principal, None);
    assert_eq!(st.reached_loa, 0);
    assert!(s.is_terminal());
}

#[test]
fn cursor_never_decreases() {
    let w = two_step_workflow();
    let mut s = Process::new(&w);
    let claims = [
        user_secret("jean", "nope"),
        user_secret("jean", "pass"),
        Proof::OneTimeCode { code: 1 },
        user_secret("jean", "pass"),
        Proof::OneTimeCode { code: 12 },
        Proof::OneTimeCode { code: 12 },
    ];
    let mut last_index = 0usize;
    for claim in claims.iter() {
        let st = s.process(claim);
        let index = match st.state {
            SessionState::Active { index } => index,
            SessionState::Terminal => 2,
        };
        assert!(index >= last_index);
        last_index = index;
    }
}

#[test]
fn rejection_leaves_state_unchanged() {
    let w = two_step_workflow();
    let mut s = Process::new(&w);
    s.process(&user_secret("jean", "pass"));
    let before = s.status();

    let after = s.process(&user_secret("jean", "pass")); // wrong variant for the OTP step
    assert_eq!(after.state, before.state);
    assert_eq!(after.principal, before.principal);
    assert_eq!(after.reached_loa, before.reached_loa);
}

#[test]
fn terminal_session_absorbs_everything() {
    let w = two_step_workflow();
    let mut s = Process::new(&w);
    s.process(&user_secret("jean", "pass"));
    s.process(&Proof::OneTimeCode { code: 12 });
    assert!(s.is_terminal());

    for claim in [
        user_secret("jean", "pass"),
        Proof::OneTimeCode { code: 12 },
        Proof::OneTimeCode { code: 0 },
    ] {
        let st = s.process(&claim);
        assert_eq!(st.state, SessionState::Terminal);
        assert_eq!(st.principal, Some(Principal(String::from("jean"))));
        assert_eq!(st.reached_loa, 2);
    }
}

#[test]
fn secret_step_rejects_code_claim() {
    let step = VerificationStep::secret_match(directory_jean());
    let outcome = step.evaluate(&None, &Proof::OneTimeCode { code: 12 });
    assert!(matches!(outcome, StepOutcome::Rejected));
}

#[test]
fn code_step_rejects_secret_claim() {
    let step = VerificationStep::one_time_code(12);
    let outcome = step.evaluate(&None, &user_secret("jean", "pass"));
    assert!(matches!(outcome, StepOutcome::Rejected));
}

#[test]
fn code_step_never_names_a_principal() {
    let step = VerificationStep::one_time_code(7);
    match step.evaluate(&Some(Principal(String::from("jean"))), &Proof::OneTimeCode { code: 7 }) {
        StepOutcome::Verified { principal } => assert_eq!(principal, None),
        StepOutcome::Rejected => panic!("matching code must verify"),
    }
}

#[test]
fn principal_survives_code_step() {
    // The OTP step verifies without naming anyone; the identity from the
    // earlier secret step must survive.
    let w = two_step_workflow();
    let mut s = Process::new(&w);
    s.process(&user_secret("jean", "pass"));
    let st = s.process(&Proof::OneTimeCode { code: 12 });
    assert_eq!(st.principal, Some(Principal(String::from("jean"))));
}

#[test]
fn later_secret_step_overwrites_principal() {
    let mut w = Workflow::new();
    w.add_credential_validator(1, Supplier::new(VerificationStep::secret_match(directory_jean())));
    let other = vec![Credential::new(String::from("ada"), String::from("code"))];
    w.add_credential_validator(2, Supplier::new(VerificationStep::secret_match(other)));

    let mut s = Process::new(&w);
    s.process(&user_secret("jean", "pass"));
    let st = s.process(&user_secret("ada", "code"));
    assert_eq!(st.principal, Some(Principal(String::from("ada"))));
    assert_eq!(st.state, SessionState::Terminal);
}

#[test]
fn unknown_user_rejected() {
    let step = VerificationStep::secret_match(directory_jean());
    let outcome = step.evaluate(&None, &user_secret("marie", "pass"));
    assert!(matches!(outcome, StepOutcome::Rejected));
}

#[test]
fn empty_directory_rejects_everyone() {
    let step = VerificationStep::secret_match(Vec::new());
    let outcome = step.evaluate(&None, &user_secret("jean", "pass"));
    assert!(matches!(outcome, StepOutcome::Rejected));
}

#[test]
fn first_matching_record_wins() {
    let dir = vec![
        Credential::new(String::from("jean"), String::from("first")),
        Credential::new(String::from("jean"), String::from("second")),
    ];
    let step = VerificationStep::secret_match(dir);
    match step.evaluate(&None, &user_secret("jean", "first")) {
        StepOutcome::Verified { principal } => {
            assert_eq!(principal, Some(Principal(String::from("jean"))))
        },
        StepOutcome::Rejected => panic!("first record's secret must verify"),
    }
    let outcome = step.evaluate(&None, &user_secret("jean", "second"));
    assert!(matches!(outcome, StepOutcome::Rejected));
}

#[test]
fn supplier_produces_fresh_equivalent_steps() {
    let supplier = Supplier::new(VerificationStep::secret_match(directory_jean()));
    let first = supplier.get();
    let second = supplier.get();
    for step in [first, second] {
        match step.evaluate(&None, &user_secret("jean", "pass")) {
            StepOutcome::Verified { principal } => {
                assert_eq!(principal, Some(Principal(String::from("jean"))))
            },
            StepOutcome::Rejected => panic!("every produced instance must verify the same claim"),
        }
    }
}

#[test]
fn list_steps_reports_loa_in_order() {
    let w = two_step_workflow();
    assert_eq!(w.list_steps(), vec![1, 2]);
    assert_eq!(w.step_count(), 2);
    // Restartable: a second enumeration sees the same thing.
    assert_eq!(w.list_steps(), vec![1, 2]);
}

#[test]
fn listing_does_not_touch_session_state() {
    let w = two_step_workflow();
    let mut s = Process::new(&w);
    s.process(&user_secret("jean", "pass"));
    let before = s.status();
    let _ = w.list_steps();
    let after = s.status();
    assert_eq!(after.state, before.state);
    assert_eq!(after.principal, before.principal);
    assert_eq!(after.reached_loa, before.reached_loa);
}

#[test]
fn non_monotonic_loa_reflects_last_passed_step() {
    // LOA values need not increase; the reached level is simply the last
    // passed step's, whatever it is.
    let mut w = Workflow::new();
    w.add_credential_validator(5, Supplier::new(VerificationStep::one_time_code(1)));
    w.add_credential_validator(3, Supplier::new(VerificationStep::one_time_code(2)));
    let mut s = Process::new(&w);
    let st = s.process(&Proof::OneTimeCode { code: 1 });
    assert_eq!(st.reached_loa, 5);
    let st = s.process(&Proof::OneTimeCode { code: 2 });
    assert_eq!(st.reached_loa, 3);
    assert_eq!(st.state, SessionState::Terminal);
}

#[test]
fn sessions_share_one_workflow_independently() {
    let w = two_step_workflow();
    let mut first = Process::new(&w);
    let mut second = Process::new(&w);

    first.process(&user_secret("jean", "pass"));
    let st2 = second.process(&Proof::OneTimeCode { code: 12 });
    assert_eq!(st2.state, SessionState::Active { index: 0 });

    let st1 = first.status();
    assert_eq!(st1.state, SessionState::Active { index: 1 });
    assert_eq!(st1.reached_loa, 1);
}
