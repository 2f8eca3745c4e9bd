use identity_workflow::auth::build_auth_request;
use identity_workflow::config::ConfigError;
use identity_workflow::config::resolve_region;
use identity_workflow::config::resolve_startup;
use identity_workflow::config::validate_client_id;
use identity_workflow::confirm_signup::build_confirmation_request;
use identity_workflow::signup::build_signup_request;
use identity_workflow::signup::registration_credentials;
use identity_workflow::workflow::Action;
use identity_workflow::workflow::Event;
use identity_workflow::workflow::Outcome;
use identity_workflow::workflow::Phase;
use identity_workflow::workflow::StepError;
use identity_workflow::workflow::StepKind;
use identity_workflow::workflow::Workflow;

#[test]
fn registration_echoes_credentials() {
    let creds = registration_credentials("alice".to_string(), "Secr3t!".to_string());
    assert_eq!(creds.username, "alice");
    assert_eq!(creds.password, "Secr3t!");
}

#[test]
fn signup_request_carries_email_attribute() {
    let req = build_signup_request(
        "client-123".to_string(),
        "a@b.com".to_string(),
        "alice".to_string(),
        "Secr3t!".to_string(),
    );
    assert_eq!(req.client_id, "client-123");
    assert_eq!(req.username, "alice");
    assert_eq!(req.password, "Secr3t!");
    assert_eq!(req.attributes.len(), 1);
    assert_eq!(req.attributes[0].0, "email");
    assert_eq!(req.attributes[0].1, "a@b.com");
}

#[test]
fn confirmation_request_echoes_raw_code() {
    let req = build_confirmation_request(
        "client-123".to_string(),
        "alice".to_string(),
        "00o123".to_string(),
    );
    assert_eq!(req.client_id, "client-123");
    assert_eq!(req.username, "alice");
    assert_eq!(req.confirmation_code, "00o123");
}

#[test]
fn auth_request_carries_both_required_keys() {
    let creds = registration_credentials("alice".to_string(), "Secr3t!".to_string());
    let req = build_auth_request("client-123".to_string(), &creds);
    assert_eq!(req.client_id, "client-123");
    assert_eq!(req.parameters.len(), 2);
    assert_eq!(req.parameters[0].0, "USERNAME");
    assert_eq!(req.parameters[0].1, "alice");
    assert_eq!(req.parameters[1].0, "PASSWORD");
    assert_eq!(req.parameters[1].1, "Secr3t!");
}

#[test]
fn registration_failure_halts_workflow() {
    let mut wf = Workflow::new();
    assert_eq!(wf.next_action(), Action::Register);
    wf.step(Event::RegistrationFailed(StepError::Remote("policy violation".to_string())));
    assert_eq!(wf.phase, Phase::Done);
    assert_eq!(wf.next_action(), Action::Stop);
    assert_eq!(
        wf.outcome,
        Some(Outcome::Failure(
            StepKind::Registration,
            StepError::Remote("policy violation".to_string())
        ))
    );
}

#[test]
fn input_failure_is_fatal_to_registration() {
    let mut wf = Workflow::new();
    wf.step(Event::RegistrationFailed(StepError::Input("failed to read email".to_string())));
    assert_eq!(wf.next_action(), Action::Stop);
    assert_eq!(
        wf.outcome,
        Some(Outcome::Failure(
            StepKind::Registration,
            StepError::Input("failed to read email".to_string())
        ))
    );
}

#[test]
fn verification_failure_still_authenticates() {
    let mut wf = Workflow::new();
    let creds = registration_credentials("alice".to_string(), "Secr3t!".to_string());
    wf.step(Event::RegistrationSucceeded(creds));
    assert_eq!(wf.next_action(), Action::Verify);
    wf.step(Event::VerificationFailed(StepError::Remote("wrong code".to_string())));
    assert_eq!(wf.next_action(), Action::Authenticate);
    let kept = wf.credentials.as_ref().unwrap();
    assert_eq!(kept.username, "alice");
    assert_eq!(kept.password, "Secr3t!");
    assert_eq!(wf.outcome, None);
}

#[test]
fn accepted_credentials_yield_nonempty_token() {
    // A stand-in for a remote endpoint that accepts exactly this pair.
    let accepts = |username: &str, password: &str| -> Option<String> {
        if username == "alice" && password == "Secr3t!" {
            Some("eyJ-demo-access-token".to_string())
        } else {
            None
        }
    };
    let mut wf = Workflow::new();
    let creds = registration_credentials("alice".to_string(), "Secr3t!".to_string());
    wf.step(Event::RegistrationSucceeded(creds));
    wf.step(Event::VerificationSucceeded);
    assert_eq!(wf.next_action(), Action::Authenticate);
    let stored = wf.credentials.as_ref().unwrap();
    let event = match accepts(&stored.username, &stored.password) {
        Some(token) => Event::AuthenticationSucceeded(token),
        None => Event::AuthenticationFailed(StepError::Remote("not authorized".to_string())),
    };
    wf.step(event);
    assert_eq!(wf.next_action(), Action::Stop);
    match wf.outcome {
        Some(Outcome::Success(token)) => assert!(!token.is_empty()),
        other => panic!("expected a token, got {:?}", other),
    }
}

#[test]
fn authentication_failure_ends_the_run() {
    let mut wf = Workflow::new();
    let creds = registration_credentials("alice".to_string(), "wrong".to_string());
    wf.step(Event::RegistrationSucceeded(creds));
    wf.step(Event::VerificationSucceeded);
    wf.step(Event::AuthenticationFailed(StepError::Remote("not authorized".to_string())));
    assert_eq!(wf.next_action(), Action::Stop);
    let outcome = wf.outcome.unwrap();
    assert!(!outcome.is_success());
    assert_eq!(
        outcome,
        Outcome::Failure(StepKind::Authentication, StepError::Remote("not authorized".to_string()))
    );
}

#[test]
fn successful_outcome_reports_success() {
    let outcome = Outcome::Success("token".to_string());
    assert!(outcome.is_success());
}

#[test]
fn missing_client_id_is_fatal_at_startup() {
    assert_eq!(validate_client_id(None), Err(ConfigError::MissingClientId));
    let startup = resolve_startup(Some("us-west-2".to_string()), None, None);
    assert!(startup.is_err());
}

#[test]
fn supplied_client_id_passes_through() {
    assert_eq!(validate_client_id(Some("client-123".to_string())), Ok("client-123".to_string()));
    let cfg = resolve_startup(None, None, Some("client-123".to_string())).unwrap();
    assert_eq!(cfg.client_id, "client-123");
    assert_eq!(cfg.region, "us-east-1");
}

#[test]
fn region_flag_wins_over_ambient() {
    let r = resolve_region(Some("eu-west-1".to_string()), Some("ap-south-1".to_string()));
    assert_eq!(r, "eu-west-1");
}

#[test]
fn ambient_region_used_without_flag() {
    let r = resolve_region(None, Some("ap-south-1".to_string()));
    assert_eq!(r, "ap-south-1");
}

#[test]
fn default_region_is_last_resort() {
    let r = resolve_region(None, None);
    assert_eq!(r, "us-east-1");
}
