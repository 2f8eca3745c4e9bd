use vstd::prelude::*;

use crate::credentials::Credentials;
use crate::credentials::password_key;
use crate::credentials::username_key;

verus! {

/// Which step produced a failure.
#[derive(Clone, Copy, PartialEq, Eq, Debug, Structural)]
pub enum StepKind {
    Registration,
    Verification,
    Authentication,
}

/// Why a step failed: the terminal input could not be read, or the remote
/// identity service rejected the request.
#[derive(PartialEq, Eq, Debug)]
pub enum StepError {
    Input(String),
    Remote(String),
}

/// The workflow's final result: an access token on success, or the step
/// that failed together with its error.
#[derive(PartialEq, Eq, Debug)]
pub enum Outcome {
    Success(String),
    Failure(StepKind, StepError),
}

/// Where the driver stands: the three steps run strictly in this order,
/// with no branching back.
#[derive(Clone, Copy, PartialEq, Eq, Debug, Structural)]
pub enum Phase {
    Registering,
    Verifying,
    Authenticating,
    Done,
}

/// What the step now running reported back to the driver.
#[derive(Debug)]
pub enum Event {
    RegistrationSucceeded(Credentials),
    RegistrationFailed(StepError),
    VerificationSucceeded,
    VerificationFailed(StepError),
    AuthenticationSucceeded(String),
    AuthenticationFailed(StepError),
}

/// What the driver directs next.
#[derive(Clone, Copy, PartialEq, Eq, Debug, Structural)]
pub enum Action {
    Register,
    Verify,
    Authenticate,
    Stop,
}

/// The workflow driver: phase, the credentials carried from registration
/// to authentication, and the final outcome once the run is over.
#[derive(Debug)]
pub struct Workflow {
    pub phase: Phase,
    pub credentials: Option<Credentials>,
    pub outcome: Option<Outcome>,
}

/// Which reports fit which phase: each step may report only while it is
/// the one running, and nothing fits once the workflow is done.
pub open spec fn event_fits(phase: Phase, event: Event) -> bool {
    match phase {
        Phase::Registering => event is RegistrationSucceeded || event is RegistrationFailed,
        Phase::Verifying => event is VerificationSucceeded || event is VerificationFailed,
        Phase::Authenticating => event is AuthenticationSucceeded
            || event is AuthenticationFailed,
        Phase::Done => false,
    }
}

/// The transition rule. A registration failure is fatal and halts the
/// workflow at once; a verification failure is reported but the driver
/// proceeds to authentication regardless; the authentication report, either
/// way, becomes the final outcome.
pub open spec fn spec_step(w: Workflow, event: Event) -> Workflow {
    if event_fits(w.phase, event) {
        match event {
            Event::RegistrationSucceeded(c) => Workflow {
                phase: Phase::Verifying,
                credentials: Some(c),
                outcome: w.outcome,
            },
            Event::RegistrationFailed(e) => Workflow {
                phase: Phase::Done,
                credentials: w.credentials,
                outcome: Some(Outcome::Failure(StepKind::Registration, e)),
            },
            Event::VerificationSucceeded => Workflow {
                phase: Phase::Authenticating,
                credentials: w.credentials,
                outcome: w.outcome,
            },
            Event::VerificationFailed(_) => Workflow {
                phase: Phase::Authenticating,
                credentials: w.credentials,
                outcome: w.outcome,
            },
            Event::AuthenticationSucceeded(token) => Workflow {
                phase: Phase::Done,
                credentials: w.credentials,
                outcome: Some(Outcome::Success(token)),
            },
            Event::AuthenticationFailed(e) => Workflow {
                phase: Phase::Done,
                credentials: w.credentials,
                outcome: Some(Outcome::Failure(StepKind::Authentication, e)),
            },
        }
    } else {
        w
    }
}

/// What the driver directs in each phase.
pub open spec fn spec_next_action(w: Workflow) -> Action {
    match w.phase {
        Phase::Registering => Action::Register,
        Phase::Verifying => Action::Verify,
        Phase::Authenticating => Action::Authenticate,
        Phase::Done => Action::Stop,
    }
}

impl Workflow {
    /// The driver's invariant: once registration has succeeded the
    /// credentials are held until the run is over, and an outcome exists
    /// exactly when the workflow is done.
    pub open spec fn well_formed(self) -> bool {
        &&& (self.phase == Phase::Verifying || self.phase == Phase::Authenticating)
            ==> self.credentials is Some
        &&& ((self.phase == Phase::Done) <==> (self.outcome is Some))
    }

    /// A fresh workflow: about to register, holding nothing yet.
    pub fn new() -> (r: Workflow)
        ensures
            r.phase == Phase::Registering,
            r.credentials is None,
            r.outcome is None,
            r.well_formed(),
    {
        Workflow { phase: Phase::Registering, credentials: None, outcome: None }
    }

    /// What to do next, determined by the phase alone.
    pub fn next_action(&self) -> (r: Action)
        ensures
            r == spec_next_action(*self),
    {
        match self.phase {
            Phase::Registering => Action::Register,
            Phase::Verifying => Action::Verify,
            Phase::Authenticating => Action::Authenticate,
            Phase::Done => Action::Stop,
        }
    }

    /// Advances the driver by one step report, following the transition
    /// rule exactly.
    pub fn step(&mut self, event: Event)
        requires
            old(self).well_formed(),
            event_fits(old(self).phase, event),
        ensures
            final(self).well_formed(),
            *final(self) == spec_step(*old(self), event),
    {
        match event {
            Event::RegistrationSucceeded(c) => {
                self.phase = Phase::Verifying;
                self.credentials = Some(c);
            },
            Event::RegistrationFailed(e) => {
                self.phase = Phase::Done;
                self.outcome = Some(Outcome::Failure(StepKind::Registration, e));
            },
            Event::VerificationSucceeded => {
                self.phase = Phase::Authenticating;
            },
            Event::VerificationFailed(_) => {
                self.phase = Phase::Authenticating;
            },
            Event::AuthenticationSucceeded(token) => {
                self.phase = Phase::Done;
                self.outcome = Some(Outcome::Success(token));
            },
            Event::AuthenticationFailed(e) => {
                self.phase = Phase::Done;
                self.outcome = Some(Outcome::Failure(StepKind::Authentication, e));
            },
        }
    }
}

impl Outcome {
    /// Whether the run as a whole succeeded; the workflow's exit status.
    pub fn is_success(&self) -> (r: bool)
        ensures
            r == (*self is Success),
    {
        matches!(self, Outcome::Success(_))
    }
}

/// Authentication is never directed without a complete credentials
/// mapping: whenever the driver's next action is to authenticate, the
/// stored credentials carry both required keys.
pub proof fn lemma_authenticate_has_complete_credentials(w: Workflow)
    requires
        w.well_formed(),
        spec_next_action(w) == Action::Authenticate,
    ensures
        w.credentials matches Some(c) && c.as_map().contains_key(username_key())
            && c.as_map().contains_key(password_key()),
{
    let c = w.credentials->0;
    c.lemma_has_required_keys();
}

/// A registration failure short-circuits the workflow: the driver halts
/// with that failure as the outcome, and no verification or
/// authentication report can ever be taken afterwards.
pub proof fn lemma_registration_failure_halts(w: Workflow, error: StepError)
    requires
        w.well_formed(),
        w.phase == Phase::Registering,
    ensures
        ({
            let halted = spec_step(w, Event::RegistrationFailed(error));
            &&& halted.phase == Phase::Done
            &&& spec_next_action(halted) == Action::Stop
            &&& halted.outcome == Some(Outcome::Failure(StepKind::Registration, error))
            &&& forall|later: Event| !event_fits(halted.phase, later)
        }),
{
}

/// A verification failure does not halt the workflow: the driver still
/// proceeds to authentication, with the stored credentials untouched.
pub proof fn lemma_verification_failure_still_authenticates(w: Workflow, error: StepError)
    requires
        w.well_formed(),
        w.phase == Phase::Verifying,
    ensures
        ({
            let proceeded = spec_step(w, Event::VerificationFailed(error));
            &&& proceeded.phase == Phase::Authenticating
            &&& spec_next_action(proceeded) == Action::Authenticate
            &&& proceeded.credentials == w.credentials
            &&& proceeded.outcome is None
        }),
{
}

} // verus!
