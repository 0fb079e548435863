use vstd::prelude::*;

use crate::aws;
use crate::config::{AuthConfig, Config, Release};
use crate::config;
use crate::errors::Error;
use crate::text;

verus! {

/// What the authorization flow waits on next. Every non-terminal step
/// names one delegated cloud CLI call; the driver performs it and feeds
/// the outcome back through [`AuthFlow::step`].
#[derive(Debug)]
pub enum AuthStep {
    /// Pending: list the configured profiles.
    CheckProfile,
    /// Pending: apply the profile parameter at `idx` as an independent
    /// "set" call. A failure partway leaves a partially configured
    /// profile behind; nothing rolls it back.
    CreateParam { idx: usize },
    /// Pending: the identity check ("who am I"). `after_login` records
    /// whether the single permitted login attempt was already spent.
    Verify { after_login: bool },
    /// Pending: the interactive login flow.
    Login,
    /// The identity is usable.
    Done,
    /// The flow aborted; the error propagates to the caller.
    Failed { error: Error },
}

/// The outcome of the delegated call an [`AuthFlow`] was waiting on.
#[derive(Debug)]
pub enum AuthEvent {
    /// The profile listing succeeded, with its captured standard output.
    Profiles { output: String },
    /// A delegated call succeeded.
    ToolOk,
    /// A delegated call exited non-zero, with captured diagnostics.
    ToolErr { diag: String },
    /// The identity check succeeded.
    VerifyOk,
    /// The identity check failed.
    VerifyErr,
}

/// The authorization reconciler: ensures a usable cloud identity session
/// for one release, performing at most one interactive login.
#[derive(Debug)]
pub struct AuthFlow {
    /// The profile name of the resolved identity.
    pub profile: String,
    /// The declared profile parameters, applied only when the profile is
    /// absent.
    pub params: Vec<(String, String)>,
    /// What the flow waits on next.
    pub step: AuthStep,
}

/// The transition relation of the authorization flow, mirroring the
/// contract of the reconciler: create the profile only when it is
/// missing, verify, then at most one login followed by one more
/// verification; a second failure is terminal. Terminal steps absorb
/// every event, as does an event that does not answer the pending call.
pub open spec fn auth_next(f: AuthFlow, ev: AuthEvent) -> AuthFlow {
    let step = match (f.step, ev) {
        (AuthStep::CheckProfile, AuthEvent::Profiles { output }) => {
            if text::has_trimmed_line(output@, f.profile@) || f.params@.len() == 0 {
                AuthStep::Verify { after_login: false }
            } else {
                AuthStep::CreateParam { idx: 0 }
            }
        },
        (AuthStep::CheckProfile, AuthEvent::ToolErr { diag }) => {
            AuthStep::Failed { error: Error::ExternalTool { diag } }
        },
        (AuthStep::CreateParam { idx }, AuthEvent::ToolOk) => {
            if idx + 1 < f.params@.len() {
                AuthStep::CreateParam { idx: (idx + 1) as usize }
            } else {
                AuthStep::Verify { after_login: false }
            }
        },
        (AuthStep::CreateParam { idx }, AuthEvent::ToolErr { diag }) => {
            AuthStep::Failed { error: Error::ExternalTool { diag } }
        },
        (AuthStep::Verify { after_login }, AuthEvent::VerifyOk) => AuthStep::Done,
        (AuthStep::Verify { after_login }, AuthEvent::VerifyErr) => {
            if after_login {
                AuthStep::Failed { error: Error::AuthVerification { profile: f.profile } }
            } else {
                AuthStep::Login
            }
        },
        (AuthStep::Login, AuthEvent::ToolOk) => AuthStep::Verify { after_login: true },
        (AuthStep::Login, AuthEvent::ToolErr { diag }) => {
            AuthStep::Failed { error: Error::ExternalTool { diag } }
        },
        (s, _) => s,
    };
    AuthFlow { profile: f.profile, params: f.params, step }
}

/// Begins authorization for a release: resolves its context binding and
/// then its identity, and starts the flow at the profile check. A
/// dangling reference is fatal before any external call.
pub fn run(config: &Config, release: &Release) -> (r: Result<AuthFlow, Error>)
    ensures
        r matches Ok(f) ==> f.step is CheckProfile && exists|i: int, j: int|
            {
                &&& #[trigger] config::first_context_match(
                    config.contexts@,
                    release.context@,
                    i,
                )
                &&& #[trigger] config::first_auth_match(
                    config.auth@,
                    config.contexts@[i].auth@,
                    j,
                )
                &&& f.profile@ == config.auth@[j].name@
                &&& config.auth@[j].config matches AuthConfig::AwsSso { config: c } && f.params@
                    == c@
            },
        r matches Err(e) ==> e is ConfigReference,
        r is Err ==> (forall|i: int|
            0 <= i < config.contexts@.len() ==> #[trigger] config.contexts@[i].name@
                != release.context@) || (exists|i: int|
            #[trigger] config::first_context_match(config.contexts@, release.context@, i)
                && forall|j: int|
                0 <= j < config.auth@.len() ==> #[trigger] config.auth@[j].name@
                    != config.contexts@[i].auth@),
{
    let context = match config.find_context(release) {
        Ok(c) => c,
        Err(e) => {
            return Err(e);
        },
    };
    let auth = match config.find_auth(context) {
        Ok(a) => a,
        Err(e) => {
            return Err(e);
        },
    };
    let params = match &auth.config {
        AuthConfig::AwsSso { config: c } => config::clone_params(c),
    };
    Ok(AuthFlow { profile: auth.name.clone(), params, step: AuthStep::CheckProfile })
}

impl AuthFlow {
    /// The delegated invocation that the flow waits on, or `None` at a
    /// terminal step. The listing and verification calls have their
    /// output captured; the login call is interactive.
    pub fn command(&self) -> (r: Option<Vec<String>>)
        ensures
            self.step is CheckProfile ==> (r matches Some(a) && aws::is_list_profiles_args(a@)),
            self.step matches AuthStep::CreateParam { idx } ==> (idx < self.params@.len() ==> (
            r matches Some(a) && aws::is_set_profile_args(
                a@,
                self.profile@,
                self.params@[idx as int].0@,
                self.params@[idx as int].1@,
            ))),
            self.step matches AuthStep::Verify { after_login } ==> (r matches Some(a)
                && aws::is_verify_args(a@, self.profile@)),
            self.step is Login ==> (r matches Some(a) && aws::is_login_args(a@, self.profile@)),
            self.step is Done ==> r is None,
            self.step matches AuthStep::Failed { error } ==> r is None,
    {
        match &self.step {
            AuthStep::CheckProfile => Some(aws::list_profiles_args()),
            AuthStep::CreateParam { idx } => {
                if *idx < self.params.len() {
                    let (k, v) = &self.params[*idx];
                    Some(aws::set_profile_args(self.profile.as_str(), k.as_str(), v.as_str()))
                } else {
                    None
                }
            },
            AuthStep::Verify { .. } => Some(aws::verify_auth(self.profile.as_str())),
            AuthStep::Login => Some(aws::sso_login(self.profile.as_str())),
            AuthStep::Done => None,
            AuthStep::Failed { .. } => None,
        }
    }

    /// Advances the flow on the outcome of the pending delegated call,
    /// exactly as [`auth_next`] describes.
    pub fn step(&mut self, ev: AuthEvent)
        ensures
            *final(self) == auth_next(*old(self), ev),
    {
        let next = match (&self.step, ev) {
            (AuthStep::CheckProfile, AuthEvent::Profiles { output }) => {
                if aws::profile_exists(output.as_str(), self.profile.as_str())
                    || self.params.len() == 0 {
                    AuthStep::Verify { after_login: false }
                } else {
                    AuthStep::CreateParam { idx: 0 }
                }
            },
            (AuthStep::CheckProfile, AuthEvent::ToolErr { diag }) => {
                AuthStep::Failed { error: Error::ExternalTool { diag } }
            },
            (AuthStep::CreateParam { idx }, AuthEvent::ToolOk) => {
                let n = self.params.len();
                if *idx < n && n - *idx > 1 {
                    AuthStep::CreateParam { idx: *idx + 1 }
                } else {
                    AuthStep::Verify { after_login: false }
                }
            },
            (AuthStep::CreateParam { idx }, AuthEvent::ToolErr { diag }) => {
                AuthStep::Failed { error: Error::ExternalTool { diag } }
            },
            (AuthStep::Verify { .. }, AuthEvent::VerifyOk) => AuthStep::Done,
            (AuthStep::Verify { after_login }, AuthEvent::VerifyErr) => {
                if *after_login {
                    AuthStep::Failed {
                        error: Error::AuthVerification { profile: self.profile.clone() },
                    }
                } else {
                    AuthStep::Login
                }
            },
            (AuthStep::Login, AuthEvent::ToolOk) => AuthStep::Verify { after_login: true },
            (AuthStep::Login, AuthEvent::ToolErr { diag }) => {
                AuthStep::Failed { error: Error::ExternalTool { diag } }
            },
            (AuthStep::CheckProfile, _) => AuthStep::CheckProfile,
            (AuthStep::CreateParam { idx }, _) => AuthStep::CreateParam { idx: *idx },
            (AuthStep::Verify { after_login }, _) => AuthStep::Verify {
                after_login: *after_login,
            },
            (AuthStep::Login, _) => AuthStep::Login,
            (AuthStep::Done, _) => AuthStep::Done,
            (AuthStep::Failed { .. }, _) => {
                return;
            },
        };
        self.step = next;
    }
}

/// How many login attempts a flow standing at `s` may still start.
pub open spec fn login_weight(s: AuthStep) -> nat {
    match s {
        AuthStep::CheckProfile => 1,
        AuthStep::CreateParam { .. } => 1,
        AuthStep::Verify { after_login } => if after_login {
            0
        } else {
            1
        },
        AuthStep::Login => 0,
        AuthStep::Done => 0,
        AuthStep::Failed { .. } => 0,
    }
}

/// How many times a run of the flow from `f` under the events `evs`
/// enters the login step.
pub open spec fn login_entries(f: AuthFlow, evs: Seq<AuthEvent>) -> nat
    decreases evs.len(),
{
    if evs.len() == 0 {
        0
    } else {
        let n = auth_next(f, evs[0]);
        (if !(f.step is Login) && n.step is Login {
            1nat
        } else {
            0nat
        }) + login_entries(n, evs.skip(1))
    }
}

/// Bounded login retry: however the delegated tool answers, a flow never
/// enters the login step more often than its remaining login budget
/// allows.
pub proof fn lemma_login_bounded(f: AuthFlow, evs: Seq<AuthEvent>)
    ensures
        login_entries(f, evs) <= login_weight(f.step),
    decreases evs.len(),
{
    if evs.len() > 0 {
        let n = auth_next(f, evs[0]);
        lemma_login_bounded(n, evs.skip(1));
    }
}

/// Bounded login retry: a fresh authorization flow performs at most one
/// login attempt in its whole run, whatever events the delegated tool
/// produces.
pub proof fn lemma_single_login(f: AuthFlow, evs: Seq<AuthEvent>)
    requires
        f.step is CheckProfile,
    ensures
        login_entries(f, evs) <= 1,
{
    lemma_login_bounded(f, evs);
}

/// A verification failure after the single login is terminal: the flow
/// fails with an authorization error for the profile, and no further
/// login is attempted.
pub proof fn lemma_second_failure_terminal(f: AuthFlow)
    requires
        f.step matches AuthStep::Verify { after_login: true },
    ensures
        auth_next(f, AuthEvent::VerifyErr).step matches AuthStep::Failed { error }
            && error matches Error::AuthVerification { profile } && profile@ == f.profile@,
        login_weight(auth_next(f, AuthEvent::VerifyErr).step) == 0,
{
}

/// Idempotence of the cloud side: with the profile already listed and
/// the identity immediately verifiable, the flow finishes without ever
/// entering a profile-creation or login step.
pub proof fn lemma_auth_idempotent(f: AuthFlow, output: String)
    requires
        f.step is CheckProfile,
        text::has_trimmed_line(output@, f.profile@),
    ensures
        auth_next(f, AuthEvent::Profiles { output }).step matches AuthStep::Verify {
            after_login,
        } && after_login == false,
        auth_next(
            auth_next(f, AuthEvent::Profiles { output }),
            AuthEvent::VerifyOk,
        ).step is Done,
{
}

/// Terminal steps absorb every further event.
pub proof fn lemma_terminal_absorbing(f: AuthFlow, ev: AuthEvent)
    requires
        f.step is Done || f.step is Failed,
    ensures
        auth_next(f, ev) == f,
{
}

} // verus!
