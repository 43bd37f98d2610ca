use vstd::prelude::*;
use crate::session::{session_cookie, SessionCookie, SESSION_COOKIE_NAME, SESSION_COOKIE_PATH, SESSION_TTL};
use crate::uri::{
    form_encoded_of, profile_uri, redirect_to_error_page, ERROR_PAGE_PATH,
    PROVIDER_PROFILE_URL,
};

verus! {

/// Where the browser lands after signing in.
pub const LANDING_PATH: &'static str = "/";

/// The steps of one sign-in through the identity provider.
#[derive(Clone, Copy, Debug, PartialEq, Eq, Structural)]
pub enum LoginPhase {
    Start,
    CodeReceived,
    TokenObtained,
    ProfileResolved,
    Registering,
    AccountResolved,
    SessionIssued,
    Failed,
}

/// Why a sign-in failed.
#[derive(Clone, Copy, Debug, PartialEq, Eq, Structural)]
pub enum LoginFailure {
    MissingCode,
    TokenExchangeFailed,
    ProfileFetchFailed,
    AccountLookupFailed,
    RegistrationFailed,
    SessionStoreFailed,
    OutOfOrder,
}

/// The profile that the identity provider returns.
pub struct Profile {
    pub account: String,
    pub nickname: String,
    pub address: String,
}

/// What the caller observed since the last step.
pub enum LoginEvent {
    /// The provider redirected back, with the `code` query parameter if any.
    Callback { code: Option<String> },
    /// The token endpoint answered with `status`, and `access_token` if its
    /// body held one.
    TokenExchanged { status: u16, access_token: Option<String> },
    /// The profile endpoint answered with `status`, and the profile if its body
    /// held one.
    ProfileFetched { status: u16, profile: Option<Profile> },
    /// The content service listed `matches` users for the account, or its
    /// answer could not be had or read.
    AccountLookedUp { matches: Option<usize> },
    /// The content service returned `created` users from the creation request,
    /// or its answer could not be had or read.
    AccountCreated { created: Option<usize> },
    /// The session `token` was written to the store, or the write failed.
    SessionStored { token: String, stored: bool },
}

/// What the caller must do next.
pub enum LoginAction {
    ExchangeCode { code: String },
    FetchProfile { uri: String },
    LookUpAccount { account: String },
    CreateAccount { body: String },
    StoreSession { account: String },
    SignIn { cookie: SessionCookie, location: String },
    ShowError { location: String },
    Nothing,
}

/// One sign-in in progress. It starts at `Start` and ends at `SessionIssued`
/// or `Failed`, and moves only through `handle`.
pub struct LoginFlow {
    pub phase: LoginPhase,
    pub failure: Option<LoginFailure>,
    pub profile: Option<Profile>,
    pub session_token: Option<String>,
}

pub open spec fn success_status(status: u16) -> bool {
    200 <= status < 300
}

pub open spec fn nonempty(s: Option<String>) -> bool {
    s is Some && s->0@.len() > 0
}

/// The provider handed out an access token.
pub open spec fn token_accepted(e: LoginEvent) -> bool {
    match e {
        LoginEvent::TokenExchanged { status, access_token } => success_status(status) && nonempty(
            access_token,
        ),
        _ => false,
    }
}

/// The provider returned a profile with an account.
pub open spec fn profile_accepted(e: LoginEvent) -> bool {
    match e {
        LoginEvent::ProfileFetched { status, profile } => success_status(status) && profile is Some
            && profile->0.account@.len() > 0,
        _ => false,
    }
}

/// The content service has a user for the account.
pub open spec fn account_found(e: LoginEvent) -> bool {
    match e {
        LoginEvent::AccountLookedUp { matches } => matches is Some && matches->0 > 0,
        _ => false,
    }
}

/// The content service has no user for the account.
pub open spec fn account_missing(e: LoginEvent) -> bool {
    match e {
        LoginEvent::AccountLookedUp { matches } => matches == Some(0usize),
        _ => false,
    }
}

/// The content service created a user for the account.
pub open spec fn account_created(e: LoginEvent) -> bool {
    match e {
        LoginEvent::AccountCreated { created } => created is Some && created->0 > 0,
        _ => false,
    }
}

/// The account was found or created on the content service.
pub open spec fn account_resolved(e: LoginEvent) -> bool {
    account_found(e) || account_created(e)
}

/// The session was written to the store.
pub open spec fn session_stored(e: LoginEvent) -> bool {
    match e {
        LoginEvent::SessionStored { token, stored } => stored && token@.len() > 0,
        _ => false,
    }
}

/// Whether `e` is the kind of event that `p` waits for.
pub open spec fn expected_event(p: LoginPhase, e: LoginEvent) -> bool {
    match p {
        LoginPhase::Start => e is Callback,
        LoginPhase::CodeReceived => e is TokenExchanged,
        LoginPhase::TokenObtained => e is ProfileFetched,
        LoginPhase::ProfileResolved => e is AccountLookedUp,
        LoginPhase::Registering => e is AccountCreated,
        LoginPhase::AccountResolved => e is SessionStored,
        _ => true,
    }
}

pub open spec fn is_terminal(p: LoginPhase) -> bool {
    p == LoginPhase::SessionIssued || p == LoginPhase::Failed
}

/// The phase after `e` arrives in phase `p`.
pub open spec fn next_phase(p: LoginPhase, e: LoginEvent) -> LoginPhase {
    match p {
        LoginPhase::Start => match e {
            LoginEvent::Callback { code } => if nonempty(code) {
                LoginPhase::CodeReceived
            } else {
                LoginPhase::Failed
            },
            _ => LoginPhase::Failed,
        },
        LoginPhase::CodeReceived => if token_accepted(e) {
            LoginPhase::TokenObtained
        } else {
            LoginPhase::Failed
        },
        LoginPhase::TokenObtained => if profile_accepted(e) {
            LoginPhase::ProfileResolved
        } else {
            LoginPhase::Failed
        },
        LoginPhase::ProfileResolved => if account_found(e) {
            LoginPhase::AccountResolved
        } else if account_missing(e) {
            LoginPhase::Registering
        } else {
            LoginPhase::Failed
        },
        LoginPhase::Registering => if account_created(e) {
            LoginPhase::AccountResolved
        } else {
            LoginPhase::Failed
        },
        LoginPhase::AccountResolved => if session_stored(e) {
            LoginPhase::SessionIssued
        } else {
            LoginPhase::Failed
        },
        _ => p,
    }
}

/// The failure recorded when `e` arrives in the non-terminal phase `p` and
/// does not let the sign-in go on.
pub open spec fn failure_for(p: LoginPhase, e: LoginEvent) -> LoginFailure {
    if !expected_event(p, e) {
        LoginFailure::OutOfOrder
    } else {
        match p {
            LoginPhase::Start => LoginFailure::MissingCode,
            LoginPhase::CodeReceived => LoginFailure::TokenExchangeFailed,
            LoginPhase::TokenObtained => LoginFailure::ProfileFetchFailed,
            LoginPhase::ProfileResolved => LoginFailure::AccountLookupFailed,
            LoginPhase::Registering => LoginFailure::RegistrationFailed,
            _ => LoginFailure::SessionStoreFailed,
        }
    }
}

/// The attempted action shown on the error page for `f`.
pub open spec fn failure_action(f: LoginFailure) -> Seq<char> {
    match f {
        LoginFailure::MissingCode => "Sign in with github"@,
        LoginFailure::TokenExchangeFailed => "Get access token from github"@,
        LoginFailure::ProfileFetchFailed => "Get user info from github"@,
        LoginFailure::AccountLookupFailed => "Look up user"@,
        LoginFailure::RegistrationFailed => "Register user"@,
        LoginFailure::SessionStoreFailed => "Start session"@,
        LoginFailure::OutOfOrder => "Sign in with github"@,
    }
}

/// The reason shown on the error page for `f`.
pub open spec fn failure_reason(f: LoginFailure) -> Seq<char> {
    match f {
        LoginFailure::MissingCode => "missing code"@,
        LoginFailure::TokenExchangeFailed => "token exchange failed"@,
        LoginFailure::ProfileFetchFailed => "profile fetch failed"@,
        LoginFailure::AccountLookupFailed => "account lookup failed"@,
        LoginFailure::RegistrationFailed => "registration failed"@,
        LoginFailure::SessionStoreFailed => "session store unavailable"@,
        LoginFailure::OutOfOrder => "unexpected step"@,
    }
}

/// Location of the error page for `f`.
pub open spec fn failure_location(f: LoginFailure) -> Seq<char> {
    ERROR_PAGE_PATH@ + "?"@ + form_encoded_of(
        seq![("action"@, failure_action(f)), ("err_info"@, failure_reason(f))],
    )
}

/// The body of the content-service request that creates a user from `p`.
pub open spec fn registration_body_of(p: Profile) -> Seq<char> {
    form_encoded_of(
        seq![("account"@, p.account@), ("nickname"@, p.nickname@), ("address"@, p.address@)],
    )
}

impl LoginFailure {
    /// The attempted action and the reason, as the error page shows them.
    pub fn describe(&self) -> (r: (&'static str, &'static str))
        ensures
            r.0@ == failure_action(*self),
            r.1@ == failure_reason(*self),
    {
        match self {
            LoginFailure::MissingCode => ("Sign in with github", "missing code"),
            LoginFailure::TokenExchangeFailed => (
                "Get access token from github",
                "token exchange failed",
            ),
            LoginFailure::ProfileFetchFailed => ("Get user info from github", "profile fetch failed"),
            LoginFailure::AccountLookupFailed => ("Look up user", "account lookup failed"),
            LoginFailure::RegistrationFailed => ("Register user", "registration failed"),
            LoginFailure::SessionStoreFailed => ("Start session", "session store unavailable"),
            LoginFailure::OutOfOrder => ("Sign in with github", "unexpected step"),
        }
    }

    /// Location of the error page that reports this failure.
    pub fn location(&self) -> (r: String)
        ensures
            r@ == failure_location(*self),
    {
        let (action, reason) = self.describe();
        redirect_to_error_page(action, reason)
    }
}

/// The body of the content-service request that creates a user from `p`.
pub fn registration_body(p: &Profile) -> (r: String)
    ensures
        r@ == registration_body_of(*p),
{
    crate::uri::form_fields3(
        "account",
        p.account.as_str(),
        "nickname",
        p.nickname.as_str(),
        "address",
        p.address.as_str(),
    )
}

/// The phase holds a profile with an account once that profile was fetched.
pub open spec fn holds_profile(p: LoginPhase) -> bool {
    p == LoginPhase::ProfileResolved || p == LoginPhase::Registering || p
        == LoginPhase::AccountResolved || p == LoginPhase::SessionIssued
}

/// The action that `handle` returns when `e` arrives at `flow`.
pub open spec fn action_for(flow: LoginFlow, e: LoginEvent, r: LoginAction) -> bool {
    let p = flow.phase;
    let n = next_phase(p, e);
    if is_terminal(p) {
        r is Nothing
    } else if n == LoginPhase::Failed {
        match r {
            LoginAction::ShowError { location } => location@ == failure_location(failure_for(p, e)),
            _ => false,
        }
    } else {
        match (p, e, r) {
            (
                LoginPhase::Start,
                LoginEvent::Callback { code },
                LoginAction::ExchangeCode { code: c },
            ) => c@ == code->0@,
            (
                LoginPhase::CodeReceived,
                LoginEvent::TokenExchanged { access_token, .. },
                LoginAction::FetchProfile { uri },
            ) => uri@ == PROVIDER_PROFILE_URL@ + "?"@ + form_encoded_of(
                seq![("access_token"@, access_token->0@)],
            ),
            (
                LoginPhase::TokenObtained,
                LoginEvent::ProfileFetched { profile, .. },
                LoginAction::LookUpAccount { account },
            ) => account@ == profile->0.account@,
            (LoginPhase::ProfileResolved, _, LoginAction::StoreSession { account }) => n
                == LoginPhase::AccountResolved && account@ == flow.profile->0.account@,
            (LoginPhase::ProfileResolved, _, LoginAction::CreateAccount { body }) => n
                == LoginPhase::Registering && body@ == registration_body_of(flow.profile->0),
            (LoginPhase::Registering, _, LoginAction::StoreSession { account }) => account@
                == flow.profile->0.account@,
            (
                LoginPhase::AccountResolved,
                LoginEvent::SessionStored { token, .. },
                LoginAction::SignIn { cookie, location },
            ) => {
                &&& cookie.name@ == SESSION_COOKIE_NAME@
                &&& cookie.value@ == token@
                &&& cookie.path@ == SESSION_COOKIE_PATH@
                &&& cookie.max_age_secs == SESSION_TTL
                &&& cookie.http_only
                &&& location@ == LANDING_PATH@
            },
            _ => false,
        }
    }
}

fn is_nonempty(s: &Option<String>) -> (r: bool)
    ensures
        r == nonempty(*s),
{
    match s {
        Some(t) => t.as_str().unicode_len() > 0,
        None => false,
    }
}

fn is_success(status: u16) -> (r: bool)
    ensures
        r == success_status(status),
{
    200 <= status && status < 300
}

impl LoginFlow {
    /// The flow's invariant: a failure is recorded exactly when it failed, a
    /// profile with an account is held from the moment it was fetched, and an
    /// issued sign-in holds its session token.
    pub open spec fn wf(&self) -> bool {
        &&& (self.phase == LoginPhase::Failed) == (self.failure is Some)
        &&& holds_profile(self.phase) ==> self.profile is Some && self.profile->0.account@.len()
            > 0
        &&& self.phase == LoginPhase::SessionIssued ==> self.session_token is Some
    }

    /// A sign-in that has not started.
    pub fn new() -> (r: LoginFlow)
        ensures
            r.wf(),
            r.phase == LoginPhase::Start,
    {
        LoginFlow { phase: LoginPhase::Start, failure: None, profile: None, session_token: None }
    }

    fn fail(&mut self, f: LoginFailure) -> (r: LoginAction)
        ensures
            final(self).phase == LoginPhase::Failed,
            final(self).failure == Some(f),
            final(self).profile == old(self).profile,
            final(self).session_token == old(self).session_token,
            match r {
                LoginAction::ShowError { location } => location@ == failure_location(f),
                _ => false,
            },
    {
        self.phase = LoginPhase::Failed;
        self.failure = Some(f);
        LoginAction::ShowError { location: f.location() }
    }

    /// Takes the sign-in one step on from what the caller observed, and says
    /// what the caller must do next. A terminal flow ignores every event.
    pub fn handle(&mut self, e: LoginEvent) -> (r: LoginAction)
        requires
            old(self).wf(),
        ensures
            final(self).wf(),
            final(self).phase == next_phase(old(self).phase, e),
            is_terminal(old(self).phase) ==> *final(self) == *old(self),
            !is_terminal(old(self).phase) && final(self).phase == LoginPhase::Failed
                ==> final(self).failure == Some(failure_for(old(self).phase, e)),
            old(self).phase == LoginPhase::AccountResolved && final(self).phase
                == LoginPhase::SessionIssued ==> match e {
                LoginEvent::SessionStored { token, .. } => final(self).session_token == Some(token),
                _ => false,
            },
            action_for(*old(self), e, r),
    {
        match self.phase {
            LoginPhase::Start => match e {
                LoginEvent::Callback { code } => {
                    if is_nonempty(&code) {
                        self.phase = LoginPhase::CodeReceived;
                        LoginAction::ExchangeCode { code: code.unwrap() }
                    } else {
                        self.fail(LoginFailure::MissingCode)
                    }
                },
                _ => self.fail(LoginFailure::OutOfOrder),
            },
            LoginPhase::CodeReceived => match e {
                LoginEvent::TokenExchanged { status, access_token } => {
                    if is_success(status) && is_nonempty(&access_token) {
                        self.phase = LoginPhase::TokenObtained;
                        let token = access_token.unwrap();
                        LoginAction::FetchProfile { uri: profile_uri(token.as_str()) }
                    } else {
                        self.fail(LoginFailure::TokenExchangeFailed)
                    }
                },
                _ => self.fail(LoginFailure::OutOfOrder),
            },
            LoginPhase::TokenObtained => match e {
                LoginEvent::ProfileFetched { status, profile } => {
                    match profile {
                        Some(p) => {
                            if is_success(status) && p.account.as_str().unicode_len() > 0 {
                                let account = p.account.clone();
                                self.phase = LoginPhase::ProfileResolved;
                                self.profile = Some(p);
                                LoginAction::LookUpAccount { account }
                            } else {
                                self.fail(LoginFailure::ProfileFetchFailed)
                            }
                        },
                        None => self.fail(LoginFailure::ProfileFetchFailed),
                    }
                },
                _ => self.fail(LoginFailure::OutOfOrder),
            },
            LoginPhase::ProfileResolved => match e {
                LoginEvent::AccountLookedUp { matches } => match matches {
                    Some(n) => {
                        let p = self.profile.as_ref().unwrap();
                        if n > 0 {
                            let account = p.account.clone();
                            self.phase = LoginPhase::AccountResolved;
                            LoginAction::StoreSession { account }
                        } else {
                            let body = registration_body(p);
                            self.phase = LoginPhase::Registering;
                            LoginAction::CreateAccount { body }
                        }
                    },
                    None => self.fail(LoginFailure::AccountLookupFailed),
                },
                _ => self.fail(LoginFailure::OutOfOrder),
            },
            LoginPhase::Registering => match e {
                LoginEvent::AccountCreated { created } => match created {
                    Some(n) => {
                        if n > 0 {
                            let account = self.profile.as_ref().unwrap().account.clone();
                            self.phase = LoginPhase::AccountResolved;
                            LoginAction::StoreSession { account }
                        } else {
                            self.fail(LoginFailure::RegistrationFailed)
                        }
                    },
                    None => self.fail(LoginFailure::RegistrationFailed),
                },
                _ => self.fail(LoginFailure::OutOfOrder),
            },
            LoginPhase::AccountResolved => match e {
                LoginEvent::SessionStored { token, stored } => {
                    if stored && token.as_str().unicode_len() > 0 {
                        let cookie = session_cookie(token.as_str());
                        self.phase = LoginPhase::SessionIssued;
                        self.session_token = Some(token);
                        LoginAction::SignIn { cookie, location: String::from_str(LANDING_PATH) }
                    } else {
                        self.fail(LoginFailure::SessionStoreFailed)
                    }
                },
                _ => self.fail(LoginFailure::OutOfOrder),
            },
            _ => LoginAction::Nothing,
        }
    }
}

/// Starts a sign-in at the provider's callback, carrying its `code` query
/// parameter if there was one.
pub fn login_with_github_callback(code: Option<String>) -> (r: (LoginFlow, LoginAction))
    ensures
        r.0.wf(),
        nonempty(code) ==> r.0.phase == LoginPhase::CodeReceived && match r.1 {
            LoginAction::ExchangeCode { code: c } => c@ == code->0@,
            _ => false,
        },
        !nonempty(code) ==> r.0.phase == LoginPhase::Failed && r.0.failure == Some(
            LoginFailure::MissingCode,
        ) && match r.1 {
            LoginAction::ShowError { location } => location@ == failure_location(
                LoginFailure::MissingCode,
            ),
            _ => false,
        },
{
    let mut flow = LoginFlow::new();
    let action = flow.handle(LoginEvent::Callback { code });
    (flow, action)
}

/// The phase reached from `p` once `events` have arrived, in order.
pub open spec fn run(p: LoginPhase, events: Seq<LoginEvent>) -> LoginPhase
    decreases events.len(),
{
    if events.len() == 0 {
        p
    } else {
        next_phase(run(p, events.drop_last()), events.last())
    }
}

pub open spec fn past_token(p: LoginPhase) -> bool {
    p == LoginPhase::TokenObtained || holds_profile(p)
}

pub open spec fn past_account(p: LoginPhase) -> bool {
    p == LoginPhase::AccountResolved || p == LoginPhase::SessionIssued
}

proof fn lemma_history(events: Seq<LoginEvent>)
    ensures
        past_token(run(LoginPhase::Start, events)) ==> exists|i: int|
            0 <= i < events.len() && #[trigger] token_accepted(events[i]),
        past_account(run(LoginPhase::Start, events)) ==> exists|i: int, j: int|
            0 <= i < j < events.len() && #[trigger] token_accepted(events[i])
                && #[trigger] account_resolved(events[j]),
        run(LoginPhase::Start, events) == LoginPhase::SessionIssued ==> exists|
            i: int,
            j: int,
            k: int,
        |
            0 <= i < j < k < events.len() && #[trigger] token_accepted(events[i])
                && #[trigger] account_resolved(events[j]) && #[trigger] session_stored(events[k]),
    decreases events.len(),
{
    if events.len() > 0 {
        let pre = events.drop_last();
        let last = events.len() - 1;
        lemma_history(pre);
        let p = run(LoginPhase::Start, pre);
        let e = events.last();
        let n = run(LoginPhase::Start, events);
        assert(n == next_phase(p, e));
        if past_token(n) {
            if past_token(p) {
                let i = choose|i: int| 0 <= i < pre.len() && #[trigger] token_accepted(pre[i]);
                assert(events[i] == pre[i]);
            } else {
                assert(token_accepted(events[last]));
            }
        }
        if past_account(n) {
            if past_account(p) {
                let (i, j) = choose|i: int, j: int|
                    0 <= i < j < pre.len() && #[trigger] token_accepted(pre[i])
                        && #[trigger] account_resolved(pre[j]);
                assert(events[i] == pre[i] && events[j] == pre[j]);
            } else {
                let i = choose|i: int| 0 <= i < pre.len() && #[trigger] token_accepted(pre[i]);
                assert(events[i] == pre[i]);
                assert(account_resolved(events[last]));
            }
        }
        if n == LoginPhase::SessionIssued {
            if p == LoginPhase::SessionIssued {
                let (i, j, k) = choose|i: int, j: int, k: int|
                    0 <= i < j < k < pre.len() && #[trigger] token_accepted(pre[i])
                        && #[trigger] account_resolved(pre[j]) && #[trigger] session_stored(pre[k]);
                assert(events[i] == pre[i] && events[j] == pre[j] && events[k] == pre[k]);
            } else {
                let (i, j) = choose|i: int, j: int|
                    0 <= i < j < pre.len() && #[trigger] token_accepted(pre[i])
                        && #[trigger] account_resolved(pre[j]);
                assert(events[i] == pre[i] && events[j] == pre[j]);
                assert(session_stored(events[last]));
            }
        }
    }
}

/// A sign-in that reaches `SessionIssued` went, in this order, through a token
/// exchange that the provider accepted, an account that the content service
/// found or created, and a session written to the store.
pub proof fn lemma_session_needs_token_and_account(events: Seq<LoginEvent>)
    requires
        run(LoginPhase::Start, events) == LoginPhase::SessionIssued,
    ensures
        exists|i: int, j: int, k: int|
            0 <= i < j < k < events.len() && #[trigger] token_accepted(events[i])
                && #[trigger] account_resolved(events[j]) && #[trigger] session_stored(events[k]),
{
    lemma_history(events);
}

proof fn lemma_run_append(p: LoginPhase, a: Seq<LoginEvent>, b: Seq<LoginEvent>)
    ensures
        run(p, a + b) == run(run(p, a), b),
    decreases b.len(),
{
    if b.len() == 0 {
        assert(a + b =~= a);
    } else {
        lemma_run_append(p, a, b.drop_last());
        assert((a + b).drop_last() =~= a + b.drop_last());
        assert((a + b).last() == b.last());
    }
}

proof fn lemma_failed_stays(events: Seq<LoginEvent>)
    ensures
        run(LoginPhase::Failed, events) == LoginPhase::Failed,
    decreases events.len(),
{
    if events.len() > 0 {
        lemma_failed_stays(events.drop_last());
    }
}

/// Once the provider turns the code down, as it does a code that was already
/// used, the sign-in has failed, and whatever arrives after that issues no
/// session.
pub proof fn lemma_rejected_code_never_signs_in(
    before: Seq<LoginEvent>,
    e: LoginEvent,
    after: Seq<LoginEvent>,
)
    requires
        run(LoginPhase::Start, before) == LoginPhase::CodeReceived,
        !token_accepted(e),
    ensures
        run(LoginPhase::Start, before.push(e) + after) == LoginPhase::Failed,
{
    assert(before.push(e).drop_last() =~= before);
    lemma_run_append(LoginPhase::Start, before.push(e), after);
    lemma_failed_stays(after);
}

} // verus!
