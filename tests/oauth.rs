use gutp_gateway::oauth::{
    login_with_github_callback, registration_body, LoginAction, LoginEvent, LoginFailure,
    LoginFlow, LoginPhase, Profile,
};

fn profile(account: &str) -> Profile {
    Profile {
        account: account.to_string(),
        nickname: "Nick".to_string(),
        address: "a@b".to_string(),
    }
}

fn expect_error(a: LoginAction, location: &str) {
    match a {
        LoginAction::ShowError { location: l } => assert_eq!(l, location),
        _ => panic!("expected an error redirect"),
    }
}

fn to_profile_lookup(flow: &mut LoginFlow) {
    match flow.handle(LoginEvent::TokenExchanged {
        status: 200,
        access_token: Some("gho_1".to_string()),
    }) {
        LoginAction::FetchProfile { uri } => {
            assert_eq!(uri, "https://api.github.com/user?access_token=gho_1")
        }
        _ => panic!("expected a profile fetch"),
    }
    match flow.handle(LoginEvent::ProfileFetched {
        status: 200,
        profile: Some(profile("u1")),
    }) {
        LoginAction::LookUpAccount { account } => assert_eq!(account, "u1"),
        _ => panic!("expected an account lookup"),
    }
    assert_eq!(flow.phase, LoginPhase::ProfileResolved);
}

#[test]
fn new_account_is_created_then_signed_in() {
    let (mut flow, a) = login_with_github_callback(Some("abc".to_string()));
    match a {
        LoginAction::ExchangeCode { code } => assert_eq!(code, "abc"),
        _ => panic!("expected a code exchange"),
    }
    to_profile_lookup(&mut flow);
    match flow.handle(LoginEvent::AccountLookedUp { matches: Some(0) }) {
        LoginAction::CreateAccount { body } => {
            assert_eq!(body, "account=u1&nickname=Nick&address=a%40b")
        }
        _ => panic!("expected an account creation"),
    }
    assert_eq!(flow.phase, LoginPhase::Registering);
    match flow.handle(LoginEvent::AccountCreated { created: Some(1) }) {
        LoginAction::StoreSession { account } => assert_eq!(account, "u1"),
        _ => panic!("expected a session write"),
    }
    match flow.handle(LoginEvent::SessionStored {
        token: "t0k".to_string(),
        stored: true,
    }) {
        LoginAction::SignIn { cookie, location } => {
            assert_eq!(cookie.name, "meblog_sid");
            assert_eq!(cookie.value, "t0k");
            assert_eq!(cookie.path, "/");
            assert_eq!(cookie.max_age_secs, 5184000);
            assert!(cookie.http_only);
            assert_eq!(location, "/");
        }
        _ => panic!("expected a sign-in"),
    }
    assert_eq!(flow.phase, LoginPhase::SessionIssued);
    assert_eq!(flow.session_token, Some("t0k".to_string()));
    assert!(matches!(
        flow.handle(LoginEvent::Callback { code: Some("abc".to_string()) }),
        LoginAction::Nothing
    ));
    assert_eq!(flow.phase, LoginPhase::SessionIssued);
}

#[test]
fn existing_account_signs_in_directly() {
    let (mut flow, _) = login_with_github_callback(Some("abc".to_string()));
    to_profile_lookup(&mut flow);
    match flow.handle(LoginEvent::AccountLookedUp { matches: Some(2) }) {
        LoginAction::StoreSession { account } => assert_eq!(account, "u1"),
        _ => panic!("expected a session write"),
    }
    assert_eq!(flow.phase, LoginPhase::AccountResolved);
}

#[test]
fn replayed_code_is_rejected() {
    let (mut flow, _) = login_with_github_callback(Some("abc".to_string()));
    let a = flow.handle(LoginEvent::TokenExchanged {
        status: 200,
        access_token: None,
    });
    expect_error(
        a,
        "/error/info?action=Get+access+token+from+github&err_info=token+exchange+failed",
    );
    assert_eq!(flow.phase, LoginPhase::Failed);
    assert_eq!(flow.failure, Some(LoginFailure::TokenExchangeFailed));
    assert!(matches!(
        flow.handle(LoginEvent::SessionStored { token: "t".to_string(), stored: true }),
        LoginAction::Nothing
    ));
    assert_eq!(flow.phase, LoginPhase::Failed);
    assert_eq!(flow.session_token, None);
}

#[test]
fn token_endpoint_error_status_fails() {
    let (mut flow, _) = login_with_github_callback(Some("abc".to_string()));
    let a = flow.handle(LoginEvent::TokenExchanged {
        status: 401,
        access_token: Some("x".to_string()),
    });
    expect_error(
        a,
        "/error/info?action=Get+access+token+from+github&err_info=token+exchange+failed",
    );
}

#[test]
fn missing_or_empty_code_fails() {
    let (flow, a) = login_with_github_callback(None);
    expect_error(a, "/error/info?action=Sign+in+with+github&err_info=missing+code");
    assert_eq!(flow.failure, Some(LoginFailure::MissingCode));
    let (flow, _) = login_with_github_callback(Some(String::new()));
    assert_eq!(flow.phase, LoginPhase::Failed);
}

#[test]
fn profile_fetch_failure() {
    let (mut flow, _) = login_with_github_callback(Some("abc".to_string()));
    flow.handle(LoginEvent::TokenExchanged {
        status: 200,
        access_token: Some("gho".to_string()),
    });
    let a = flow.handle(LoginEvent::ProfileFetched {
        status: 500,
        profile: Some(profile("u1")),
    });
    expect_error(
        a,
        "/error/info?action=Get+user+info+from+github&err_info=profile+fetch+failed",
    );
    assert_eq!(flow.failure, Some(LoginFailure::ProfileFetchFailed));
}

#[test]
fn lookup_failure() {
    let (mut flow, _) = login_with_github_callback(Some("abc".to_string()));
    to_profile_lookup(&mut flow);
    let a = flow.handle(LoginEvent::AccountLookedUp { matches: None });
    expect_error(a, "/error/info?action=Look+up+user&err_info=account+lookup+failed");
}

#[test]
fn registration_failure() {
    let (mut flow, _) = login_with_github_callback(Some("abc".to_string()));
    to_profile_lookup(&mut flow);
    flow.handle(LoginEvent::AccountLookedUp { matches: Some(0) });
    let a = flow.handle(LoginEvent::AccountCreated { created: Some(0) });
    expect_error(a, "/error/info?action=Register+user&err_info=registration+failed");
    assert_eq!(flow.failure, Some(LoginFailure::RegistrationFailed));
}

#[test]
fn session_write_failure() {
    let (mut flow, _) = login_with_github_callback(Some("abc".to_string()));
    to_profile_lookup(&mut flow);
    flow.handle(LoginEvent::AccountLookedUp { matches: Some(1) });
    let a = flow.handle(LoginEvent::SessionStored {
        token: "t".to_string(),
        stored: false,
    });
    expect_error(a, "/error/info?action=Start+session&err_info=session+store+unavailable");
    assert_eq!(flow.session_token, None);
}

#[test]
fn out_of_order_event_fails() {
    let mut flow = LoginFlow::new();
    let a = flow.handle(LoginEvent::AccountCreated { created: Some(1) });
    expect_error(a, "/error/info?action=Sign+in+with+github&err_info=unexpected+step");
    assert_eq!(flow.failure, Some(LoginFailure::OutOfOrder));
}

#[test]
fn failure_descriptions() {
    assert_eq!(
        LoginFailure::RegistrationFailed.describe(),
        ("Register user", "registration failed")
    );
    assert_eq!(
        LoginFailure::MissingCode.location(),
        "/error/info?action=Sign+in+with+github&err_info=missing+code"
    );
    assert_eq!(
        registration_body(&profile("u 1")),
        "account=u+1&nickname=Nick&address=a%40b"
    );
}
