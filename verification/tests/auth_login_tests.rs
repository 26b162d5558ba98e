use token_service::{
    authenticate, login, AuthOutcome, DbApiError, DbErrorKind, LoginInfo, LoginOutcome,
    TokenService, User,
};

fn service() -> TokenService {
    TokenService::new(b"some-secret".to_vec())
}

fn alice(active: bool) -> User {
    User {
        user_name: "alice".to_string(),
        password_secret: "pw".to_string(),
        active,
    }
}

#[test]
fn guard_without_cookie_is_anonymous() {
    let svc = service();
    assert!(matches!(authenticate(&svc, None), AuthOutcome::Anonymous));
}

#[test]
fn guard_with_valid_cookie_authenticates() {
    let svc = service();
    let token = svc.issue("alice");
    match authenticate(&svc, Some(token.as_str())) {
        AuthOutcome::Authenticated(api_token) => assert_eq!(api_token.0, "alice"),
        AuthOutcome::Anonymous => panic!("valid cookie was treated as anonymous"),
    }
}

#[test]
fn guard_with_bad_cookie_is_anonymous() {
    let svc = service();
    assert!(matches!(
        authenticate(&svc, Some("not-a-token")),
        AuthOutcome::Anonymous
    ));
}

#[test]
fn login_with_correct_credentials_authenticates_and_sets_cookie() {
    let svc = service();
    let info = LoginInfo::new("alice".to_string(), "pw".to_string());
    match login(&svc, &info, Ok(vec![alice(true)])) {
        LoginOutcome::Authenticated { subject, cookie } => {
            assert_eq!(subject, "alice");
            assert_eq!(cookie.name, "token");
            assert_eq!(cookie.path, "/");
            assert_eq!(cookie.domain, "127.0.0.1");
            assert!(cookie.http_only);
            assert!(cookie.same_site_strict);
            assert_eq!(cookie.max_age_minutes, 1440);
            assert_eq!(svc.verify(cookie.value.as_str()), Ok("alice".to_string()));
        }
        _ => panic!("correct credentials were rejected"),
    }
}

#[test]
fn login_with_wrong_password_is_rejected() {
    let svc = service();
    let info = LoginInfo::new("alice".to_string(), "wrong".to_string());
    assert!(matches!(
        login(&svc, &info, Ok(vec![alice(true)])),
        LoginOutcome::Rejected
    ));
}

#[test]
fn login_with_unknown_user_is_rejected() {
    let svc = service();
    let info = LoginInfo::new("bob".to_string(), "anything".to_string());
    assert!(matches!(
        login(&svc, &info, Ok(vec![])),
        LoginOutcome::Rejected
    ));
}

#[test]
fn login_with_inactive_account_is_rejected() {
    let svc = service();
    let info = LoginInfo::new("alice".to_string(), "pw".to_string());
    assert!(matches!(
        login(&svc, &info, Ok(vec![alice(false)])),
        LoginOutcome::Rejected
    ));
}

#[test]
fn login_when_backend_fails_reports_it_distinctly() {
    let svc = service();
    let info = LoginInfo::new("alice".to_string(), "pw".to_string());
    let err = DbApiError::new(DbErrorKind::ConnectRefused, "connection refused".to_string());
    match login(&svc, &info, Err(err)) {
        LoginOutcome::BackendUnavailable(e) => {
            assert_eq!(e.kind, DbErrorKind::ConnectRefused);
            assert_eq!(e.message, "connection refused");
        }
        // Any other outcome either leaks or issues a cookie; both are wrong.
        _ => panic!("backend failure was not surfaced distinctly"),
    }
}

#[test]
fn login_scans_past_non_matching_records() {
    let svc = service();
    let info = LoginInfo::new("alice".to_string(), "pw".to_string());
    let bob = User {
        user_name: "bob".to_string(),
        password_secret: "other".to_string(),
        active: true,
    };
    match login(&svc, &info, Ok(vec![bob, alice(true)])) {
        LoginOutcome::Authenticated { subject, .. } => assert_eq!(subject, "alice"),
        _ => panic!("matching record behind a non-matching one was missed"),
    }
}

#[test]
fn login_with_empty_name_is_rejected_outright() {
    // An empty name names no identity a credential could be bound to, even
    // when a record with an empty name exists.
    let svc = service();
    let info = LoginInfo::new(String::new(), "pw".to_string());
    let odd = User {
        user_name: String::new(),
        password_secret: "pw".to_string(),
        active: true,
    };
    assert!(matches!(
        login(&svc, &info, Ok(vec![odd])),
        LoginOutcome::Rejected
    ));
}

#[test]
fn login_info_equal_checks_name_and_password() {
    let info = LoginInfo::new("alice".to_string(), "pw".to_string());
    assert!(info.equal(&alice(true)));
    assert!(info.equal(&alice(false)));
    let wrong_pw = User {
        user_name: "alice".to_string(),
        password_secret: "pw2".to_string(),
        active: true,
    };
    assert!(!info.equal(&wrong_pw));
    let wrong_name = User {
        user_name: "alicia".to_string(),
        password_secret: "pw".to_string(),
        active: true,
    };
    assert!(!info.equal(&wrong_name));
}
