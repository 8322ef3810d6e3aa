use my_retreat_nest::auth::{
    bearer_token, check_login_role, invalid_login_type, invalid_token, token_user_not_found, invalid_password, may_edit_profile, split_auth_header, AuthAdmin,
    AuthRetreatUser, AuthUser, LoginType, TokenClaim, login_needs_role_record, login_outcome,
    LoginOutcome,
};
use my_retreat_nest::models::User;

fn user() -> User {
    User {
        user_id: 5,
        name: "Ravi".to_string(),
        email: "ravi@example.com".to_string(),
        password: "hash".to_string(),
        phone: None,
    }
}

#[test]
fn header_splits_into_scheme_and_token() {
    assert_eq!(split_auth_header("Bearer abc.def"), ("Bearer".to_string(), "abc.def".to_string()));
    assert_eq!(split_auth_header("Bearer a b"), ("Bearer".to_string(), "a".to_string()));
    assert_eq!(split_auth_header("Bearer  x"), ("Bearer".to_string(), "".to_string()));
    assert_eq!(split_auth_header(" tok"), ("".to_string(), "tok".to_string()));
}

#[test]
fn header_round_trip() {
    for (scheme, token) in [("Bearer", "t0k3n"), ("Token", ""), ("", "x")] {
        let header = format!("{} {}", scheme, token);
        assert_eq!(split_auth_header(&header), (scheme.to_string(), token.to_string()));
    }
}

#[test]
fn login_types() {
    assert!(matches!(LoginType::parse("normal"), Some(LoginType::Normal)));
    assert!(matches!(LoginType::parse("admin"), Some(LoginType::Admin)));
    assert!(matches!(LoginType::parse("retreat"), Some(LoginType::Retreat)));
    assert!(LoginType::parse("Admin").is_none());
    assert!(LoginType::parse("").is_none());
    let e = invalid_password();
    assert_eq!((e.status, e.message.as_str()), (400, "Invalid Password!"));
    let e = invalid_login_type();
    assert_eq!((e.status, e.message.as_str()), (400, "Invalid login type."));
}

#[test]
fn login_role_check() {
    assert!(check_login_role(&LoginType::Normal, false).is_ok());
    assert!(check_login_role(&LoginType::Admin, true).is_ok());
    let e = check_login_role(&LoginType::Admin, false).err().unwrap();
    assert_eq!((e.status, e.message.as_str()), (403, "Not an admin user."));
    let e = check_login_role(&LoginType::Retreat, false).err().unwrap();
    assert_eq!((e.status, e.message.as_str()), (403, "Not a retreat user."));
}

#[test]
fn extractors_check_login_type_then_record() {
    assert_eq!(AuthUser::accept(user(), "normal").ok().unwrap().0.user_id, 5);
    let e = AuthUser::accept(user(), "admin").err().unwrap();
    assert_eq!((e.status, e.message.as_str()), (403, "User access required"));

    assert!(AuthAdmin::check_claim("normal").is_ok());
    assert_eq!(AuthAdmin::accept(user(), "normal").ok().unwrap().0.email, "ravi@example.com");
    let e = AuthAdmin::accept(user(), "admin").err().unwrap();
    assert_eq!((e.status, e.message.as_str()), (403, "User access required"));
    for t in ["normal", "admin", "retreat", ""] {
        assert_eq!(AuthAdmin::accept(user(), t).is_ok(), AuthUser::accept(user(), t).is_ok());
    }

    assert!(AuthRetreatUser::accept(user(), "retreat", true).is_ok());
    let e = AuthRetreatUser::accept(user(), "normal", true).err().unwrap();
    assert_eq!(e.message, "Retreat user access required");
    let e = AuthRetreatUser::accept(user(), "retreat", false).err().unwrap();
    assert_eq!(e.message, "Retreat user access revoked");
    let e = AuthRetreatUser::check_claim("admin").err().unwrap();
    assert_eq!(e.status, 403);
}

#[test]
fn profile_edit_permission() {
    assert!(may_edit_profile(true, 1, 2).is_ok());
    assert!(may_edit_profile(false, 2, 2).is_ok());
    let e = may_edit_profile(false, 1, 2).err().unwrap();
    assert_eq!((e.status, e.message.as_str()), (403, "You can only update your own profile."));
}

#[test]
fn token_claim_for_login() {
    let c = TokenClaim::for_login(&user(), "admin".to_string());
    assert_eq!((c.user_id, c.name.as_str(), c.email.as_str(), c.login_type.as_str()),
        (5, "Ravi", "ravi@example.com", "admin"));
}

fn refused(o: LoginOutcome) -> (u16, String) {
    match o {
        LoginOutcome::Refused(e) => (e.status, e.message),
        LoginOutcome::Granted(_) => panic!("login was granted"),
    }
}

#[test]
fn login_checks_in_order() {
    assert_eq!(refused(login_outcome(false, false, "bogus", false)), (404, "User not found.".to_string()));
    assert_eq!(refused(login_outcome(true, false, "bogus", false)), (400, "Invalid Password!".to_string()));
    assert_eq!(refused(login_outcome(true, true, "bogus", false)), (400, "Invalid login type.".to_string()));
    assert_eq!(refused(login_outcome(true, true, "admin", false)), (403, "Not an admin user.".to_string()));
    assert_eq!(refused(login_outcome(true, true, "retreat", false)), (403, "Not a retreat user.".to_string()));
    assert!(matches!(login_outcome(true, true, "normal", false), LoginOutcome::Granted(LoginType::Normal)));
    assert!(matches!(login_outcome(true, true, "admin", true), LoginOutcome::Granted(LoginType::Admin)));
    assert!(matches!(login_outcome(true, true, "retreat", true), LoginOutcome::Granted(LoginType::Retreat)));
    assert!(login_needs_role_record("admin") && login_needs_role_record("retreat"));
    assert!(!login_needs_role_record("normal") && !login_needs_role_record("Admin"));
}

#[test]
fn extractor_answers() {
    assert_eq!(bearer_token(Some("Bearer abc.def")).ok().unwrap(), "abc.def");
    let e = bearer_token(None).err().unwrap();
    assert_eq!((e.status, e.message.as_str()), (500, "Invalid Header"));
    let e = invalid_token();
    assert_eq!((e.status, e.message.as_str()), (400, "Invalid Token"));
    let e = token_user_not_found();
    assert_eq!((e.status, e.message.as_str()), (404, "User not found"));
}
