use simplife::login_check::{start_login_check, LoginCheckEnd, LoginCheckStart};

#[test]
fn missing_header_is_not_logged_in() {
    match start_login_check(None) {
        LoginCheckStart::Reject(r) => {
            assert_eq!(r.status, 200);
            assert_eq!((r.body.code, r.body.message.as_deref()), (-401, Some("未登录")));
        },
        _ => panic!("no header"),
    }
}

#[test]
fn resolved_caller_proceeds() {
    match start_login_check(Some("ak".to_string())) {
        LoginCheckStart::ResolveUid(check, key) => {
            assert_eq!(key, "ak");
            assert!(matches!(check.on_uid::<()>(Ok(42)), LoginCheckEnd::Proceed(42)));
        },
        _ => panic!("header present"),
    }
    match start_login_check(Some("ak".to_string())) {
        LoginCheckStart::ResolveUid(check, _) => match check.on_uid::<&str>(Err("unknown key")) {
            LoginCheckEnd::Reject(r) => assert_eq!(r.body.code, -401),
            _ => panic!("rejected"),
        },
        _ => panic!(),
    }
}
