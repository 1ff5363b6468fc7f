use rusty_socks::context::{Context, Credentials};
use rusty_socks::messages::AuthenticationMethod;

#[test]
fn no_credentials_selects_no_authentication() {
    let context = Context::new();
    assert_eq!(
        context.select_authentication(vec![AuthenticationMethod::NoAuthentication]),
        Some(AuthenticationMethod::NoAuthentication)
    );
}

#[test]
fn no_credentials_refuses_userpass_only() {
    let context = Context::new();
    assert_eq!(
        context.select_authentication(vec![AuthenticationMethod::UsernamePassword]),
        None
    );
}

#[test]
fn credentials_select_userpass_among_offers() {
    let context = Context::with_credentials(Credentials::new(b"u".to_vec(), b"p".to_vec()));
    assert_eq!(
        context.select_authentication(vec![
            AuthenticationMethod::NoAuthentication,
            AuthenticationMethod::UsernamePassword
        ]),
        Some(AuthenticationMethod::UsernamePassword)
    );
}

#[test]
fn credentials_refuse_noauth_only() {
    let context = Context::with_credentials(Credentials::new(b"u".to_vec(), b"p".to_vec()));
    assert_eq!(
        context.select_authentication(vec![AuthenticationMethod::NoAuthentication]),
        None
    );
}

#[test]
fn select_ignores_order_and_duplicates() {
    let context = Context::new();
    assert_eq!(
        context.select_authentication(vec![
            AuthenticationMethod::UsernamePassword,
            AuthenticationMethod::UsernamePassword,
            AuthenticationMethod::NoAuthentication,
            AuthenticationMethod::NoAuthentication,
        ]),
        Some(AuthenticationMethod::NoAuthentication)
    );
}

#[test]
fn select_with_no_offers_refuses() {
    let context = Context::new();
    assert_eq!(context.select_authentication(vec![]), None);
}

#[test]
fn authenticate_exact_match_only() {
    let context = Context::with_credentials(Credentials::new(b"u".to_vec(), b"p".to_vec()));
    assert!(context.authenticate(b"u", b"p"));
    assert!(!context.authenticate(b"u", b"q"));
    assert!(!context.authenticate(b"v", b"p"));
    assert!(!context.authenticate(b"u", b""));
    assert!(!context.authenticate(b"uu", b"p"));
}

#[test]
fn authenticate_is_bytewise() {
    let context = Context::with_credentials(Credentials::new(b"user".to_vec(), b"pw".to_vec()));
    assert!(context.authenticate(b"user", b"pw"));
    assert!(!context.authenticate(b"User", b"pw"));
}

#[test]
fn authenticate_without_credentials_accepts() {
    let context = Context::new();
    assert!(context.authenticate(b"anything", b"at all"));
}

#[test]
fn default_context_has_no_credentials() {
    let context = Context::default();
    assert_eq!(
        context.select_authentication(vec![AuthenticationMethod::UsernamePassword]),
        None
    );
}
