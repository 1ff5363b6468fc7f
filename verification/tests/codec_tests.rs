use rusty_socks::codec::{
    parse_auth_request, parse_auth_response, parse_client_request, parse_hello_request,
    parse_hello_response, parse_request_response,
};
use rusty_socks::error::Error;
use rusty_socks::messages::{
    Address, AuthResponse, AuthStatusCode, AuthenticationMethod, Command, HelloResponse,
    RequestResponse, ResponseCode,
};

#[test]
fn parse_hello_request_two_methods() {
    let (message, consumed) = parse_hello_request(&[5, 2, 0, 2]).unwrap();
    assert_eq!(message.version, 5);
    assert_eq!(
        message.methods,
        vec![
            AuthenticationMethod::NoAuthentication,
            AuthenticationMethod::UsernamePassword
        ]
    );
    assert_eq!(consumed, 4);
}

#[test]
fn parse_auth_request_foo_bar() {
    let (message, consumed) = parse_auth_request(&[1, 3, 102, 111, 111, 3, 98, 97, 114]).unwrap();
    assert_eq!(message.version, 1);
    assert_eq!(message.username, b"foo".to_vec());
    assert_eq!(message.password, b"bar".to_vec());
    assert_eq!(consumed, 9);
}

#[test]
fn parse_client_request_connect_ipv4() {
    let (message, consumed) = parse_client_request(&[5, 1, 0, 1, 1, 2, 3, 4, 31, 144]).unwrap();
    assert_eq!(message.version, 5);
    assert_eq!(message.command, Command::Connect);
    assert_eq!(message.address, Address::Ipv4(vec![1, 2, 3, 4]));
    assert_eq!(message.port, 8080);
    assert_eq!(consumed, 10);
}

#[test]
fn parse_client_request_connect_ipv6() {
    let (message, consumed) = parse_client_request(&[
        5, 1, 0, 4, 222, 173, 0, 0, 0, 0, 0, 0, 0, 0, 0, 0, 0, 0, 190, 239, 31, 144,
    ])
    .unwrap();
    assert_eq!(message.version, 5);
    assert_eq!(message.command, Command::Connect);
    assert_eq!(
        message.address,
        Address::Ipv6(vec![222, 173, 0, 0, 0, 0, 0, 0, 0, 0, 0, 0, 0, 0, 190, 239])
    );
    assert_eq!(message.port, 8080);
    assert_eq!(consumed, 22);
}

#[test]
fn parse_client_request_connect_domain() {
    let (message, consumed) =
        parse_client_request(&[5, 1, 0, 3, 7, 102, 111, 111, 46, 99, 111, 109, 31, 144]).unwrap();
    assert_eq!(message.version, 5);
    assert_eq!(message.command, Command::Connect);
    assert_eq!(message.address, Address::Domain(b"foo.com".to_vec()));
    assert_eq!(message.port, 8080);
    assert_eq!(consumed, 14);
}

#[test]
fn serialize_hello_reply() {
    let message = HelloResponse::new(1, AuthenticationMethod::NoAuthentication);
    assert_eq!(message.to_bytes(), vec![1, 0]);
}

#[test]
fn serialize_auth_response() {
    let message = AuthResponse::new(1, AuthStatusCode::Success);
    assert_eq!(message.to_bytes(), vec![1, 0]);
}

#[test]
fn serialize_request_response_ipv4() {
    let message = RequestResponse::new(
        1,
        ResponseCode::Success,
        Address::Ipv4(vec![1, 2, 3, 4]),
        8080,
    );
    assert_eq!(
        message.to_bytes().unwrap(),
        vec![1, 0, 0, 1, 1, 2, 3, 4, 31, 144]
    );
}

#[test]
fn serialize_request_response_ipv6() {
    let message = RequestResponse::new(
        1,
        ResponseCode::Success,
        Address::Ipv6(vec![222, 173, 0, 0, 0, 0, 0, 0, 0, 0, 0, 0, 0, 0, 190, 239]),
        8080,
    );
    assert_eq!(
        message.to_bytes().unwrap(),
        vec![1, 0, 0, 4, 222, 173, 0, 0, 0, 0, 0, 0, 0, 0, 0, 0, 0, 0, 190, 239, 31, 144]
    );
}

#[test]
fn serialize_request_response_domain_is_refused() {
    let message = RequestResponse::new(
        5,
        ResponseCode::Success,
        Address::Domain(b"foo.com".to_vec()),
        8080,
    );
    assert!(matches!(message.to_bytes(), Err(Error::Generic(_))));
}

#[test]
fn hello_request_with_zero_methods_is_malformed() {
    assert!(matches!(
        parse_hello_request(&[5, 0]),
        Err(Error::MalformedMessage(_))
    ));
}

#[test]
fn hello_request_unknown_methods_are_dropped() {
    let (message, consumed) = parse_hello_request(&[5, 1, 1]).unwrap();
    assert_eq!(message.version, 5);
    assert!(message.methods.is_empty());
    assert_eq!(consumed, 3);
}

#[test]
fn hello_request_short_input_asks_for_more() {
    assert!(matches!(parse_hello_request(&[5]), Err(Error::Io(_))));
    assert!(matches!(parse_hello_request(&[5, 2, 0]), Err(Error::Io(_))));
}

#[test]
fn client_request_unknown_command_is_malformed() {
    assert!(matches!(
        parse_client_request(&[5, 2, 0, 1, 1, 2, 3, 4, 31, 144]),
        Err(Error::MalformedMessage(_))
    ));
}

#[test]
fn client_request_unknown_address_type_is_malformed() {
    assert!(matches!(
        parse_client_request(&[5, 1, 0, 5, 1, 2, 3, 4, 31, 144]),
        Err(Error::MalformedMessage(_))
    ));
}

#[test]
fn client_request_non_utf8_domain_is_malformed() {
    assert!(matches!(
        parse_client_request(&[5, 1, 0, 3, 2, 0xC3, 0x28, 31, 144]),
        Err(Error::MalformedMessage(_))
    ));
}

#[test]
fn client_request_empty_domain_is_malformed() {
    assert!(matches!(
        parse_client_request(&[5, 1, 0, 3, 0, 31, 144]),
        Err(Error::MalformedMessage(_))
    ));
}

#[test]
fn client_request_short_input_asks_for_more() {
    assert!(matches!(
        parse_client_request(&[5, 1, 0, 1, 1, 2]),
        Err(Error::Io(_))
    ));
}

#[test]
fn auth_request_wrong_version_is_malformed() {
    assert!(matches!(
        parse_auth_request(&[2, 1, 117, 1, 112]),
        Err(Error::MalformedMessage(_))
    ));
}

#[test]
fn auth_request_empty_username_is_malformed() {
    assert!(matches!(
        parse_auth_request(&[1, 0, 1, 112]),
        Err(Error::MalformedMessage(_))
    ));
}

#[test]
fn auth_request_non_utf8_password_is_malformed() {
    assert!(matches!(
        parse_auth_request(&[1, 1, 117, 2, 0xFF, 0xFE]),
        Err(Error::MalformedMessage(_))
    ));
}

#[test]
fn hello_response_round_trips() {
    let original = HelloResponse::new(5, AuthenticationMethod::UsernamePassword);
    let bytes = original.to_bytes();
    let (parsed, consumed) = parse_hello_response(&bytes).unwrap();
    assert_eq!(parsed, original);
    assert_eq!(consumed, bytes.len());
}

#[test]
fn auth_response_round_trips() {
    let original = AuthResponse::new(1, AuthStatusCode::Failure);
    let bytes = original.to_bytes();
    let (parsed, consumed) = parse_auth_response(&bytes).unwrap();
    assert_eq!(parsed, original);
    assert_eq!(consumed, bytes.len());
}

#[test]
fn request_response_round_trips() {
    let original = RequestResponse::new(
        5,
        ResponseCode::GeneralFailure,
        Address::Ipv6(vec![0, 1, 2, 3, 4, 5, 6, 7, 8, 9, 10, 11, 12, 13, 14, 15]),
        443,
    );
    let bytes = original.to_bytes().unwrap();
    let (parsed, consumed) = parse_request_response(&bytes).unwrap();
    assert_eq!(parsed, original);
    assert_eq!(consumed, bytes.len());
}

#[test]
fn hello_request_bytes_round_trip() {
    let bytes = vec![5, 2, 0, 2];
    let (message, consumed) = parse_hello_request(&bytes).unwrap();
    assert_eq!(consumed, bytes.len());
    assert_eq!(message.to_bytes(), bytes);
}

#[test]
fn auth_request_bytes_round_trip() {
    let bytes = vec![1, 3, 102, 111, 111, 3, 98, 97, 114];
    let (message, consumed) = parse_auth_request(&bytes).unwrap();
    assert_eq!(consumed, bytes.len());
    assert_eq!(message.to_bytes(), bytes);
}

#[test]
fn client_request_bytes_round_trip() {
    let bytes = vec![5, 1, 0, 3, 7, 102, 111, 111, 46, 99, 111, 109, 31, 144];
    let (message, consumed) = parse_client_request(&bytes).unwrap();
    assert_eq!(consumed, bytes.len());
    assert_eq!(message.to_bytes(), bytes);
}

#[test]
fn parse_consumes_only_one_message() {
    let mut bytes = vec![5, 1, 0];
    bytes.extend_from_slice(&[5, 1, 0, 1, 1, 2, 3, 4, 31, 144]);
    let (message, consumed) = parse_hello_request(&bytes).unwrap();
    assert_eq!(message.version, 5);
    assert_eq!(consumed, 3);
    let (request, rest) = parse_client_request(&bytes[consumed..]).unwrap();
    assert_eq!(request.address, Address::Ipv4(vec![1, 2, 3, 4]));
    assert_eq!(rest, 10);
}
