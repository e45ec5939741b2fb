use krpc::connection::{finish_handshake, handshake_request, HandshakeError, HandshakeState};
use krpc::schema::{self, connection_request, connection_response};
use prost::Message;

#[test]
fn handshake_request_opens_an_rpc_connection() {
    let request = handshake_request(String::from("Test"), Vec::new());
    assert_eq!(request.type_, 0);
    assert_eq!(request.type_, connection_request::Type::Rpc.value());
    assert_eq!(request.client_name, "Test");
    assert!(request.client_identifier.is_empty());
}

#[test]
fn handshake_without_reply_fails() {
    assert!(matches!(finish_handshake(None), Err(HandshakeError::NoResponse)));
}

#[test]
fn handshake_with_reply_is_established() {
    let response = schema::ConnectionResponse {
        status: connection_response::Status::Okay.value(),
        message: String::from("welcome"),
        client_identifier: vec![1, 2, 3],
    };
    let got = finish_handshake(Some(Ok(response.clone()))).unwrap();
    assert_eq!(got, response);
    match HandshakeState::Handshaking.on_reply(Some(Ok(response.clone()))) {
        HandshakeState::Established(r) => assert_eq!(r, response),
        other => panic!("unexpected {:?}", other),
    }
    assert!(matches!(
        HandshakeState::Handshaking.on_reply(None),
        HandshakeState::Failed(HandshakeError::NoResponse)
    ));
}

#[test]
fn handshake_undecodable_reply_fails_with_decode() {
    let err = <u32 as Message>::decode(&[0x08][..]).unwrap_err();
    assert!(matches!(
        finish_handshake(Some(Err(err))),
        Err(HandshakeError::Decode(_))
    ));
}

#[test]
fn status_wire_numbers() {
    assert_eq!(connection_response::Status::from_i32(3), Some(connection_response::Status::WrongType));
    assert_eq!(connection_response::Status::from_i32(4), None);
    assert_eq!(connection_response::Status::Timeout.value(), 2);
    assert_eq!(schema::type_::TypeCode::Dictionary.value(), 303);
}
