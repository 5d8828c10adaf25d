use arti_core::{
    arti_status_to_str, code_value, kind_to_code, BuilderError, ConnectError, ErrorKind,
    ErrorResponse, FfiError, FfiStatus, IntoFfiError, NullPointer, ProtoError, RpcCode, RpcError,
};

#[test]
fn status_codes_and_messages() {
    assert_eq!(arti_core::FfiError::from_error(NullPointer).status(), 1);
    assert_eq!(arti_status_to_str(0), "Success");
    assert_eq!(arti_status_to_str(1), "Invalid input");
    assert_eq!(arti_status_to_str(4), "Authenticationrejected");
    assert_eq!(arti_status_to_str(9), "Request was cancelled");
    assert_eq!(arti_status_to_str(77), "(unrecognized status)");
}

#[test]
fn connect_error_statuses() {
    assert_eq!(ConnectError::SchemeNotSupported.status(), FfiStatus::NotSupported);
    assert_eq!(
        ConnectError::CannotConnect("io".to_string()).status(),
        FfiStatus::ConnectIo
    );
    assert_eq!(
        ConnectError::AuthenticationRejected(ErrorResponse::new("no".to_string())).status(),
        FfiStatus::BadAuth
    );
    assert_eq!(
        ConnectError::BadMessage("m".to_string()).status(),
        FfiStatus::PeerProtocolViolation
    );
    assert_eq!(
        ConnectError::ProtoError(ProtoError::RequestCancelled).status(),
        FfiStatus::RequestCancelled
    );
    assert_eq!(ProtoError::DuplicateWait.status(), FfiStatus::Internal);
    assert_eq!(BuilderError::InvalidConnectString.status(), FfiStatus::InvalidInput);
}

#[test]
fn ffi_error_carries_response() {
    let resp = ErrorResponse::new("{\"error\": 1}".to_string());
    let err = FfiError::from_error(ConnectError::AuthenticationRejected(resp));
    assert_eq!(err.status(), 4);
    assert_eq!(err.error_response().unwrap().as_str(), "{\"error\": 1}");

    let err = FfiError::from_error(ConnectError::SchemeNotSupported);
    assert_eq!(err.status(), 2);
    assert!(err.error_response().is_none());

    let err = FfiError::from_error(ErrorResponse::new("{}".to_string()));
    assert_eq!(err.status(), 8);
    assert_eq!(err.message(), "Request has failed");
}

#[test]
fn rpc_error_codes() {
    assert_eq!(code_value(kind_to_code(ErrorKind::Other)), 2);
    assert_eq!(code_value(kind_to_code(ErrorKind::RpcObjectNotFound)), 1);
    assert_eq!(code_value(kind_to_code(ErrorKind::FeatureDisabled)), 2);
    assert_eq!(code_value(kind_to_code(ErrorKind::Internal)), -32603);
    assert_eq!(code_value(kind_to_code(ErrorKind::BadApiUsage)), -32603);
    assert_eq!(code_value(kind_to_code(ErrorKind::RpcInvalidRequest)), -32600);
    assert_eq!(code_value(kind_to_code(ErrorKind::RpcMethodNotFound)), -32601);
    assert_eq!(
        code_value(kind_to_code(ErrorKind::RpcInvalidMethodParameters)),
        -32602
    );
    assert_eq!(kind_to_code(ErrorKind::RpcNoMethodImpl), RpcCode::NoMethodImpl);
    assert_eq!(code_value(RpcCode::NoMethodImpl), 3);
}

#[test]
fn rpc_error_is_internal() {
    let e = RpcError::from_parts("boom".to_string(), ErrorKind::Internal);
    assert!(e.is_internal());
    assert_eq!(e.code(), -32603);
    assert_eq!(e.message(), "boom");
    assert_eq!(e.kind(), ErrorKind::Internal);

    let e = RpcError::from_parts("other".to_string(), ErrorKind::Other);
    assert!(!e.is_internal());
    assert_eq!(e.code(), 2);
}
