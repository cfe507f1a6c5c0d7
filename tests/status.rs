use volo_grpc::metadata::{HeaderMap, HeaderName};
use volo_grpc::status::{decode_message, encode_message, Code, Status};

const ALL_CODES: [Code; 17] = [
    Code::Success,
    Code::Cancelled,
    Code::Unknown,
    Code::InvalidArgument,
    Code::DeadlineExceeded,
    Code::NotFound,
    Code::AlreadyExists,
    Code::PermissionDenied,
    Code::ResourceExhausted,
    Code::FailedPrecondition,
    Code::Aborted,
    Code::OutOfRange,
    Code::Unimplemented,
    Code::Internal,
    Code::Unavailable,
    Code::DataLoss,
    Code::Unauthenticated,
];

fn status(code: Code, message: &str, details: &[u8]) -> Status {
    Status { code, message: String::from(message), details: details.to_vec() }
}

fn round_trip(s: &Status) -> Status {
    Status::from_header_map(&s.to_header_map()).unwrap()
}

#[test]
fn status_round_trip_every_code() {
    for (i, code) in ALL_CODES.iter().enumerate() {
        assert_eq!(code.value() as usize, i);
        let s = status(*code, "déjà vu 100% ✓\n", &[0, 1, 0xfe, 0xff]);
        let r = round_trip(&s);
        assert_eq!(r.code, s.code);
        assert_eq!(r.message, s.message);
        assert_eq!(r.details, s.details);
    }
}

#[test]
fn status_round_trip_empty_message_and_details() {
    let s = status(Code::NotFound, "", &[]);
    let h = s.to_header_map();
    assert_eq!(h.entries.len(), 1);
    let r = round_trip(&s);
    assert_eq!(r.code, Code::NotFound);
    assert_eq!(r.message, "");
    assert!(r.details.is_empty());
}

#[test]
fn status_header_values_are_exact() {
    let s = status(Code::Unavailable, "a%b c", &[0xab, 0x01]);
    let h = s.to_header_map();
    assert_eq!(h.get(&HeaderName::GrpcStatus).unwrap(), &b"14".to_vec());
    assert_eq!(h.get(&HeaderName::GrpcMessage).unwrap(), &b"a%25b c".to_vec());
    assert_eq!(h.get(&HeaderName::GrpcStatusDetails).unwrap(), &b"ab01".to_vec());
}

#[test]
fn no_status_header_means_no_status() {
    let mut h = HeaderMap::new();
    h.append(HeaderName::GrpcMessage, b"x".to_vec());
    assert!(Status::from_header_map(&h).is_none());
}

#[test]
fn explicit_ok_status_is_some() {
    let mut h = HeaderMap::new();
    h.append(HeaderName::GrpcStatus, b"0".to_vec());
    let s = Status::from_header_map(&h).unwrap();
    assert_eq!(s.code, Code::Success);
}

#[test]
fn unknown_code_reads_unknown_and_malformed_invalid_argument() {
    assert_eq!(Code::from_header_value(b"99"), Code::Unknown);
    assert_eq!(Code::from_header_value(b"1x"), Code::InvalidArgument);
    assert_eq!(Code::from_header_value(b""), Code::InvalidArgument);
    assert_eq!(Code::from_header_value(b"0012"), Code::Unimplemented);
    assert_eq!(Code::from_header_value(b"4"), Code::DeadlineExceeded);
}

#[test]
fn malformed_message_or_details_is_invalid_argument() {
    let mut h = HeaderMap::new();
    h.append(HeaderName::GrpcStatus, b"5".to_vec());
    h.append(HeaderName::GrpcMessage, b"%FF".to_vec());
    let s = Status::from_header_map(&h).unwrap();
    assert_eq!(s.code, Code::InvalidArgument);
    assert_eq!(s.message, "");

    let mut h = HeaderMap::new();
    h.append(HeaderName::GrpcStatus, b"5".to_vec());
    h.append(HeaderName::GrpcStatusDetails, b"abc".to_vec());
    let s = Status::from_header_map(&h).unwrap();
    assert_eq!(s.code, Code::InvalidArgument);
}

#[test]
fn percent_encoding_exact() {
    assert_eq!(encode_message("é%\u{7f} ~".as_bytes()), b"%C3%A9%25%7F ~".to_vec());
    assert_eq!(decode_message(b"%c3%A9%2"), vec![0xc3, 0xa9, b'%', b'2']);
    assert_eq!(decode_message(b"%zz"), b"%zz".to_vec());
}

#[test]
fn first_header_of_a_name_wins() {
    let mut h = HeaderMap::new();
    h.append(HeaderName::Custom(String::from("k")), b"1".to_vec());
    h.append(HeaderName::Custom(String::from("k")), b"2".to_vec());
    assert_eq!(h.get(&HeaderName::Custom(String::from("k"))).unwrap(), &b"1".to_vec());
    assert!(h.get(&HeaderName::Custom(String::from("j"))).is_none());
}

#[test]
fn header_names_on_the_wire() {
    assert_eq!(HeaderName::GrpcStatusDetails.as_str(), "grpc-status-details-bin");
    assert!(matches!(HeaderName::from_wire("grpc-encoding"), HeaderName::GrpcEncoding));
    assert!(matches!(HeaderName::from_wire("te"), HeaderName::Te));
    match HeaderName::from_wire("x-trace") {
        HeaderName::Custom(s) => assert_eq!(s, "x-trace"),
        _ => panic!("expected a custom name"),
    }
}
