use milvus::common::{
    error_code_from_i32, error_code_to_i32, msg_type_to_i32, ErrorCode, MsgType, Status,
};
use milvus::error::Error;
use milvus::utils::{new_msg, status_to_result};

#[test]
fn success_code_maps_to_ok() {
    let status = Status { error_code: 0, reason: String::new() };
    assert_eq!(status_to_result(Some(status)), Ok(()));
}

#[test]
fn success_code_ignores_reason() {
    let status = Status { error_code: 0, reason: "noise".to_string() };
    assert_eq!(status_to_result(Some(status)), Ok(()));
}

#[test]
fn recognized_failure_carries_code_and_reason() {
    let status = Status { error_code: 4, reason: "no such collection".to_string() };
    assert_eq!(
        status_to_result(Some(status)),
        Err(Error::Server(
            ErrorCode::CollectionNotExists,
            "no such collection".to_string()
        ))
    );
}

#[test]
fn missing_status_maps_to_unknown() {
    assert_eq!(status_to_result(None), Err(Error::Unknown));
}

#[test]
fn unrecognized_code_maps_to_unknown() {
    let status = Status { error_code: 999, reason: "?".to_string() };
    assert_eq!(status_to_result(Some(status)), Err(Error::Unknown));
    let gap = Status { error_code: 6, reason: String::new() };
    assert_eq!(status_to_result(Some(gap)), Err(Error::Unknown));
}

#[test]
fn negative_code_maps_to_unknown() {
    let status = Status { error_code: -1, reason: String::new() };
    assert_eq!(status_to_result(Some(status)), Err(Error::Unknown));
}

#[test]
fn error_code_values_round_trip() {
    for code in [
        ErrorCode::Success,
        ErrorCode::UnexpectedError,
        ErrorCode::CollectionNotExists,
        ErrorCode::IllegalArgument,
        ErrorCode::IllegalDimension,
        ErrorCode::EmptyCollection,
    ] {
        assert_eq!(error_code_from_i32(error_code_to_i32(code)), Some(code));
    }
    assert_eq!(error_code_to_i32(ErrorCode::IllegalDimension), 7);
    assert_eq!(error_code_from_i32(26), Some(ErrorCode::EmptyCollection));
}

#[test]
fn new_msg_zeroes_everything_but_the_type() {
    let base = new_msg(MsgType::CreateCollection);
    assert_eq!(base.msg_type, 100);
    assert_eq!(base.msg_id, 0);
    assert_eq!(base.timestamp, 0);
    assert_eq!(base.source_id, 0);
    assert_eq!(msg_type_to_i32(MsgType::Flush), 402);
    assert_eq!(msg_type_to_i32(MsgType::DropCollection), 101);
}
