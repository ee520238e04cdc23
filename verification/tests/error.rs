use media_thumb::error::ApiError;

#[test]
fn status_of_each_kind() {
    assert_eq!(ApiError::InvalidKey("k".to_string()).status_code(), 404);
    assert_eq!(ApiError::DecodeError("d".to_string()).status_code(), 500);
    assert_eq!(ApiError::EncodeError("e".to_string()).status_code(), 500);
    assert_eq!(ApiError::NoVideoStream.status_code(), 500);
    assert_eq!(ApiError::NoSuitableFrame.status_code(), 500);
}
