use coingecko::outcome::{classify_outcome, status_is_success, ApiError};

#[test]
fn server_error_is_transport_failure() {
    assert_eq!(
        classify_outcome(true, 500, true),
        Err(ApiError::TransportFailure)
    );
    assert_eq!(
        classify_outcome(true, 500, false),
        Err(ApiError::TransportFailure)
    );
}

#[test]
fn client_error_is_transport_failure() {
    assert_eq!(
        classify_outcome(true, 404, true),
        Err(ApiError::TransportFailure)
    );
    assert_eq!(
        classify_outcome(true, 429, false),
        Err(ApiError::TransportFailure)
    );
}

#[test]
fn missing_answer_is_transport_failure() {
    assert_eq!(
        classify_outcome(false, 0, false),
        Err(ApiError::TransportFailure)
    );
    assert_eq!(
        classify_outcome(false, 200, true),
        Err(ApiError::TransportFailure)
    );
}

#[test]
fn bad_body_is_decode_failure() {
    assert_eq!(
        classify_outcome(true, 200, false),
        Err(ApiError::DecodeFailure)
    );
}

#[test]
fn delivered_decoded_answer_succeeds() {
    assert_eq!(classify_outcome(true, 200, true), Ok(()));
    assert_eq!(classify_outcome(true, 204, true), Ok(()));
}

#[test]
fn success_status_boundaries() {
    assert!(!status_is_success(199));
    assert!(status_is_success(200));
    assert!(status_is_success(299));
    assert!(!status_is_success(300));
}
