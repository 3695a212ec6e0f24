use omicron_stress::util::{
    draw_weighted, fail_if_500, fail_if_no_response, sleep_random_ms, to_decimal,
    unwrap_oxide_api_error, ApiError, NOT_FOUND, SERVER_ERROR_FIRST, SERVER_ERROR_LAST,
};

fn transport_failures() -> Vec<ApiError> {
    vec![
        ApiError::CommunicationError,
        ApiError::InvalidUpgrade,
        ApiError::ResponseBodyError,
        ApiError::InvalidResponsePayload,
        ApiError::UnexpectedResponse,
        ApiError::Custom,
    ]
}

#[test]
fn status_constants() {
    assert_eq!(NOT_FOUND, 404);
    assert_eq!(SERVER_ERROR_FIRST, 500);
    assert_eq!(SERVER_ERROR_LAST, 599);
}

#[test]
fn only_a_404_response_is_not_found() {
    assert!(ApiError::ErrorResponse(404).not_found());
    assert!(!ApiError::ErrorResponse(400).not_found());
    assert!(!ApiError::ErrorResponse(500).not_found());
    assert!(!ApiError::InvalidRequest.not_found());
    for e in transport_failures() {
        assert!(!e.not_found());
    }
}

#[test]
fn lenient_mode_tolerates_every_error_response() {
    for status in [400u16, 404, 409, 499, 500, 503, 599, 600] {
        assert_eq!(fail_if_no_response(ApiError::ErrorResponse(status)), Ok(()));
    }
}

#[test]
fn lenient_mode_fails_on_everything_without_a_response() {
    assert_eq!(fail_if_no_response(ApiError::InvalidRequest), Err(ApiError::InvalidRequest));
    for e in transport_failures() {
        assert_eq!(fail_if_no_response(e), Err(e));
    }
}

#[test]
fn strict_mode_fails_on_the_server_error_class() {
    for status in [500u16, 501, 503, 599] {
        let e = ApiError::ErrorResponse(status);
        assert_eq!(fail_if_500(e), Err(e));
    }
    for status in [200u16, 400, 404, 409, 499, 600, 1000] {
        assert_eq!(fail_if_500(ApiError::ErrorResponse(status)), Ok(()));
    }
}

#[test]
fn strict_mode_fails_on_transport_failures_and_lets_an_unsent_request_pass() {
    for e in transport_failures() {
        assert_eq!(fail_if_500(e), Err(e));
    }
    assert_eq!(fail_if_500(ApiError::InvalidRequest), Ok(()));
}

#[test]
fn unwrap_drops_the_value_and_keeps_the_failure() {
    assert_eq!(unwrap_oxide_api_error(Ok::<u32, ApiError>(7)), Ok(()));
    assert_eq!(unwrap_oxide_api_error(Ok::<String, ApiError>("x".to_string())), Ok(()));
    assert_eq!(
        unwrap_oxide_api_error(Err::<u32, ApiError>(ApiError::ErrorResponse(409))),
        Err(ApiError::ErrorResponse(409))
    );
}

#[test]
fn a_nap_is_never_longer_than_asked() {
    assert_eq!(sleep_random_ms(0), 0);
    let mut longest = 0;
    let mut shortest = u64::MAX;
    for _ in 0..2000 {
        let ms = sleep_random_ms(100);
        assert!(ms <= 100);
        longest = longest.max(ms);
        shortest = shortest.min(ms);
    }
    assert!(longest > 50, "2000 naps, none above 50 ms");
    assert!(shortest < 50, "2000 naps, none below 50 ms");
    assert!(sleep_random_ms(u64::MAX) <= u64::MAX);
}

#[test]
fn a_table_that_cannot_be_drawn_from_gives_none() {
    assert_eq!(draw_weighted(&vec![]), None);
    assert_eq!(draw_weighted(&vec![0]), None);
    assert_eq!(draw_weighted(&vec![0, 0, 0]), None);
    assert_eq!(draw_weighted(&vec![u32::MAX, 1]), None);
    assert_eq!(draw_weighted(&vec![u32::MAX, 0, 0, u32::MAX]), None);
}

#[test]
fn a_draw_is_an_index_of_a_weight_above_zero() {
    for _ in 0..200 {
        assert_eq!(draw_weighted(&vec![0, 5, 0]), Some(1));
        assert_eq!(draw_weighted(&vec![9]), Some(0));
        assert_eq!(draw_weighted(&vec![0, 0, 0, 1]), Some(3));
        assert_eq!(draw_weighted(&vec![u32::MAX, 0]), Some(0));
        let i = draw_weighted(&vec![1, 0, 1]).unwrap();
        assert!(i == 0 || i == 2);
    }
}

#[test]
fn draws_reach_every_weighted_index() {
    let mut seen = [false; 3];
    for _ in 0..500 {
        seen[draw_weighted(&vec![1, 1, 1]).unwrap()] = true;
    }
    assert_eq!(seen, [true, true, true]);
}

#[test]
fn numbers_are_written_in_decimal() {
    assert_eq!(to_decimal(0), "0");
    assert_eq!(to_decimal(7), "7");
    assert_eq!(to_decimal(9), "9");
    assert_eq!(to_decimal(10), "10");
    assert_eq!(to_decimal(101), "101");
    assert_eq!(to_decimal(1234567890), "1234567890");
    assert_eq!(to_decimal(u64::MAX), "18446744073709551615");
    for n in 0..2000u64 {
        assert_eq!(to_decimal(n), n.to_string());
    }
}
