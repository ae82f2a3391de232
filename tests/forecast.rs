use meshtastic_api::forecast::{
    day_segment_count, is_success_status, requested_count, TooManyRequested, MAX_REQUESTABLE,
};

#[test]
fn count_up_to_five_days_is_accepted() {
    assert_eq!(MAX_REQUESTABLE, 40);
    assert_eq!(requested_count(None), Ok(None));
    assert_eq!(requested_count(Some(0)), Ok(Some(0)));
    assert_eq!(requested_count(Some(40)), Ok(Some(40)));
}

#[test]
fn count_over_five_days_is_refused() {
    assert_eq!(requested_count(Some(41)), Err(TooManyRequested(41, 40)));
    assert_eq!(requested_count(Some(255)), Err(TooManyRequested(255, 40)));
}

#[test]
fn success_is_the_two_hundreds() {
    assert!(!is_success_status(199));
    assert!(is_success_status(200));
    assert!(is_success_status(299));
    assert!(!is_success_status(300));
    assert!(!is_success_status(404));
}

#[test]
fn day_is_eight_segments_or_the_first() {
    assert_eq!(day_segment_count(1), 1);
    assert_eq!(day_segment_count(7), 1);
    assert_eq!(day_segment_count(8), 8);
    assert_eq!(day_segment_count(40), 8);
}
