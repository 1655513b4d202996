use gl_triangle::shader::{log_buffer, stage_failed, terminated_len, STATUS_OK};

#[test]
fn success_status_is_not_a_failure() {
    assert!(!stage_failed(STATUS_OK));
}

#[test]
fn zero_status_is_a_failure() {
    assert!(stage_failed(0));
}

#[test]
fn negative_status_is_a_failure() {
    assert!(stage_failed(-1));
}

#[test]
fn log_buffer_is_zeroed_at_the_reported_length() {
    let buf = log_buffer(6);
    assert_eq!(buf.len(), 6);
    assert!(buf.iter().all(|&b| b == 0));
}

#[test]
fn log_buffer_of_length_zero_is_empty() {
    assert!(log_buffer(0).is_empty());
}

#[test]
fn terminated_len_finds_first_nul() {
    let buf: Vec<i8> = vec![104, 105, 0, 33, 0];
    assert_eq!(terminated_len(&buf), Some(2));
}

#[test]
fn terminated_len_of_leading_nul_is_zero() {
    let buf: Vec<i8> = vec![0, 104, 105];
    assert_eq!(terminated_len(&buf), Some(0));
}

#[test]
fn unterminated_buffer_has_no_length() {
    let buf: Vec<i8> = vec![104, 105, 33];
    assert_eq!(terminated_len(&buf), None);
}

#[test]
fn empty_buffer_has_no_length() {
    let buf: Vec<i8> = Vec::new();
    assert_eq!(terminated_len(&buf), None);
}
