use jxl_core::error::{clear_last_error, get_last_error, set_last_error, LastError};

#[test]
fn the_last_error_is_kept_until_cleared() {
    let mut slot = LastError::new();
    assert_eq!(get_last_error(&slot, 16), (vec![0], 0));
    set_last_error(&mut slot, "Null decoder pointer");
    assert_eq!(slot.message, b"Null decoder pointer".to_vec());
    set_last_error(&mut slot, "Basic info not available");
    assert_eq!(slot.message, b"Basic info not available".to_vec());
    clear_last_error(&mut slot);
    assert!(slot.message.is_empty());
}

#[test]
fn a_small_buffer_gets_a_truncated_copy() {
    let mut slot = LastError::new();
    set_last_error(&mut slot, "error");
    assert_eq!(get_last_error(&slot, 0), (vec![], 5));
    assert_eq!(get_last_error(&slot, 1), (vec![0], 5));
    assert_eq!(get_last_error(&slot, 3), (b"er\0".to_vec(), 5));
    assert_eq!(get_last_error(&slot, 5), (b"erro\0".to_vec(), 5));
    assert_eq!(get_last_error(&slot, 6), (b"error\0".to_vec(), 5));
    assert_eq!(get_last_error(&slot, 100), (b"error\0".to_vec(), 5));
}
