use webview_official::com::{ErrorCode, E_FAIL, S_OK};
use webview_official::binding::{received_message_text, settle_method};
use webview_official::handle::{CloseError, EventRegistrationToken, Handle};
use webview_official::window_table::WindowTable;

#[test]
fn closing_a_handle_twice_fails_the_second_time() {
    let mut controller = Handle::new(String::from("controller"));
    assert!(controller.open());
    assert_eq!(controller.get().map(|s| s.as_str()), Some("controller"));
    assert_eq!(controller.close(), Ok(String::from("controller")));
    assert!(!controller.open());
    assert_eq!(controller.close(), Err(CloseError::AlreadyClosed));
    assert!(controller.get().is_none());
}

#[test]
fn a_token_gives_up_its_value_once() {
    let token = EventRegistrationToken::new(-17);
    assert_eq!(token.into_raw(), -17);
}

#[test]
fn window_table_records_and_forgets_windows() {
    let mut table = WindowTable::new();
    assert_eq!(table.attach(0x1234, "first"), None);
    assert_eq!(table.attach(0x1234, "second"), Some("first"));
    assert_eq!(table.attach(-8, "other"), None);
    assert_eq!(table.lookup(0x1234), Some(&"second"));
    assert_eq!(table.detach(0x1234), Some("second"));
    assert_eq!(table.lookup(0x1234), None);
    assert_eq!(table.detach(0x1234), None);
    assert_eq!(table.lookup(-8), Some(&"other"));
}

#[test]
fn received_message_text_needs_a_success_status() {
    let units: Vec<u16> = "{\"id\":1}\0".encode_utf16().collect();
    assert_eq!(received_message_text(ErrorCode::new(S_OK), Some(units.clone())), Some(String::from("{\"id\":1}")));
    assert_eq!(received_message_text(ErrorCode::new(E_FAIL), Some(units)), None);
    assert_eq!(received_message_text(ErrorCode::new(S_OK), None), Some(String::new()));
}

#[test]
fn settle_method_resolves_only_on_zero() {
    assert_eq!(settle_method(0), "resolve");
    assert_eq!(settle_method(1), "reject");
    assert_eq!(settle_method(-1), "reject");
}
