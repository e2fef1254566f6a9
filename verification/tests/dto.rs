use ptr_tg_backend::mocks::{get_updates_response_variation1, get_updates_response_variation2};

/// Tests the `Response::get_next_update_id` function. Case 1.
#[test]
fn get_next_update_id_case1() {
    let data = get_updates_response_variation1();
    assert_eq!(data.get_next_update_id(), None);
}

/// Tests the `Response::get_next_update_id` function. Case 2.
#[test]
fn get_next_update_id_case2() {
    let data = get_updates_response_variation2();
    assert_eq!(data.get_next_update_id(), Some(151));
}

#[test]
fn variation1_shape() {
    let data = get_updates_response_variation1();
    assert!(data.ok);
    assert!(data.result.is_none());
    assert_eq!(data.get_max_update_id(), None);
}

#[test]
fn variation2_shape() {
    let data = get_updates_response_variation2();
    assert!(data.ok);
    let records = data.result.as_ref().expect("batch present");
    assert_eq!(records.len(), 2);
    assert_eq!(records[0].update_id, 100);
    assert_eq!(records[0].message.message_id, 301);
    assert_eq!(records[0].message.text, "message one");
    assert_eq!(records[0].message.from.first_name, "John");
    assert_eq!(records[0].message.chat.type_, "group");
    assert_eq!(records[1].update_id, 150);
    assert_eq!(records[1].message.message_id, 302);
    assert_eq!(records[1].message.text, "Second Message");
    assert_eq!(records[1].message.chat.type_, "private");
    assert_eq!(data.get_max_update_id(), Some(150));
}
