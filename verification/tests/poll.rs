use ptr_tg_backend::get_updates::{Chat, Message, Response};
use ptr_tg_backend::get_updates::{From as MsgFrom, Result as UpdateRecord};
use ptr_tg_backend::poll::Poller;

fn stub_message(n: i64) -> Message {
    Message {
        message_id: n,
        from: MsgFrom {
            id: 1,
            is_bot: false,
            first_name: String::from("A"),
            last_name: String::from("B"),
            username: String::from("ab"),
        },
        chat: Chat {
            id: 2,
            type_: String::from("private"),
            title: None,
            all_members_are_administrators: None,
            first_name: Some(String::from("A")),
            last_name: Some(String::from("B")),
            username: Some(String::from("ab")),
        },
        date: 0,
        text: String::from("stub"),
    }
}

fn response_with_ids(ids: &[i64]) -> Response {
    let records: Vec<UpdateRecord> = ids
        .iter()
        .map(|&id| UpdateRecord { update_id: id, message: stub_message(id) })
        .collect();
    Response { ok: true, result: Some(records) }
}

#[test]
fn empty_batch_gives_no_cursor() {
    let resp = response_with_ids(&[]);
    assert_eq!(resp.get_next_update_id(), None);
}

#[test]
fn two_element_batch_gives_max_plus_one() {
    let resp = response_with_ids(&[100, 150]);
    assert_eq!(resp.get_next_update_id(), Some(151));
}

#[test]
fn max_not_in_last_position() {
    let resp = response_with_ids(&[3, 7, 2]);
    assert_eq!(resp.get_max_update_id(), Some(7));
    assert_eq!(resp.get_next_update_id(), Some(8));
}

#[test]
fn duplicate_maximum_ids() {
    let resp = response_with_ids(&[5, 5]);
    assert_eq!(resp.get_next_update_id(), Some(6));
}

#[test]
fn first_fetch_sets_cursor_and_next_request_carries_it() {
    let mut poller = Poller::new();
    assert_eq!(poller.request_offset(), None);
    let resp = response_with_ids(&[5, 6, 7]);
    assert!(resp.has_cursor_headroom());
    poller.on_success(&resp);
    assert_eq!(poller.cursor(), Some(8));
    assert_eq!(poller.request_offset(), Some(8));
}

#[test]
fn single_element_batch_advances_cursor() {
    let mut poller = Poller::new();
    let resp = response_with_ids(&[9]);
    assert!(resp.has_cursor_headroom());
    poller.on_success(&resp);
    assert_eq!(poller.cursor(), Some(10));
}

#[test]
fn empty_batch_leaves_stored_cursor_unchanged() {
    let mut poller = Poller::new();
    poller.on_success(&response_with_ids(&[5, 6, 7]));
    assert_eq!(poller.cursor(), Some(8));
    poller.on_success(&response_with_ids(&[]));
    assert_eq!(poller.cursor(), Some(8));
    let absent = Response { ok: true, result: None };
    poller.on_success(&absent);
    assert_eq!(poller.cursor(), Some(8));
}

#[test]
fn transport_failure_terminates_without_touching_cursor() {
    let mut poller = Poller::new();
    poller.on_success(&response_with_ids(&[5, 6, 7]));
    assert!(!poller.is_terminated());
    poller.on_failure();
    assert!(poller.is_terminated());
    assert_eq!(poller.cursor(), Some(8));
}

#[test]
fn cursor_never_regresses_across_cycles() {
    let mut poller = Poller::new();
    poller.on_success(&response_with_ids(&[5, 6, 7]));
    let before = poller.cursor().expect("cursor set");
    let next = response_with_ids(&[8, 9]);
    poller.on_success(&next);
    let after = poller.cursor().expect("cursor still set");
    assert!(after >= before);
    assert_eq!(after, 10);
}

#[test]
fn recomputed_cursor_requests_no_id_of_the_batch_again() {
    let ids = [100, 150, 120];
    let resp = response_with_ids(&ids);
    let next = resp.get_next_update_id().expect("non-empty batch");
    for id in ids {
        assert!(id < next);
    }
}

#[test]
fn headroom_check_rejects_maximal_id() {
    let resp = response_with_ids(&[i64::MAX]);
    assert!(!resp.has_cursor_headroom());
    let fine = response_with_ids(&[i64::MAX - 1]);
    assert!(fine.has_cursor_headroom());
    assert_eq!(fine.get_next_update_id(), Some(i64::MAX));
}

#[test]
fn negative_ids_are_handled() {
    let resp = response_with_ids(&[-5, -2, -9]);
    assert_eq!(resp.get_next_update_id(), Some(-1));
}
