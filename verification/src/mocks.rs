//! Ready-made `getUpdates` responses for exercising the cursor logic
//! without a remote server.

use vstd::prelude::*;
use vstd::string::StringExecFns;

use crate::get_updates::{Chat, Message, Response, From, Result};

verus! {

/// A response with no result list at all: the shape of "no new updates".
pub fn get_updates_response_variation1() -> (r: Response)
    ensures
        r.ok,
        r.result is None,
        r.ids() == Seq::<int>::empty(),
{
    Response { ok: true, result: None }
}

/// The sender both mocked messages come from.
fn mock_sender() -> (s: From)
    ensures
        s.id == 3001,
        !s.is_bot,
        s.first_name@ == "John"@,
        s.last_name@ == "Preston"@,
        s.username@ == "john_preston"@,
{
    From {
        id: 3001,
        is_bot: false,
        first_name: String::from_str("John"),
        last_name: String::from_str("Preston"),
        username: String::from_str("john_preston"),
    }
}

/// A response carrying two updates, with identifiers 100 and 150: one
/// group message and one private message from the same sender.
pub fn get_updates_response_variation2() -> (r: Response)
    ensures
        r.ok,
        r.ids() == seq![100int, 150int],
        r.result matches Some(records) && {
            &&& records@.len() == 2
            &&& records@[0].update_id == 100
            &&& records@[0].message.message_id == 301
            &&& records@[0].message.date == 1500
            &&& records@[0].message.text@ == "message one"@
            &&& records@[0].message.from.id == 3001
            &&& records@[0].message.chat.id == 3002
            &&& records@[0].message.chat.type_@ == "group"@
            &&& records@[1].update_id == 150
            &&& records@[1].message.message_id == 302
            &&& records@[1].message.date == 1515
            &&& records@[1].message.text@ == "Second Message"@
            &&& records@[1].message.from.id == 3001
            &&& records@[1].message.chat.id == 3003
            &&& records@[1].message.chat.type_@ == "private"@
        },
{
    let chat1 = Chat {
        id: 3002,
        type_: String::from_str("group"),
        title: Some(String::from_str("FloodChat123")),
        all_members_are_administrators: Some(true),
        first_name: None,
        last_name: None,
        username: None,
    };
    let chat2 = Chat {
        id: 3003,
        type_: String::from_str("private"),
        title: None,
        all_members_are_administrators: None,
        first_name: Some(String::from_str("John")),
        last_name: Some(String::from_str("Preston")),
        username: Some(String::from_str("john_preston")),
    };
    let mut result: Vec<Result> = Vec::new();
    result.push(
        Result {
            update_id: 100,
            message: Message {
                message_id: 301,
                from: mock_sender(),
                chat: chat1,
                date: 1500,
                text: String::from_str("message one"),
            },
        },
    );
    result.push(
        Result {
            update_id: 150,
            message: Message {
                message_id: 302,
                from: mock_sender(),
                chat: chat2,
                date: 1515,
                text: String::from_str("Second Message"),
            },
        },
    );
    let r = Response { ok: true, result: Some(result) };
    proof {
        assert(r.ids() =~= seq![100int, 150int]);
    }
    r
}

} // verus!
