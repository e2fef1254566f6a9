//! Data carried by one response of the remote `getUpdates` call, and the
//! cursor computation over it.
//!
//! `Response` holds the batch of update records one fetch returned. The two
//! methods on it find the greatest update identifier of the batch and, from
//! it, the cursor for the next fetch: one past that maximum, or nothing when
//! the batch is empty.

use vstd::prelude::*;

use crate::cursor::{lemma_seq_max_is_bound, lemma_seq_max_push, next_cursor, seq_max};

verus! {

/// Root document of one `getUpdates` response.
pub struct Response {
    /// Success flag reported by the remote server.
    pub ok: bool,
    /// The batch of received updates; the remote server may omit it.
    pub result: Option<Vec<Result>>,
}

/// One received update: a server-assigned identifier and its message.
pub struct Result {
    /// Monotonically-issued identifier assigned by the remote server.
    pub update_id: i64,
    /// The inbound message this update carries.
    pub message: Message,
}

/// Message payload of one update.
pub struct Message {
    pub message_id: i64,
    pub from: From,
    pub chat: Chat,
    pub date: i64,
    pub text: String,
}

/// The account a message came from.
pub struct From {
    pub id: i64,
    pub is_bot: bool,
    pub first_name: String,
    pub last_name: String,
    pub username: String,
}

/// The conversation a message belongs to.
pub struct Chat {
    pub id: i64,
    /// Examples: "private", "group".
    pub type_: String,
    /// Applies for the "group" type.
    pub title: Option<String>,
    /// Applies for the "group" type.
    pub all_members_are_administrators: Option<bool>,
    /// Applies for the "private" type.
    pub first_name: Option<String>,
    /// Applies for the "private" type.
    pub last_name: Option<String>,
    /// Applies for the "private" type.
    pub username: Option<String>,
}

impl Response {
    /// The update identifiers of this response's batch, in arrival order.
    /// An absent batch is the same as an empty one.
    pub open spec fn ids(&self) -> Seq<int> {
        match self.result {
            None => Seq::<int>::empty(),
            Some(records) => records@.map_values(|r: Result| r.update_id as int),
        }
    }

    /// Whether advancing the cursor past this batch stays within the
    /// identifier type: the greatest identifier, if any, has room for `+ 1`.
    pub open spec fn cursor_in_range(&self) -> bool {
        self.ids().len() > 0 ==> seq_max(self.ids()) < i64::MAX
    }

    /// Finds the maximal update identifier in this response's batch.
    pub fn get_max_update_id(&self) -> (r: Option<i64>)
        ensures
            match r {
                None => self.ids().len() == 0,
                Some(m) => self.ids().len() > 0 && m == seq_max(self.ids()),
            },
    {
        match &self.result {
            None => None,
            Some(records) => {
                if records.len() == 0 {
                    None
                } else {
                    let ghost ids = self.ids();
                    let mut max: i64 = records[0].update_id;
                    let mut i: usize = 1;
                    proof {
                        assert(ids.take(1) =~= seq![ids[0]]);
                    }
                    while i < records.len()
                        invariant
                            1 <= i <= records.len(),
                            ids == records@.map_values(|r: Result| r.update_id as int),
                            max == seq_max(ids.take(i as int)),
                        decreases records.len() - i,
                    {
                        proof {
                            assert(ids.take(i + 1) =~= ids.take(i as int).push(ids[i as int]));
                            lemma_seq_max_push(ids.take(i as int), ids[i as int]);
                        }
                        if records[i].update_id > max {
                            max = records[i].update_id;
                        }
                        i += 1;
                    }
                    proof {
                        assert(ids.take(records@.len() as int) =~= ids);
                    }
                    Some(max)
                }
            },
        }
    }

    /// Finds the update identifier to request on the next fetch: one past
    /// the greatest identifier of this batch, or nothing when the batch is
    /// empty, in which case the caller's stored cursor should stay as it is.
    pub fn get_next_update_id(&self) -> (r: Option<i64>)
        requires
            self.cursor_in_range(),
        ensures
            match r {
                None => next_cursor(self.ids()) is None,
                Some(c) => next_cursor(self.ids()) == Some(c as int),
            },
            (r is None) <==> self.ids().len() == 0,
    {
        match self.get_max_update_id() {
            None => None,
            Some(max_update_id) => Some(max_update_id + 1),
        }
    }

    /// Checks at run time that `get_next_update_id`'s precondition holds:
    /// the greatest identifier of the batch, if any, is below the largest
    /// representable value, so the cursor can be advanced past it.
    pub fn has_cursor_headroom(&self) -> (r: bool)
        ensures
            r == self.cursor_in_range(),
    {
        match self.get_max_update_id() {
            None => true,
            Some(max_update_id) => max_update_id < i64::MAX,
        }
    }
}

} // verus!
