//! The polling loop's state: the stored cursor and whether the loop is
//! still running.
//!
//! The loop itself performs network I/O and lives in the surrounding
//! application; what is verified here is every decision it makes. Each
//! cycle the driver asks `request_offset` for the cursor to send, performs
//! one fetch, and reports the outcome: `on_success` advances the cursor by
//! the received batch, `on_failure` moves the loop to its terminal state
//! with the cursor untouched. A terminated poller accepts no further
//! outcome, so no fetch follows a failure.

use vstd::prelude::*;

use crate::cursor::{next_cursor, requested};
use crate::get_updates::Response;

verus! {

/// State of the polling loop: the cursor to use on the next fetch, and
/// whether a transport or decode failure has ended the loop.
pub struct Poller {
    cursor: Option<i64>,
    terminated: bool,
}

impl Poller {
    /// The stored cursor: absent until the first non-empty batch arrives,
    /// afterwards one past the greatest update identifier seen.
    pub closed spec fn spec_cursor(&self) -> Option<int> {
        match self.cursor {
            None => None,
            Some(c) => Some(c as int),
        }
    }

    /// Whether a failure has moved the loop to its terminal state.
    pub closed spec fn spec_terminated(&self) -> bool {
        self.terminated
    }

    /// A fresh poller: cursor absent, loop running.
    pub fn new() -> (p: Poller)
        ensures
            p.spec_cursor() is None,
            !p.spec_terminated(),
    {
        Poller { cursor: None, terminated: false }
    }

    /// The cursor to send with the next fetch request; absent means the
    /// request carries no cursor and the server returns its whole backlog.
    pub fn request_offset(&self) -> (o: Option<i64>)
        requires
            !self.spec_terminated(),
        ensures
            match o {
                None => self.spec_cursor() is None,
                Some(c) => self.spec_cursor() == Some(c as int),
            },
    {
        self.cursor
    }

    /// Advances the cursor after a successful fetch: a non-empty batch
    /// replaces the cursor with one past its greatest identifier, an empty
    /// batch leaves the cursor exactly as it was. The loop stays running,
    /// and the new cursor never requests an identifier of this batch again.
    pub fn on_success(&mut self, resp: &Response)
        requires
            !old(self).spec_terminated(),
            resp.cursor_in_range(),
        ensures
            !final(self).spec_terminated(),
            resp.ids().len() > 0 ==> final(self).spec_cursor() == next_cursor(resp.ids()),
            resp.ids().len() == 0 ==> final(self).spec_cursor() == old(self).spec_cursor(),
            forall|i: int|
                0 <= i < resp.ids().len() ==> !requested(final(self).spec_cursor(), resp.ids()[i]),
            (old(self).spec_cursor() is Some && (forall|i: int|
                0 <= i < resp.ids().len()
                    ==> resp.ids()[i] >= old(self).spec_cursor()->Some_0))
                ==> (final(self).spec_cursor() is Some
                    && final(self).spec_cursor()->Some_0 >= old(self).spec_cursor()->Some_0),
    {
        proof {
            crate::cursor::lemma_no_refetch(resp.ids());
            if resp.ids().len() > 0 {
                crate::cursor::lemma_seq_max_is_bound(resp.ids());
            }
        }
        match resp.get_next_update_id() {
            Some(next) => {
                self.cursor = Some(next);
            },
            None => (),
        }
    }

    /// Records a transport or decode failure: the loop reaches its terminal
    /// state and the stored cursor is left unchanged.
    pub fn on_failure(&mut self)
        ensures
            final(self).spec_terminated(),
            final(self).spec_cursor() == old(self).spec_cursor(),
    {
        self.terminated = true;
    }

    /// Whether the loop has ended; a terminated poller issues no further
    /// fetches.
    pub fn is_terminated(&self) -> (r: bool)
        ensures
            r == self.spec_terminated(),
    {
        self.terminated
    }

    /// The stored cursor, for observation outside the loop.
    pub fn cursor(&self) -> (o: Option<i64>)
        ensures
            match o {
                None => self.spec_cursor() is None,
                Some(c) => self.spec_cursor() == Some(c as int),
            },
    {
        self.cursor
    }
}

} // verus!
