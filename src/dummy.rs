use vstd::prelude::*;
use crate::service_contract::topic_lists;
use crate::types::{H256, Public, ServiceTask};

verus! {

/// An in-memory service contract for testing the consumers of this library:
/// a fixed readiness flag, canned logs and pending requests, and a record of
/// the keys published instead of transactions.
pub struct DummyServiceContract {
    pub is_actual: bool,
    pub logs: Vec<Vec<H256>>,
    pub pending_requests: Vec<(bool, ServiceTask)>,
    pub published_keys: Vec<(H256, Public)>,
}

impl DummyServiceContract {
    /// A contract that is not ready, with nothing to read and nothing published.
    pub fn new() -> (r: Self)
        ensures
            !r.is_actual,
            r.logs@.len() == 0,
            r.pending_requests@.len() == 0,
            r.published_keys@.len() == 0,
    {
        DummyServiceContract {
            is_actual: false,
            logs: Vec::new(),
            pending_requests: Vec::new(),
            published_keys: Vec::new(),
        }
    }

    /// Does nothing: the canned state never changes.
    pub fn update(&self) {
    }

    /// The fixed readiness flag.
    pub fn is_actual(&self) -> (r: bool)
        ensures
            r == self.is_actual,
    {
        self.is_actual
    }

    /// The canned logs, whatever the block range.
    pub fn read_logs(&self, _first_block: H256, _last_block: H256) -> (r: Vec<Vec<H256>>)
        ensures
            topic_lists(r@) == topic_lists(self.logs@),
    {
        let mut r: Vec<Vec<H256>> = Vec::new();
        let mut i: usize = 0;
        while i < self.logs.len()
            invariant
                i <= self.logs.len(),
                r@.len() == i,
                forall|k: int| 0 <= k < i ==> #[trigger] r@[k]@ == self.logs@[k]@,
            decreases self.logs.len() - i,
        {
            let mut topics: Vec<H256> = Vec::new();
            let mut j: usize = 0;
            while j < self.logs[i].len()
                invariant
                    i < self.logs.len(),
                    j <= self.logs[i as int]@.len(),
                    topics@ == self.logs[i as int]@.take(j as int),
                decreases self.logs[i as int]@.len() - j,
            {
                topics.push(self.logs[i][j]);
                j = j + 1;
                assert(topics@ =~= self.logs[i as int]@.take(j as int));
            }
            assert(topics@ =~= self.logs[i as int]@);
            r.push(topics);
            i = i + 1;
        }
        assert(topic_lists(r@) =~= topic_lists(self.logs@));
        r
    }

    /// The canned pending requests, in order.
    pub fn read_pending_requests(&self) -> (r: Vec<(bool, ServiceTask)>)
        ensures
            r@ == self.pending_requests@,
    {
        let mut r: Vec<(bool, ServiceTask)> = Vec::new();
        let mut i: usize = 0;
        while i < self.pending_requests.len()
            invariant
                i <= self.pending_requests.len(),
                r@ == self.pending_requests@.take(i as int),
            decreases self.pending_requests.len() - i,
        {
            r.push(self.pending_requests[i]);
            i = i + 1;
            assert(r@ =~= self.pending_requests@.take(i as int));
        }
        assert(self.pending_requests@.take(self.pending_requests.len() as int) =~= self.pending_requests@);
        r
    }

    /// Records the key as published; always succeeds.
    pub fn publish_server_key(&mut self, server_key_id: &H256, server_key: &Public) -> (r: Result<(), String>)
        ensures
            r is Ok,
            final(self).published_keys@ == old(self).published_keys@.push((*server_key_id, *server_key)),
            final(self).is_actual == old(self).is_actual,
            final(self).logs == old(self).logs,
            final(self).pending_requests == old(self).pending_requests,
    {
        self.published_keys.push((*server_key_id, *server_key));
        Ok(())
    }
}

impl Default for DummyServiceContract {
    fn default() -> (r: Self)
        ensures
            !r.is_actual,
            r.logs@.len() == 0,
            r.pending_requests@.len() == 0,
            r.published_keys@.len() == 0,
    {
        DummyServiceContract::new()
    }
}

} // verus!
