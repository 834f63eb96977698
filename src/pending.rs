use vstd::prelude::*;
use crate::types::{Address, H256, ServiceTask};

verus! {

/// One server key generation request recorded for this node.
#[derive(Clone, Copy, Debug)]
pub struct PendingRequest {
    pub server_key_id: H256,
    pub threshold: usize,
    /// Has this node already confirmed the request?
    pub is_confirmed: bool,
}

/// The chain call that fetches one pending request: the request at `index`
/// among those recorded for `requester` in `contract`.
#[derive(Clone, Copy, Debug)]
pub struct PendingRequestCall {
    pub contract: Address,
    pub requester: Address,
    pub index: u64,
}

/// Abstract state of a [`PendingRequestsIterator`].
pub struct PendingView {
    pub contract: Seq<u8>,
    pub requester: Seq<u8>,
    /// Index of the next request to fetch.
    pub index: nat,
    /// Number of requests, read once when the enumeration started.
    pub length: nat,
    /// Did a fetch fail, which ends the enumeration?
    pub ended: bool,
}

/// An enumeration of the pending requests of this node, one chain call per
/// item. The caller asks [`Self::next_index`] for the call to make, makes it,
/// and hands the answer to [`Self::accept`].
pub struct PendingRequestsIterator {
    contract: Address,
    requester: Address,
    index: u64,
    length: u64,
    ended: bool,
}

/// A new enumeration over `length` requests.
pub open spec fn pending_fresh(contract: Seq<u8>, requester: Seq<u8>, length: nat) -> PendingView {
    PendingView { contract, requester, index: 0, length, ended: false }
}

/// The index handed out never passes the length.
pub open spec fn pending_wf(s: PendingView) -> bool {
    s.index <= s.length
}

/// Does the enumeration yield nothing more?
pub open spec fn pending_exhausted(s: PendingView) -> bool {
    s.ended || s.index >= s.length
}

/// The enumeration after one more index was handed out.
pub open spec fn pending_advanced(s: PendingView) -> PendingView {
    PendingView { index: s.index + 1, ..s }
}

/// The enumeration after a fetch failed.
pub open spec fn pending_ended(s: PendingView) -> PendingView {
    PendingView { ended: true, ..s }
}

/// The task that a fetched request stands for, with its confirmation flag.
pub open spec fn pending_item(q: PendingRequest) -> (bool, ServiceTask) {
    (q.is_confirmed, ServiceTask::GenerateServerKey(q.server_key_id, q.threshold))
}

/// Number of items that a caller receives when it drives the enumeration
/// from `s` to its end, the fetches succeeding or failing as `outcomes` says,
/// one outcome per fetch in order.
pub open spec fn pending_yield_count(s: PendingView, outcomes: Seq<bool>) -> nat
    decreases outcomes.len(),
{
    if pending_exhausted(s) || outcomes.len() == 0 {
        0
    } else if outcomes[0] {
        1 + pending_yield_count(pending_advanced(s), outcomes.drop_first())
    } else {
        0
    }
}

proof fn lemma_yield_count_from(s: PendingView, outcomes: Seq<bool>)
    requires
        !s.ended,
        s.index <= s.length,
    ensures
        pending_yield_count(s, outcomes) <= s.length - s.index,
        outcomes.len() >= s.length - s.index && (forall|i: int| 0 <= i < s.length - s.index ==> outcomes[i])
            ==> pending_yield_count(s, outcomes) == s.length - s.index,
        (exists|k: int| 0 <= k < s.length - s.index && k < outcomes.len() && !outcomes[k])
            ==> pending_yield_count(s, outcomes) < s.length - s.index,
    decreases outcomes.len(),
{
    if !pending_exhausted(s) && outcomes.len() > 0 && outcomes[0] {
        let rest = outcomes.drop_first();
        lemma_yield_count_from(pending_advanced(s), rest);
        if outcomes.len() >= s.length - s.index && (forall|i: int| 0 <= i < s.length - s.index ==> outcomes[i]) {
            assert forall|i: int| 0 <= i < pending_advanced(s).length - pending_advanced(s).index implies rest[i] by {
                assert(outcomes[i + 1] == rest[i]);
            }
        }
        if exists|k: int| 0 <= k < s.length - s.index && k < outcomes.len() && !outcomes[k] {
            let k = choose|k: int| 0 <= k < s.length - s.index && k < outcomes.len() && !outcomes[k];
            assert(k != 0);
            assert(rest[k - 1] == outcomes[k]);
        }
    }
}

/// An enumeration over a declared length yields at most that many items: all
/// of them when every fetch succeeds, and fewer as soon as a fetch among the
/// first `length` fails.
pub proof fn lemma_pending_yield_count(contract: Seq<u8>, requester: Seq<u8>, length: nat, outcomes: Seq<bool>)
    ensures
        pending_yield_count(pending_fresh(contract, requester, length), outcomes) <= length,
        outcomes.len() >= length && (forall|i: int| 0 <= i < length ==> outcomes[i])
            ==> pending_yield_count(pending_fresh(contract, requester, length), outcomes) == length,
        (exists|k: int| 0 <= k < length && k < outcomes.len() && !outcomes[k])
            ==> pending_yield_count(pending_fresh(contract, requester, length), outcomes) < length,
{
    lemma_yield_count_from(pending_fresh(contract, requester, length), outcomes);
}

impl View for PendingRequestsIterator {
    type V = PendingView;

    closed spec fn view(&self) -> PendingView {
        PendingView {
            contract: self.contract@,
            requester: self.requester@,
            index: self.index as nat,
            length: self.length as nat,
            ended: self.ended,
        }
    }
}

impl PendingRequestsIterator {
    /// An enumeration over `length` requests of `requester` in `contract`.
    pub fn new(contract: Address, requester: Address, length: u64) -> (r: Self)
        ensures
            r@ == pending_fresh(contract@, requester@, length as nat),
            pending_wf(r@),
    {
        PendingRequestsIterator { contract, requester, index: 0, length, ended: false }
    }

    /// The call that fetches the next request, or `None` at the end. The
    /// index handed out is the next one below the length read at the start.
    pub fn next_index(&mut self) -> (r: Option<PendingRequestCall>)
        ensures
            pending_wf(old(self)@) ==> pending_wf(final(self)@),
            pending_exhausted(old(self)@) ==> r is None && final(self)@ == old(self)@,
            !pending_exhausted(old(self)@) ==> {
                &&& r is Some
                &&& r->Some_0.contract@ == old(self)@.contract
                &&& r->Some_0.requester@ == old(self)@.requester
                &&& r->Some_0.index as nat == old(self)@.index
                &&& final(self)@ == pending_advanced(old(self)@)
            },
    {
        if self.ended || self.index >= self.length {
            return None;
        }
        let index = self.index;
        self.index = self.index + 1;
        Some(PendingRequestCall { contract: self.contract, requester: self.requester, index })
    }

    /// Takes the answer to the last call (`None`: the call failed). A request
    /// becomes a key generation task paired with its confirmation flag; a
    /// failure ends the enumeration.
    pub fn accept(&mut self, fetched: Option<PendingRequest>) -> (r: Option<(bool, ServiceTask)>)
        ensures
            pending_wf(old(self)@) ==> pending_wf(final(self)@),
            match fetched {
                Some(q) => r == Some(pending_item(q)) && final(self)@ == old(self)@,
                None => r is None && final(self)@ == pending_ended(old(self)@),
            },
    {
        match fetched {
            Some(q) => Some((q.is_confirmed, ServiceTask::GenerateServerKey(q.server_key_id, q.threshold))),
            None => {
                self.ended = true;
                None
            },
        }
    }

    /// Has the enumeration ended?
    pub fn is_done(&self) -> (r: bool)
        ensures
            r == pending_exhausted(self@),
    {
        self.ended || self.index >= self.length
    }
}

} // verus!
