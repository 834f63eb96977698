use vstd::prelude::*;
use crate::keccak::{address_of, public_to_address, server_key_requested_event_hash, server_key_requested_topic};
use crate::pending::{PendingRequestsIterator, pending_fresh};
use crate::types::{Address, H256, Public, zero_address};

verus! {

/// Name of the service contract in the registry.
pub const SERVICE_CONTRACT_REGISTRY_NAME: &'static str = "secretstore_service";

/// What the caller sees of the chain when it asks for the contract's state.
#[derive(Clone, Copy, Debug, PartialEq, Eq, Structural)]
pub enum ChainState {
    /// The chain client or the sync provider is gone.
    Offline,
    /// The chain is still syncing.
    Syncing,
    /// The chain is fully synced.
    Synced,
}

/// The outcome of one refresh attempt, gathered by the caller from the chain.
#[derive(Clone, Copy, Debug)]
pub enum UpdateEvent {
    /// The chain client or the sync provider is gone.
    Offline,
    /// The chain is still syncing: the registry was not consulted.
    Syncing,
    /// The chain is synced and the registry was asked for the service
    /// contract's address (`None`: the name is not registered).
    Resolved(Option<Address>),
}

/// One event log entry returned by the chain client.
#[derive(Debug)]
pub struct LogEntry {
    /// Address of the contract that emitted the event.
    pub address: Address,
    /// Indexed topics of the event.
    pub topics: Vec<H256>,
}

/// A log query over an inclusive range of blocks, given by hash.
#[derive(Debug)]
pub struct LogFilter {
    pub from_block: H256,
    pub to_block: H256,
    /// Addresses an entry may come from.
    pub address: Vec<Address>,
    /// For each topic position, the values accepted there (`None`: any).
    pub topics: Vec<Option<Vec<H256>>>,
}

/// A transaction to submit to the service contract.
#[derive(Debug)]
pub struct ContractTransaction {
    /// Address of the contract called.
    pub contract: Address,
    /// Encoded call.
    pub data: Vec<u8>,
}

/// The cached handle of the service contract: replaced as a whole, never
/// changed in place.
#[derive(Clone, Copy, Debug)]
struct ContractHandle {
    address: Address,
}

/// Abstract state of an [`OnChainServiceContract`].
pub struct ServiceContractView {
    /// Address of the installed service contract (zero: none installed).
    pub contract_address: Seq<u8>,
    /// Address of this node, under which requests are recorded.
    pub self_address: Seq<u8>,
}

/// The service contract as seen by this node: the cached contract handle and
/// this node's own address.
#[derive(Clone, Copy, Debug)]
pub struct OnChainServiceContract {
    contract: ContractHandle,
    self_address: Address,
}

/// The address that a registry lookup yields: zero when the name is unknown.
pub open spec fn resolved_address(found: Option<Address>) -> Seq<u8> {
    match found {
        Some(a) => a@,
        None => zero_address(),
    }
}

/// The cached address after a refresh attempt, and whether it was replaced.
pub open spec fn update_result(cached: Seq<u8>, event: UpdateEvent) -> (Seq<u8>, bool) {
    match event {
        UpdateEvent::Resolved(found) => if resolved_address(found) != cached {
            (resolved_address(found), true)
        } else {
            (cached, false)
        },
        _ => (cached, false),
    }
}

/// Does a log entry come from `address` and announce a key generation request?
pub open spec fn log_matches(entry: LogEntry, address: Seq<u8>) -> bool {
    &&& entry.address@ == address
    &&& entry.topics@.len() > 0
    &&& entry.topics@[0]@ == server_key_requested_topic()
}

/// Topics of the entries of `logs` that match `address`, in order.
pub open spec fn matching_topics(logs: Seq<LogEntry>, address: Seq<u8>) -> Seq<Seq<H256>>
    decreases logs.len(),
{
    if logs.len() == 0 {
        seq![]
    } else {
        let before = matching_topics(logs.drop_last(), address);
        if log_matches(logs.last(), address) {
            before.push(logs.last().topics@)
        } else {
            before
        }
    }
}

/// The contents of a vector of topic lists.
pub open spec fn topic_lists(v: Seq<Vec<H256>>) -> Seq<Seq<H256>> {
    v.map_values(|t: Vec<H256>| t@)
}

/// Every topic list that `read_logs` hands back comes from an entry of the
/// logs that was emitted by the contract's address and whose first topic is
/// the hash of the key generation request event.
pub proof fn lemma_read_logs_only_matching(logs: Seq<LogEntry>, address: Seq<u8>)
    ensures
        forall|i: int|
            0 <= i < matching_topics(logs, address).len() ==> {
                &&& #[trigger] matching_topics(logs, address)[i].len() > 0
                &&& matching_topics(logs, address)[i][0]@ == server_key_requested_topic()
                &&& exists|j: int|
                    0 <= j < logs.len() && log_matches(#[trigger] logs[j], address)
                        && matching_topics(logs, address)[i] == logs[j].topics@
            },
    decreases logs.len(),
{
    if logs.len() > 0 {
        let before = logs.drop_last();
        lemma_read_logs_only_matching(before, address);
        let m = matching_topics(logs, address);
        let mb = matching_topics(before, address);
        assert forall|i: int| 0 <= i < m.len() implies {
            &&& #[trigger] m[i].len() > 0
            &&& m[i][0]@ == server_key_requested_topic()
            &&& exists|j: int| 0 <= j < logs.len() && log_matches(#[trigger] logs[j], address) && m[i] == logs[j].topics@
        } by {
            if i < mb.len() {
                assert(m[i] == mb[i]);
                assert(mb[i].len() > 0);
                let j = choose|j: int| 0 <= j < before.len() && log_matches(#[trigger] before[j], address) && mb[i] == before[j].topics@;
                assert(logs[j] == before[j]);
            } else {
                assert(log_matches(logs.last(), address));
                assert(logs[logs.len() - 1] == logs.last());
            }
        }
    }
}

/// Moving the registry entry to a new address between two refreshes replaces
/// the cached contract exactly once: the first refresh that sees the new
/// address installs it, and the next one keeps it.
pub proof fn lemma_update_migrates_once(cached: Seq<u8>, found: Option<Address>)
    requires
        resolved_address(found) != cached,
    ensures
        ({
            let first = update_result(cached, UpdateEvent::Resolved(found));
            let second = update_result(first.0, UpdateEvent::Resolved(found));
            &&& first.1
            &&& !second.1
            &&& first.0 == resolved_address(found)
            &&& second.0 == resolved_address(found)
        }),
{
}

fn copy_topics(topics: &Vec<H256>) -> (r: Vec<H256>)
    ensures
        r@ == topics@,
{
    let mut r: Vec<H256> = Vec::new();
    let mut i: usize = 0;
    while i < topics.len()
        invariant
            i <= topics.len(),
            r@ == topics@.take(i as int),
        decreases topics.len() - i,
    {
        r.push(topics[i]);
        i = i + 1;
        assert(r@ =~= topics@.take(i as int));
    }
    assert(topics@.take(topics.len() as int) =~= topics@);
    r
}

fn entry_matches(entry: &LogEntry, address: &Address, event_hash: &H256) -> (r: bool)
    requires
        event_hash@ == server_key_requested_topic(),
    ensures
        r == log_matches(*entry, address@),
{
    entry.address.same_as(address) && entry.topics.len() > 0 && entry.topics[0].same_as(event_hash)
}

impl View for OnChainServiceContract {
    type V = ServiceContractView;

    closed spec fn view(&self) -> ServiceContractView {
        ServiceContractView { contract_address: self.contract.address@, self_address: self.self_address@ }
    }
}

impl OnChainServiceContract {
    /// Creates the contract state of the node with public key `self_public`
    /// from the registry lookup made at start-up (`None`: the name is not
    /// registered, and the zero address is cached).
    pub fn new(registry_address: Option<Address>, self_public: &Public) -> (r: Self)
        ensures
            r@.contract_address == resolved_address(registry_address),
            r@.self_address == address_of(self_public@),
    {
        let self_address = public_to_address(self_public);
        let address = match registry_address {
            Some(a) => a,
            None => Address::zero(),
        };
        OnChainServiceContract { contract: ContractHandle { address }, self_address }
    }

    /// Address of the installed service contract.
    pub fn contract_address(&self) -> (r: Address)
        ensures
            r@ == self@.contract_address,
    {
        self.contract.address
    }

    /// This node's address.
    pub fn self_address(&self) -> (r: Address)
        ensures
            r@ == self@.self_address,
    {
        self.self_address
    }

    /// Is a service contract installed (non-zero address)?
    pub fn is_installed(&self) -> (r: bool)
        ensures
            r == (self@.contract_address != zero_address()),
    {
        !self.contract.address.is_zero()
    }

    /// Refreshes the cached contract from one refresh attempt. Nothing changes
    /// while the chain is offline or syncing; otherwise the handle is replaced
    /// by a new one exactly when the registry's address differs from the
    /// cached one. Returns whether it was replaced.
    pub fn update(&mut self, event: UpdateEvent) -> (r: bool)
        ensures
            final(self)@.contract_address == update_result(old(self)@.contract_address, event).0,
            r == update_result(old(self)@.contract_address, event).1,
            final(self)@.self_address == old(self)@.self_address,
    {
        match event {
            UpdateEvent::Resolved(found) => {
                let address = match found {
                    Some(a) => a,
                    None => Address::zero(),
                };
                if !self.contract.address.same_as(&address) {
                    self.contract = ContractHandle { address };
                    true
                } else {
                    false
                }
            },
            _ => false,
        }
    }

    /// Is a contract installed and the chain synced? Both must hold before
    /// any other operation is worth making.
    pub fn is_actual(&self, chain: ChainState) -> (r: bool)
        ensures
            r == (self@.contract_address != zero_address() && chain == ChainState::Synced),
    {
        self.is_installed() && chain == ChainState::Synced
    }

    /// The query for key generation request events of the installed
    /// contract between two blocks: entries from the contract's address whose
    /// first topic is the event's hash, the other three topics unconstrained.
    pub fn log_filter(&self, first_block: H256, last_block: H256) -> (r: LogFilter)
        ensures
            r.from_block == first_block,
            r.to_block == last_block,
            r.address@.len() == 1,
            r.address@[0]@ == self@.contract_address,
            r.topics@.len() == 4,
            r.topics@[0] is Some,
            r.topics@[0]->Some_0@.len() == 1,
            r.topics@[0]->Some_0@[0]@ == server_key_requested_topic(),
            r.topics@[1] is None,
            r.topics@[2] is None,
            r.topics@[3] is None,
    {
        let mut address: Vec<Address> = Vec::new();
        address.push(self.contract.address);
        let mut first: Vec<H256> = Vec::new();
        first.push(server_key_requested_event_hash());
        let mut topics: Vec<Option<Vec<H256>>> = Vec::new();
        topics.push(Some(first));
        topics.push(None);
        topics.push(None);
        topics.push(None);
        LogFilter { from_block: first_block, to_block: last_block, address, topics }
    }

    /// Topics of the key generation request events among `logs`, the answer
    /// of the chain client to [`Self::log_filter`] (`None`: the client is
    /// offline, and nothing is read). Entries from another address or with
    /// another first topic are left out.
    pub fn read_logs(&self, logs: Option<Vec<LogEntry>>) -> (r: Vec<Vec<H256>>)
        ensures
            topic_lists(r@) == match logs {
                None => Seq::<Seq<H256>>::empty(),
                Some(l) => matching_topics(l@, self@.contract_address),
            },
    {
        let mut r: Vec<Vec<H256>> = Vec::new();
        match logs {
            None => {
                assert(topic_lists(r@) =~= Seq::<Seq<H256>>::empty());
                r
            },
            Some(logs) => {
                let address = self.contract.address;
                let event_hash = server_key_requested_event_hash();
                let mut i: usize = 0;
                assert(topic_lists(r@) =~= matching_topics(logs@.take(0), address@));
                while i < logs.len()
                    invariant
                        i <= logs.len(),
                        address@ == self@.contract_address,
                        event_hash@ == server_key_requested_topic(),
                        topic_lists(r@) == matching_topics(logs@.take(i as int), address@),
                    decreases logs.len() - i,
                {
                    assert(logs@.take(i + 1).drop_last() =~= logs@.take(i as int));
                    if entry_matches(&logs[i], &address, &event_hash) {
                        let t = copy_topics(&logs[i].topics);
                        let ghost prev = r@;
                        r.push(t);
                        assert(topic_lists(r@) =~= topic_lists(prev).push(t@));
                    }
                    i = i + 1;
                }
                assert(logs@.take(logs.len() as int) =~= logs@);
                r
            },
        }
    }

    /// Starts an enumeration of the requests this node is asked to confirm.
    /// `requests_count` is the count that the contract reported (`None`: the
    /// client is offline or the call failed); it is not consulted when no
    /// contract is installed, and the enumeration is then empty.
    pub fn read_pending_requests(&self, requests_count: Option<u64>) -> (r: PendingRequestsIterator)
        ensures
            r@ == pending_fresh(
                self@.contract_address,
                self@.self_address,
                if self@.contract_address == zero_address() {
                    0nat
                } else {
                    match requests_count {
                        Some(n) => n as nat,
                        None => 0nat,
                    }
                },
            ),
    {
        let length: u64 = if self.is_installed() {
            match requests_count {
                Some(n) => n,
                None => 0,
            }
        } else {
            0
        };
        PendingRequestsIterator::new(self.contract.address, self.self_address, length)
    }

    /// Decides what becomes of a generated server key, given the encoded
    /// call that carries it (or the error met while signing or encoding it)
    /// and whether the chain client is reachable. An error is handed back
    /// as it is. With no contract installed, or no client, nothing is sent
    /// and the publication counts as done: a later cycle will retry it.
    /// Otherwise the call is to be submitted to the installed contract.
    pub fn publish_server_key(&self, call_data: Result<Vec<u8>, String>, client_online: bool) -> (r: Result<
        Option<ContractTransaction>,
        String,
    >)
        ensures
            match call_data {
                Err(e) => r == Err::<Option<ContractTransaction>, String>(e),
                Ok(d) => if self@.contract_address != zero_address() && client_online {
                    &&& r is Ok
                    &&& r->Ok_0 is Some
                    &&& r->Ok_0->Some_0.contract@ == self@.contract_address
                    &&& r->Ok_0->Some_0.data@ == d@
                } else {
                    r == Ok::<Option<ContractTransaction>, String>(None)
                },
            },
    {
        match call_data {
            Err(e) => Err(e),
            Ok(data) => {
                if self.is_installed() && client_online {
                    Ok(Some(ContractTransaction { contract: self.contract.address, data }))
                } else {
                    Ok(None)
                }
            },
        }
    }
}

} // verus!
