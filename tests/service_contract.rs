use secret_store_service::{
    public_to_address,
    server_key_hash, server_key_requested_event_hash, Address, ChainState, DummyServiceContract, LogEntry,
    OnChainServiceContract, PendingRequest, PendingRequestsIterator, Public, ServiceTask, UpdateEvent, H256,
};

const EVENT_NAME: &[u8] = b"ServerKeyRequested(bytes32,uint256)";

fn addr(b: u8) -> Address {
    Address([b; 20])
}

fn h(b: u8) -> H256 {
    H256([b; 32])
}

fn node_key() -> Public {
    Public([0x11; 64])
}

fn node() -> Address {
    public_to_address(&node_key())
}

fn installed(b: u8) -> OnChainServiceContract {
    OnChainServiceContract::new(Some(addr(b)), &node_key())
}

fn event_entry(from: Address, id: u8) -> LogEntry {
    LogEntry { address: from, topics: vec![server_key_requested_event_hash(), h(id)] }
}

fn drain(mut it: PendingRequestsIterator, answers: &[Option<PendingRequest>]) -> (Vec<(bool, ServiceTask)>, Vec<u64>) {
    let mut items = Vec::new();
    let mut indices = Vec::new();
    let mut k = 0;
    while let Some(call) = it.next_index() {
        indices.push(call.index);
        let answer = answers[k];
        k += 1;
        match it.accept(answer) {
            Some(item) => items.push(item),
            None => break,
        }
    }
    (items, indices)
}

fn request(id: u8, threshold: usize, confirmed: bool) -> PendingRequest {
    PendingRequest { server_key_id: h(id), threshold, is_confirmed: confirmed }
}

#[test]
fn event_hash_is_keccak_of_signature() {
    assert_eq!(server_key_requested_event_hash().0, keccak_hash::keccak(EVENT_NAME).0);
    assert_ne!(&server_key_requested_event_hash().0[..], &EVENT_NAME[..32]);
}

#[test]
fn server_key_hash_of_zero_key() {
    let expected: [u8; 32] = [
        0xad, 0x32, 0x28, 0xb6, 0x76, 0xf7, 0xd3, 0xcd, 0x42, 0x84, 0xa5, 0x44, 0x3f, 0x17, 0xf1, 0x96, 0x2b, 0x36,
        0xe4, 0x91, 0xb3, 0x0a, 0x40, 0xb2, 0x40, 0x58, 0x49, 0xe5, 0x97, 0xba, 0x5f, 0xb5,
    ];
    assert_eq!(server_key_hash(&Public([0u8; 64])).0, expected);
}

#[test]
fn new_without_registry_entry_installs_nothing() {
    let c = OnChainServiceContract::new(None, &node_key());
    assert!(!c.is_installed());
    assert!(c.contract_address().is_zero());
    assert!(c.self_address().same_as(&node()));
}

#[test]
fn update_then_is_actual_when_synced() {
    let mut c = OnChainServiceContract::new(None, &node_key());
    assert!(c.update(UpdateEvent::Resolved(Some(addr(0xaa)))));
    assert!(c.contract_address().same_as(&addr(0xaa)));
    assert!(c.is_actual(ChainState::Synced));
}

#[test]
fn zero_registry_address_is_never_actual() {
    let mut c = OnChainServiceContract::new(None, &node_key());
    assert!(!c.update(UpdateEvent::Resolved(None)));
    assert!(!c.update(UpdateEvent::Resolved(Some(Address([0u8; 20])))));
    assert!(!c.is_actual(ChainState::Synced));
    assert!(!c.is_actual(ChainState::Syncing));
    assert!(!c.is_actual(ChainState::Offline));
}

#[test]
fn syncing_or_offline_chain_is_never_actual() {
    let c = installed(0xaa);
    assert!(c.is_actual(ChainState::Synced));
    assert!(!c.is_actual(ChainState::Syncing));
    assert!(!c.is_actual(ChainState::Offline));
}

#[test]
fn update_ignored_while_syncing_or_offline() {
    let mut c = installed(0xaa);
    assert!(!c.update(UpdateEvent::Syncing));
    assert!(!c.update(UpdateEvent::Offline));
    assert!(c.contract_address().same_as(&addr(0xaa)));
}

#[test]
fn migration_replaces_handle_once() {
    let mut c = installed(0xaa);
    assert!(!c.update(UpdateEvent::Resolved(Some(addr(0xaa)))));
    assert!(c.update(UpdateEvent::Resolved(Some(addr(0xbb)))));
    assert!(!c.update(UpdateEvent::Resolved(Some(addr(0xbb)))));
    assert!(c.contract_address().same_as(&addr(0xbb)));
    assert!(c.update(UpdateEvent::Resolved(None)));
    assert!(!c.is_installed());
}

#[test]
fn log_filter_targets_contract_and_event() {
    let c = installed(0xaa);
    let f = c.log_filter(h(1), h(2));
    assert_eq!(f.from_block.0, [1u8; 32]);
    assert_eq!(f.to_block.0, [2u8; 32]);
    assert_eq!(f.address.len(), 1);
    assert!(f.address[0].same_as(&addr(0xaa)));
    assert_eq!(f.topics.len(), 4);
    let first = f.topics[0].as_ref().unwrap();
    assert_eq!(first.len(), 1);
    assert_eq!(first[0].0, keccak_hash::keccak(EVENT_NAME).0);
    assert!(f.topics[1].is_none() && f.topics[2].is_none() && f.topics[3].is_none());
}

#[test]
fn read_logs_keeps_only_matching_entries() {
    let c = installed(0xaa);
    let logs = vec![
        event_entry(addr(0xaa), 1),
        event_entry(addr(0xbb), 2),
        LogEntry { address: addr(0xaa), topics: vec![h(9), h(3)] },
        LogEntry { address: addr(0xaa), topics: vec![] },
        event_entry(addr(0xaa), 4),
    ];
    let topics = c.read_logs(Some(logs));
    assert_eq!(topics.len(), 2);
    assert_eq!(topics[0].len(), 2);
    assert_eq!(topics[0][1].0, [1u8; 32]);
    assert_eq!(topics[1][1].0, [4u8; 32]);
    assert!(topics.iter().all(|t| t[0].same_as(&server_key_requested_event_hash())));
}

#[test]
fn read_logs_offline_client_is_empty() {
    let c = installed(0xaa);
    assert!(c.read_logs(None).is_empty());
    assert!(c.read_logs(Some(vec![])).is_empty());
}

#[test]
fn pending_requests_in_index_order() {
    let c = installed(0xaa);
    let answers = [Some(request(1, 1, true)), Some(request(2, 2, false)), Some(request(3, 3, true))];
    let (items, indices) = drain(c.read_pending_requests(Some(3)), &answers);
    assert_eq!(indices, vec![0, 1, 2]);
    assert_eq!(items.len(), 3);
    let confirmed: Vec<bool> = items.iter().map(|i| i.0).collect();
    assert_eq!(confirmed, vec![true, false, true]);
    for (k, (_, task)) in items.iter().enumerate() {
        match task {
            ServiceTask::GenerateServerKey(id, threshold) => {
                assert_eq!(id.0, [(k + 1) as u8; 32]);
                assert_eq!(*threshold, k + 1);
            },
        }
    }
}

#[test]
fn pending_requests_stop_at_first_failed_call() {
    let c = installed(0xaa);
    let answers = [Some(request(1, 1, false)), None, Some(request(3, 1, false))];
    let mut it = c.read_pending_requests(Some(3));
    let (items, indices) = drain(c.read_pending_requests(Some(3)), &answers);
    assert_eq!(items.len(), 1);
    assert_eq!(indices, vec![0, 1]);
    assert!(it.next_index().is_some());
    assert!(it.accept(None).is_none());
    assert!(it.is_done());
    assert!(it.next_index().is_none());
}

#[test]
fn pending_request_call_names_contract_and_node() {
    let c = installed(0xaa);
    let mut it = c.read_pending_requests(Some(1));
    let call = it.next_index().unwrap();
    assert!(call.contract.same_as(&addr(0xaa)));
    assert!(call.requester.same_as(&node()));
    assert_eq!(call.index, 0);
    assert!(it.next_index().is_none());
}

#[test]
fn pending_requests_empty_without_contract_or_count() {
    let none = OnChainServiceContract::new(None, &node_key());
    assert!(none.read_pending_requests(Some(5)).is_done());
    let c = installed(0xaa);
    assert!(c.read_pending_requests(None).is_done());
    assert!(c.read_pending_requests(Some(0)).is_done());
}

#[test]
fn publish_with_zero_address_succeeds_without_submit() {
    let c = OnChainServiceContract::new(None, &node_key());
    assert!(matches!(c.publish_server_key(Ok(vec![1, 2, 3]), true), Ok(None)));
}

#[test]
fn publish_with_offline_client_succeeds_without_submit() {
    let c = installed(0xaa);
    assert!(matches!(c.publish_server_key(Ok(vec![1, 2, 3]), false), Ok(None)));
}

#[test]
fn publish_submits_call_to_installed_contract() {
    let c = installed(0xaa);
    let tx = c.publish_server_key(Ok(vec![7, 8, 9]), true).unwrap().unwrap();
    assert!(tx.contract.same_as(&addr(0xaa)));
    assert_eq!(tx.data, vec![7, 8, 9]);
}

#[test]
fn publish_passes_signing_error_on() {
    let c = installed(0xaa);
    let r = c.publish_server_key(Err("invalid secret".to_string()), true);
    assert_eq!(r.unwrap_err(), "invalid secret");
    let mut dummy = DummyServiceContract::new();
    let r = c.publish_server_key(Err("invalid secret".to_string()), true);
    if r.is_ok() {
        dummy.publish_server_key(&h(1), &Public([2u8; 64])).unwrap();
    }
    assert!(dummy.published_keys.is_empty());
}

#[test]
fn dummy_returns_canned_state_and_records_keys() {
    let mut d = DummyServiceContract::default();
    assert!(!d.is_actual());
    d.is_actual = true;
    d.logs = vec![vec![h(1), h(2)]];
    d.pending_requests = vec![(true, ServiceTask::GenerateServerKey(h(3), 2))];
    d.update();
    assert!(d.is_actual());
    let logs = d.read_logs(h(0), h(0));
    assert_eq!(logs.len(), 1);
    assert_eq!(logs[0][1].0, [2u8; 32]);
    let pending = d.read_pending_requests();
    assert_eq!(pending.len(), 1);
    assert!(pending[0].0);
    assert!(d.publish_server_key(&h(5), &Public([6u8; 64])).is_ok());
    assert_eq!(d.published_keys.len(), 1);
    assert_eq!(d.published_keys[0].0 .0, [5u8; 32]);
    assert_eq!(d.published_keys[0].1 .0, [6u8; 64]);
}

#[test]
fn address_of_zero_public_key() {
    let expected: [u8; 20] = [
        0x3f, 0x17, 0xf1, 0x96, 0x2b, 0x36, 0xe4, 0x91, 0xb3, 0x0a, 0x40, 0xb2, 0x40, 0x58, 0x49, 0xe5, 0x97, 0xba,
        0x5f, 0xb5,
    ];
    assert_eq!(public_to_address(&Public([0u8; 64])).0, expected);
}

#[test]
fn node_address_comes_from_public_key() {
    let c = installed(0xaa);
    let digest = keccak_hash::keccak(&[0x11u8; 64][..]).0;
    assert_eq!(c.self_address().0[..], digest[12..]);
}
