use vstd::prelude::*;
use vstd::string::StringSliceAdditionalSpecFns;
use crate::types::{Address, H256, Public};

verus! {

/// The Keccak-256 digest of a byte string.
pub uninterp spec fn keccak_of(data: Seq<u8>) -> Seq<u8>;

/// Relies on keccak_hash::keccak: the 32-byte Keccak-256 digest of the input,
/// a function of the bytes alone.
#[verifier::external_body]
fn keccak(data: &[u8]) -> (r: H256)
    ensures
        r@ == keccak_of(data@),
{
    H256(keccak_hash::keccak(data).0)
}

/// Signature of the event that the service contract emits for each new
/// server key generation request.
pub const SERVER_KEY_REQUESTED_EVENT_NAME: &'static str = "ServerKeyRequested(bytes32,uint256)";

/// The bytes of the event signature.
pub open spec fn server_key_requested_event_name() -> Seq<u8> {
    SERVER_KEY_REQUESTED_EVENT_NAME.spec_bytes()
}

/// The first topic of every log entry of a key generation request.
pub open spec fn server_key_requested_topic() -> Seq<u8> {
    keccak_of(server_key_requested_event_name())
}

/// Hash of the key generation request event signature.
pub fn server_key_requested_event_hash() -> (r: H256)
    ensures
        r@ == server_key_requested_topic(),
{
    keccak(SERVER_KEY_REQUESTED_EVENT_NAME.as_bytes())
}

/// Hash of a generated server key, the message that the node signs when it
/// publishes the key.
pub fn server_key_hash(server_key: &Public) -> (r: H256)
    ensures
        r@ == keccak_of(server_key@),
{
    keccak(&server_key.0)
}

/// The address that belongs to a public key: the last 20 bytes of the key's
/// Keccak-256 digest.
pub open spec fn address_of(public: Seq<u8>) -> Seq<u8> {
    keccak_of(public).subrange(12, 32)
}

/// The address of the account that a public key controls.
pub fn public_to_address(public: &Public) -> (r: Address)
    ensures
        r@ == address_of(public@),
{
    let digest = keccak(&public.0);
    let mut bytes = [0u8; 20];
    let mut i: usize = 0;
    while i < 20
        invariant
            i <= 20,
            digest@ == keccak_of(public@),
            digest@.len() == 32,
            forall|j: int| 0 <= j < i ==> bytes@[j] == digest@[j + 12],
        decreases 20 - i,
    {
        bytes[i] = digest.0[i + 12];
        i = i + 1;
    }
    let r = Address(bytes);
    assert(r@ =~= address_of(public@));
    r
}

} // verus!
