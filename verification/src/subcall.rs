use vstd::prelude::*;

verus! {

/// A delegated transfer for the host to execute under a pre-granted
/// allowance: the grantee exercises the granter's authorization to move
/// the amount from the granter to the receiver.
#[derive(Clone, Debug)]
pub struct DelegatedPull {
    pub grantee: String,
    pub from_address: String,
    pub to_address: String,
    pub denom: String,
    pub amount: u128,
}

/// A raw host message: a protocol type url and its encoded payload.
#[derive(Clone, Debug)]
pub struct StargateMsg {
    pub type_url: String,
    pub value: Vec<u8>,
}

/// A durable audit record: an event name with one attribute.
#[derive(Clone, Debug)]
pub struct EventRecord {
    pub name: String,
    pub attr_key: String,
    pub attr_value: String,
}

/// Wraps already-encoded bytes under their protocol type url.
pub fn create_stargate_msg(type_url: &str, value: Vec<u8>) -> (r: StargateMsg)
    ensures
        r.type_url@ == type_url@,
        r.value@ == value@,
{
    StargateMsg { type_url: type_url.to_owned(), value }
}

} // verus!
