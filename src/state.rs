use vstd::prelude::*;

verus! {

/// How a destination endpoint receives its funds.
#[derive(Debug, Clone, Copy)]
pub enum MessageProtocol {
    /// No protocol has been configured for the endpoint.
    Unconfigured,
    /// The funds stay on this ledger and go to a local program.
    Local { program_id: [u8; 32] },
    /// The funds cross through the burn-and-mint bridge to `domain`.
    Cctp { domain: u32 },
}

/// Configuration of one destination chain.
#[derive(Debug, Clone, Copy)]
pub struct EndpointInfo {
    pub chain: u16,
    /// The only caller allowed to redeem the burn on the destination.
    pub address: [u8; 32],
    pub mint_recipient: [u8; 32],
    pub protocol: MessageProtocol,
}

/// A validated, attested order response waiting to be settled.
#[derive(Debug, Clone)]
pub struct PreparedOrderResponse {
    /// Hash of the attested fast message; keys the settlement record.
    pub fast_vaa_hash: [u8; 32],
    /// The party that prepared the response and gets the custody holding back.
    pub prepared_by: [u8; 32],
    /// The custody holding that holds the deposit.
    pub custody_token: [u8; 32],
    pub source_chain: u16,
    pub order_sender: [u8; 32],
    pub redeemer: [u8; 32],
    pub redeemer_message: Vec<u8>,
    pub to_endpoint: EndpointInfo,
    /// The deposited amount, in base units.
    pub amount_in: u64,
}

/// Whether two 32-byte addresses are equal.
pub fn same_address(a: &[u8; 32], b: &[u8; 32]) -> (r: bool)
    ensures
        r == (*a == *b),
{
    let mut i: usize = 0;
    while i < 32
        invariant
            0 <= i <= 32,
            a@.len() == 32,
            b@.len() == 32,
            forall|j: int| 0 <= j < i ==> a@[j] == b@[j],
        decreases 32 - i,
    {
        if a[i] != b[i] {
            return false;
        }
        i = i + 1;
    }
    assert(*a =~= *b);
    true
}

} // verus!
