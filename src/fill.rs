use vstd::prelude::*;

verus! {

/// Leading byte that tags an encoded fill.
pub const FILL_PAYLOAD_ID: u8 = 1;

/// What the destination ledger needs to redeem a settlement: where the order
/// came from, who redeems it, how much, and the redeemer's message.
#[derive(Debug, Clone)]
pub struct Fill {
    pub source_chain: u16,
    pub order_sender: [u8; 32],
    pub redeemer: [u8; 32],
    pub amount: u64,
    pub redeemer_message: Vec<u8>,
}

/// The `n` low-order bytes of `x`, most significant first.
pub open spec fn be_bytes(x: nat, n: nat) -> Seq<u8>
    decreases n,
{
    if n == 0 {
        seq![]
    } else {
        be_bytes(x / 256, (n - 1) as nat).push((x % 256) as u8)
    }
}

/// The wire form of a fill: its tag, the source chain, the order sender, the
/// redeemer, the amount and the length-prefixed redeemer message, integers
/// big-endian.
pub open spec fn spec_fill_bytes(f: Fill) -> Seq<u8> {
    seq![FILL_PAYLOAD_ID] + be_bytes(f.source_chain as nat, 2) + f.order_sender@ + f.redeemer@
        + be_bytes(f.amount as nat, 8) + be_bytes(f.redeemer_message@.len(), 4)
        + f.redeemer_message@
}

/// Appends the `n` low-order bytes of `x` to `out`, most significant first.
fn push_be(out: &mut Vec<u8>, x: u64, n: usize)
    requires
        n <= 8,
    ensures
        final(out)@ == old(out)@ + be_bytes(x as nat, n as nat),
    decreases n,
{
    if n == 0 {
        assert(old(out)@ + be_bytes(x as nat, 0) =~= old(out)@);
        return;
    }
    push_be(out, x / 256, n - 1);
    out.push((x % 256) as u8);
    assert(final(out)@ =~= old(out)@ + be_bytes(x as nat, n as nat));
}

/// Appends the bytes of a 32-byte address to `out`.
fn push_address(out: &mut Vec<u8>, a: &[u8; 32])
    ensures
        final(out)@ == old(out)@ + a@,
{
    let mut i: usize = 0;
    while i < 32
        invariant
            0 <= i <= 32,
            a@.len() == 32,
            out@ == old(out)@ + a@.subrange(0, i as int),
        decreases 32 - i,
    {
        out.push(a[i]);
        i = i + 1;
        assert(out@ =~= old(out)@ + a@.subrange(0, i as int));
    }
    assert(a@.subrange(0, 32) =~= a@);
}

impl Fill {
    /// Serialises the fill into the bytes published to the destination ledger.
    pub fn to_vec(&self) -> (r: Vec<u8>)
        requires
            self.redeemer_message@.len() <= u32::MAX,
        ensures
            r@ == spec_fill_bytes(*self),
    {
        let mut out: Vec<u8> = Vec::new();
        out.push(FILL_PAYLOAD_ID);
        push_be(&mut out, self.source_chain as u64, 2);
        push_address(&mut out, &self.order_sender);
        push_address(&mut out, &self.redeemer);
        push_be(&mut out, self.amount, 8);
        push_be(&mut out, self.redeemer_message.len() as u64, 4);
        let mut i: usize = 0;
        let ghost head = out@;
        while i < self.redeemer_message.len()
            invariant
                0 <= i <= self.redeemer_message@.len(),
                out@ == head + self.redeemer_message@.subrange(0, i as int),
            decreases self.redeemer_message@.len() - i,
        {
            out.push(self.redeemer_message[i]);
            i = i + 1;
            assert(out@ =~= head + self.redeemer_message@.subrange(0, i as int));
        }
        assert(self.redeemer_message@.subrange(0, i as int) =~= self.redeemer_message@);
        assert(out@ =~= spec_fill_bytes(*self));
        out
    }
}

} // verus!
