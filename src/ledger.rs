use vstd::prelude::*;

use crate::state::same_address;

verus! {

/// A token holding: its address, the authority that may move its tokens, and
/// its balance.
#[derive(Debug, Clone, Copy)]
pub struct Holding {
    pub address: [u8; 32],
    pub authority: [u8; 32],
    pub balance: u64,
}

/// Which of the two outgoing messages of a settlement a slot holds.
#[derive(Debug, Clone, Copy)]
pub enum SlotKind {
    /// The burn-and-mint bridge's message.
    Bridge,
    /// The attested fill message.
    Core,
}

/// Storage location of one outgoing message, derived from its kind and the
/// settlement record it belongs to.
#[derive(Debug, Clone, Copy)]
pub struct MessageSlot {
    pub kind: SlotKind,
    pub auction: [u8; 32],
}

/// A burn registered with the bridge: the destination may mint `amount`.
#[derive(Debug, Clone, Copy)]
pub struct BurnOrder {
    pub slot: MessageSlot,
    pub source: [u8; 32],
    pub amount: u64,
    pub destination_domain: u32,
    pub destination_caller: [u8; 32],
    pub mint_recipient: [u8; 32],
}

/// A message published through the messaging module.
#[derive(Debug, Clone)]
pub struct PostedMessage {
    pub slot: MessageSlot,
    pub emitter: [u8; 32],
    pub nonce: u32,
    pub payload: Vec<u8>,
}

pub struct PostedMessageView {
    pub slot: MessageSlot,
    pub emitter: [u8; 32],
    pub nonce: u32,
    pub payload: Seq<u8>,
}

impl View for PostedMessage {
    type V = PostedMessageView;

    open spec fn view(&self) -> PostedMessageView {
        PostedMessageView {
            slot: self.slot,
            emitter: self.emitter,
            nonce: self.nonce,
            payload: self.payload@,
        }
    }
}

/// A closed holding and the party its residual resource went to.
#[derive(Debug, Clone, Copy)]
pub struct Reclaim {
    pub holding: [u8; 32],
    pub recipient: [u8; 32],
}

pub struct LedgerView {
    pub custodian: [u8; 32],
    pub burn_limit_per_message: u64,
    /// Tokens held by the fee recipient and by all holdings together.
    pub total: u64,
    pub records: Seq<[u8; 32]>,
    pub holdings: Seq<Holding>,
    pub fee_recipient_balance: u64,
    pub burns: Seq<BurnOrder>,
    pub messages: Seq<PostedMessageView>,
    pub reclaims: Seq<Reclaim>,
}

/// The state that settlements read and write: settlement records, custody
/// holdings, the fee recipient's balance, and what was handed to the bridge
/// and to the messaging module.
pub struct Ledger {
    custodian: [u8; 32],
    burn_limit_per_message: u64,
    total: u64,
    records: Vec<[u8; 32]>,
    holdings: Vec<Holding>,
    fee_recipient_balance: u64,
    burns: Vec<BurnOrder>,
    messages: Vec<PostedMessage>,
    reclaims: Vec<Reclaim>,
}

pub open spec fn sum_balances(s: Seq<Holding>) -> int
    decreases s.len(),
{
    if s.len() == 0 {
        0
    } else {
        sum_balances(s.drop_last()) + s.last().balance
    }
}

proof fn lemma_sum_push(s: Seq<Holding>, h: Holding)
    ensures
        sum_balances(s.push(h)) == sum_balances(s) + h.balance,
{
    assert(s.push(h).drop_last() =~= s);
}

pub proof fn lemma_sum_bounds(s: Seq<Holding>, i: int)
    requires
        0 <= i < s.len(),
    ensures
        0 <= s[i].balance <= sum_balances(s),
    decreases s.len(),
{
    lemma_sum_nonneg(s.drop_last());
    if i < s.len() - 1 {
        lemma_sum_bounds(s.drop_last(), i);
    }
}

pub proof fn lemma_sum_nonneg(s: Seq<Holding>)
    ensures
        sum_balances(s) >= 0,
    decreases s.len(),
{
    if s.len() > 0 {
        lemma_sum_nonneg(s.drop_last());
    }
}

proof fn lemma_sum_update(s: Seq<Holding>, i: int, h: Holding)
    requires
        0 <= i < s.len(),
    ensures
        sum_balances(s.update(i, h)) == sum_balances(s) - s[i].balance + h.balance,
    decreases s.len(),
{
    if i == s.len() - 1 {
        assert(s.update(i, h).drop_last() =~= s.drop_last());
    } else {
        lemma_sum_update(s.drop_last(), i, h);
        assert(s.update(i, h).drop_last() =~= s.drop_last().update(i, h));
    }
}

proof fn lemma_sum_remove(s: Seq<Holding>, i: int)
    requires
        0 <= i < s.len(),
    ensures
        sum_balances(s.remove(i)) == sum_balances(s) - s[i].balance,
    decreases s.len(),
{
    if i == s.len() - 1 {
        assert(s.remove(i) =~= s.drop_last());
    } else {
        lemma_sum_remove(s.drop_last(), i);
        assert(s.remove(i).drop_last() =~= s.drop_last().remove(i));
    }
}

pub open spec fn has_record(v: LedgerView, key: [u8; 32]) -> bool {
    exists|i: int| 0 <= i < v.records.len() && v.records[i] == key
}

pub open spec fn has_holding(v: LedgerView, address: [u8; 32]) -> bool {
    exists|i: int| 0 <= i < v.holdings.len() && v.holdings[i].address == address
}

/// Where the holding at `address` stands; fixed by `ledger_wf` when it exists.
pub open spec fn holding_index(v: LedgerView, address: [u8; 32]) -> int {
    choose|i: int| 0 <= i < v.holdings.len() && v.holdings[i].address == address
}

pub open spec fn has_burn_slot(v: LedgerView, slot: MessageSlot) -> bool {
    exists|i: int| 0 <= i < v.burns.len() && v.burns[i].slot == slot
}

pub open spec fn has_message_slot(v: LedgerView, slot: MessageSlot) -> bool {
    exists|i: int| 0 <= i < v.messages.len() && v.messages[i].slot == slot
}

/// Holdings have distinct addresses, and the tokens of the fee recipient and
/// of every holding together are counted by `total`, so no balance overflows.
pub open spec fn ledger_wf(v: LedgerView) -> bool {
    &&& forall|i: int, j: int|
        0 <= i < v.holdings.len() && 0 <= j < v.holdings.len() && i != j
            ==> v.holdings[i].address != v.holdings[j].address
    &&& v.total == v.fee_recipient_balance + sum_balances(v.holdings)
}

/// Whether two message slots are the same.
pub fn same_slot(a: &MessageSlot, b: &MessageSlot) -> (r: bool)
    ensures
        r == (*a == *b),
{
    let same_kind = match (a.kind, b.kind) {
        (SlotKind::Bridge, SlotKind::Bridge) => true,
        (SlotKind::Core, SlotKind::Core) => true,
        _ => false,
    };
    same_kind && same_address(&a.auction, &b.auction)
}

impl View for Ledger {
    type V = LedgerView;

    closed spec fn view(&self) -> LedgerView {
        LedgerView {
            custodian: self.custodian,
            burn_limit_per_message: self.burn_limit_per_message,
            total: self.total,
            records: self.records@,
            holdings: self.holdings@,
            fee_recipient_balance: self.fee_recipient_balance,
            burns: self.burns@,
            messages: self.messages@.map_values(|m: PostedMessage| m@),
            reclaims: self.reclaims@,
        }
    }
}

impl Ledger {
    pub open spec fn wf(&self) -> bool {
        ledger_wf(self@)
    }

    /// An empty ledger whose holdings answer to `custodian`, with the bridge
    /// burning at most `burn_limit_per_message` per message.
    pub fn new(custodian: [u8; 32], burn_limit_per_message: u64) -> (r: Ledger)
        ensures
            r.wf(),
            r@.custodian == custodian,
            r@.burn_limit_per_message == burn_limit_per_message,
            r@.total == 0,
            r@.fee_recipient_balance == 0,
            r@.records == Seq::<[u8; 32]>::empty(),
            r@.holdings == Seq::<Holding>::empty(),
            r@.burns == Seq::<BurnOrder>::empty(),
            r@.messages == Seq::<PostedMessageView>::empty(),
            r@.reclaims == Seq::<Reclaim>::empty(),
    {
        let r = Ledger {
            custodian,
            burn_limit_per_message,
            total: 0,
            records: Vec::new(),
            holdings: Vec::new(),
            fee_recipient_balance: 0,
            burns: Vec::new(),
            messages: Vec::new(),
            reclaims: Vec::new(),
        };
        assert(r@.messages =~= Seq::<PostedMessageView>::empty());
        r
    }

    pub fn custodian(&self) -> (r: [u8; 32])
        ensures
            r == self@.custodian,
    {
        self.custodian
    }

    pub fn burn_limit_per_message(&self) -> (r: u64)
        ensures
            r == self@.burn_limit_per_message,
    {
        self.burn_limit_per_message
    }

    pub fn fee_recipient_balance(&self) -> (r: u64)
        ensures
            r == self@.fee_recipient_balance,
    {
        self.fee_recipient_balance
    }

    pub fn burns(&self) -> (r: &Vec<BurnOrder>)
        ensures
            r@ == self@.burns,
    {
        &self.burns
    }

    pub fn messages(&self) -> (r: &Vec<PostedMessage>)
        ensures
            r@.map_values(|m: PostedMessage| m@) == self@.messages,
    {
        &self.messages
    }

    pub fn reclaims(&self) -> (r: &Vec<Reclaim>)
        ensures
            r@ == self@.reclaims,
    {
        &self.reclaims
    }

    /// Whether a settlement record exists under `key`.
    pub fn is_settled(&self, key: &[u8; 32]) -> (r: bool)
        ensures
            r == has_record(self@, *key),
    {
        let mut i: usize = 0;
        while i < self.records.len()
            invariant
                0 <= i <= self.records@.len(),
                forall|j: int| 0 <= j < i ==> self.records@[j] != *key,
            decreases self.records@.len() - i,
        {
            if same_address(&self.records[i], key) {
                assert(self@.records[i as int] == *key);
                return true;
            }
            i = i + 1;
        }
        false
    }

    /// Where the holding at `address` stands, if there is one.
    pub fn find_holding(&self, address: &[u8; 32]) -> (r: Option<usize>)
        requires
            self.wf(),
        ensures
            r is None <==> !has_holding(self@, *address),
            r is Some ==> r->Some_0 == holding_index(self@, *address),
            r is Some ==> r->Some_0 < self@.holdings.len(),
    {
        let mut i: usize = 0;
        while i < self.holdings.len()
            invariant
                self.wf(),
                0 <= i <= self.holdings@.len(),
                forall|j: int| 0 <= j < i ==> self.holdings@[j].address != *address,
            decreases self.holdings@.len() - i,
        {
            if same_address(&self.holdings[i].address, address) {
                assert(self@.holdings[i as int].address == *address);
                proof {
                    assert(has_holding(self@, *address));
                    let k = holding_index(self@, *address);
                    assert(self@.holdings[k].address == *address);
                    if k != i as int {
                        assert(self@.holdings[k].address != self@.holdings[i as int].address);
                    }
                }
                return Some(i);
            }
            i = i + 1;
        }
        None
    }

    pub fn holding(&self, i: usize) -> (r: Holding)
        requires
            i < self@.holdings.len(),
        ensures
            r == self@.holdings[i as int],
    {
        self.holdings[i]
    }

    /// The balance of the holding at `address`, if it exists.
    pub fn holding_balance(&self, address: &[u8; 32]) -> (r: Option<u64>)
        requires
            self.wf(),
        ensures
            r is None <==> !has_holding(self@, *address),
            r is Some ==> r->Some_0 == self@.holdings[holding_index(self@, *address)].balance,
    {
        match self.find_holding(address) {
            Some(i) => Some(self.holdings[i].balance),
            None => None,
        }
    }

    /// Whether the bridge already holds a message in `slot`.
    pub fn burn_slot_used(&self, slot: &MessageSlot) -> (r: bool)
        ensures
            r == has_burn_slot(self@, *slot),
    {
        let mut i: usize = 0;
        while i < self.burns.len()
            invariant
                0 <= i <= self.burns@.len(),
                forall|j: int| 0 <= j < i ==> self.burns@[j].slot != *slot,
            decreases self.burns@.len() - i,
        {
            if same_slot(&self.burns[i].slot, slot) {
                return true;
            }
            i = i + 1;
        }
        false
    }

    /// Whether the messaging module already holds a message in `slot`.
    pub fn message_slot_used(&self, slot: &MessageSlot) -> (r: bool)
        ensures
            r == has_message_slot(self@, *slot),
    {
        let mut i: usize = 0;
        while i < self.messages.len()
            invariant
                0 <= i <= self.messages@.len(),
                forall|j: int| 0 <= j < i ==> self@.messages[j].slot != *slot,
            decreases self.messages@.len() - i,
        {
            if same_slot(&self.messages[i].slot, slot) {
                assert(self@.messages[i as int].slot == *slot);
                return true;
            }
            i = i + 1;
        }
        false
    }

    /// Opens a custody holding, unless `address` is taken or the ledger's
    /// token count would overflow.
    pub fn open_holding(&mut self, address: [u8; 32], authority: [u8; 32], balance: u64) -> (r:
        bool)
        requires
            old(self).wf(),
        ensures
            final(self).wf(),
            r == (!has_holding(old(self)@, address) && old(self)@.total + balance <= u64::MAX),
            r ==> final(self)@ == (LedgerView {
                total: (old(self)@.total + balance) as u64,
                holdings: old(self)@.holdings.push(
                    Holding { address, authority, balance },
                ),
                ..old(self)@
            }),
            !r ==> final(self)@ == old(self)@,
    {
        if balance > u64::MAX - self.total {
            return false;
        }
        if self.find_holding(&address).is_some() {
            return false;
        }
        let h = Holding { address, authority, balance };
        proof {
            lemma_sum_push(self.holdings@, h);
        }
        self.holdings.push(h);
        self.total = self.total + balance;
        true
    }

    /// Creates the settlement record `key`.
    pub fn insert_record(&mut self, key: [u8; 32])
        requires
            old(self).wf(),
        ensures
            final(self).wf(),
            final(self)@ == (LedgerView { records: old(self)@.records.push(key), ..old(self)@ }),
    {
        self.records.push(key);
    }

    /// Moves `amount` from holding `i` to the fee recipient.
    pub fn transfer_to_fee_recipient(&mut self, i: usize, amount: u64)
        requires
            old(self).wf(),
            i < old(self)@.holdings.len(),
            amount <= old(self)@.holdings[i as int].balance,
        ensures
            final(self).wf(),
            final(self)@ == (LedgerView {
                holdings: old(self)@.holdings.update(
                    i as int,
                    Holding {
                        balance: (old(self)@.holdings[i as int].balance - amount) as u64,
                        ..old(self)@.holdings[i as int]
                    },
                ),
                fee_recipient_balance: (old(self)@.fee_recipient_balance + amount) as u64,
                ..old(self)@
            }),
    {
        let h = self.holdings[i];
        let nh = Holding { balance: h.balance - amount, ..h };
        proof {
            lemma_sum_update(self.holdings@, i as int, nh);
            lemma_sum_bounds(self.holdings@, i as int);
        }
        self.holdings.set(i, nh);
        self.fee_recipient_balance = self.fee_recipient_balance + amount;
        assert forall|a: int, b: int|
            0 <= a < self.holdings@.len() && 0 <= b < self.holdings@.len() && a != b
                implies self.holdings@[a].address != self.holdings@[b].address by {
            assert(old(self)@.holdings[a].address != old(self)@.holdings[b].address);
        }
    }

    /// Burns `order.amount` out of holding `i` and registers the order.
    pub fn burn(&mut self, i: usize, order: BurnOrder)
        requires
            old(self).wf(),
            i < old(self)@.holdings.len(),
            order.amount <= old(self)@.holdings[i as int].balance,
        ensures
            final(self).wf(),
            final(self)@ == (LedgerView {
                holdings: old(self)@.holdings.update(
                    i as int,
                    Holding {
                        balance: (old(self)@.holdings[i as int].balance - order.amount) as u64,
                        ..old(self)@.holdings[i as int]
                    },
                ),
                total: (old(self)@.total - order.amount) as u64,
                burns: old(self)@.burns.push(order),
                ..old(self)@
            }),
    {
        let h = self.holdings[i];
        let nh = Holding { balance: h.balance - order.amount, ..h };
        proof {
            lemma_sum_update(self.holdings@, i as int, nh);
            lemma_sum_bounds(self.holdings@, i as int);
        }
        self.holdings.set(i, nh);
        self.total = self.total - order.amount;
        self.burns.push(order);
        assert forall|a: int, b: int|
            0 <= a < self.holdings@.len() && 0 <= b < self.holdings@.len() && a != b
                implies self.holdings@[a].address != self.holdings@[b].address by {
            assert(old(self)@.holdings[a].address != old(self)@.holdings[b].address);
        }
    }

    /// Publishes `message`.
    pub fn post_message(&mut self, message: PostedMessage)
        requires
            old(self).wf(),
        ensures
            final(self).wf(),
            final(self)@ == (LedgerView {
                messages: old(self)@.messages.push(message@),
                ..old(self)@
            }),
    {
        let ghost m = message@;
        self.messages.push(message);
        assert(self@.messages =~= old(self)@.messages.push(m));
    }

    /// Closes the empty holding `i`, its residual resource going to `recipient`.
    pub fn close_holding(&mut self, i: usize, recipient: [u8; 32])
        requires
            old(self).wf(),
            i < old(self)@.holdings.len(),
            old(self)@.holdings[i as int].balance == 0,
        ensures
            final(self).wf(),
            final(self)@ == (LedgerView {
                holdings: old(self)@.holdings.remove(i as int),
                reclaims: old(self)@.reclaims.push(
                    Reclaim { holding: old(self)@.holdings[i as int].address, recipient },
                ),
                ..old(self)@
            }),
    {
        proof {
            lemma_sum_remove(self.holdings@, i as int);
        }
        let h = self.holdings.remove(i);
        self.reclaims.push(Reclaim { holding: h.address, recipient });
        assert forall|a: int, b: int|
            0 <= a < self.holdings@.len() && 0 <= b < self.holdings@.len() && a != b
                implies self.holdings@[a].address != self.holdings@[b].address by {
            let oa = if a < i { a } else { a + 1 };
            let ob = if b < i { b } else { b + 1 };
            assert(old(self)@.holdings[oa].address != old(self)@.holdings[ob].address);
        }
    }
}

} // verus!
