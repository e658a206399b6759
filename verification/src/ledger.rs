use vstd::prelude::*;
use crate::key::Key;
use crate::token::SessionToken;

verus! {

/// A token as the ledger stores it: the record, and the deposit held against
/// it for as long as it is stored.
#[derive(Clone, Copy, Debug)]
pub struct StoredToken {
    pub token: SessionToken,
    pub deposit: u64,
}

/// What a ledger holds, as a mathematical value.
#[verifier::ext_equal]
pub struct LedgerView {
    /// The deposit charged for storing one token.
    pub rent: nat,
    /// All funds on the ledger: the balances and the deposits together.
    pub supply: nat,
    /// The funds of every key; zero for a key that was never funded.
    pub balances: Map<Key, nat>,
    /// The stored tokens, by the address that each is stored at.
    pub records: Map<Key, StoredToken>,
}

impl LedgerView {
    /// Whether this can be what a ledger holds: every key has a balance, and
    /// the rent and the supply are amounts that a ledger can count.
    pub open spec fn sound(self) -> bool {
        &&& self.rent <= u64::MAX
        &&& self.supply <= u64::MAX
        &&& forall|key: Key| self.balances.contains_key(key)
    }
}

/// The balances after `amount` has been added to the funds of `key`.
pub open spec fn credited(balances: Map<Key, nat>, key: Key, amount: nat) -> Map<Key, nat> {
    balances.insert(key, balances[key] + amount)
}

/// The balances after `amount` has been taken from the funds of `key`, which
/// hold at least that much.
pub open spec fn debited(balances: Map<Key, nat>, key: Key, amount: nat) -> Map<Key, nat>
    recommends
        balances[key] >= amount,
{
    balances.insert(key, (balances[key] - amount) as nat)
}

/// The balances after `amount` has moved from `from` to `to`. Where the two
/// are one key, its funds are what they were.
pub open spec fn transferred(balances: Map<Key, nat>, from: Key, to: Key, amount: nat) -> Map<
    Key,
    nat,
>
    recommends
        balances[from] >= amount,
{
    credited(debited(balances, from, amount), to, amount)
}

/// The funds of one key.
struct Wallet {
    key: Key,
    lamports: u64,
}

/// One stored token and its address.
struct Slot {
    address: Key,
    stored: StoredToken,
}

spec fn wallets_distinct(wallets: Seq<Wallet>) -> bool {
    forall|i: int, j: int| 0 <= i < j < wallets.len() ==> wallets[i].key != wallets[j].key
}

spec fn has_wallet(wallets: Seq<Wallet>, key: Key) -> bool {
    exists|i: int| 0 <= i < wallets.len() && #[trigger] wallets[i].key == key
}

spec fn wallet_index(wallets: Seq<Wallet>, key: Key) -> int {
    choose|i: int| 0 <= i < wallets.len() && #[trigger] wallets[i].key == key
}

spec fn balance_in(wallets: Seq<Wallet>, key: Key) -> nat {
    if has_wallet(wallets, key) {
        wallets[wallet_index(wallets, key)].lamports as nat
    } else {
        0
    }
}

spec fn balances_of(wallets: Seq<Wallet>) -> Map<Key, nat> {
    Map::total(|key: Key| balance_in(wallets, key))
}

spec fn wallet_sum(wallets: Seq<Wallet>) -> nat
    decreases wallets.len(),
{
    if wallets.len() == 0 {
        0
    } else {
        wallet_sum(wallets.drop_last()) + wallets.last().lamports as nat
    }
}

spec fn slots_distinct(slots: Seq<Slot>) -> bool {
    forall|i: int, j: int| 0 <= i < j < slots.len() ==> slots[i].address != slots[j].address
}

spec fn has_slot(slots: Seq<Slot>, address: Key) -> bool {
    exists|i: int| 0 <= i < slots.len() && #[trigger] slots[i].address == address
}

spec fn slot_index(slots: Seq<Slot>, address: Key) -> int {
    choose|i: int| 0 <= i < slots.len() && #[trigger] slots[i].address == address
}

spec fn records_of(slots: Seq<Slot>) -> Map<Key, StoredToken> {
    Map::new(
        |address: Key| has_slot(slots, address),
        |address: Key| slots[slot_index(slots, address)].stored,
    )
}

spec fn slot_sum(slots: Seq<Slot>) -> nat
    decreases slots.len(),
{
    if slots.len() == 0 {
        0
    } else {
        slot_sum(slots.drop_last()) + slots.last().stored.deposit as nat
    }
}

proof fn lemma_balance_at(wallets: Seq<Wallet>, i: int)
    requires
        wallets_distinct(wallets),
        0 <= i < wallets.len(),
    ensures
        has_wallet(wallets, wallets[i].key),
        balance_in(wallets, wallets[i].key) == wallets[i].lamports,
{
    assert(wallets[i].key == wallets[i].key);
    let j = wallet_index(wallets, wallets[i].key);
    assert(i == j);
}

proof fn lemma_wallet_sum_bound(wallets: Seq<Wallet>, i: int)
    requires
        0 <= i < wallets.len(),
    ensures
        wallets[i].lamports <= wallet_sum(wallets),
    decreases wallets.len(),
{
    if i < wallets.len() - 1 {
        lemma_wallet_sum_bound(wallets.drop_last(), i);
    }
}

proof fn lemma_wallet_sum_update(wallets: Seq<Wallet>, i: int, wallet: Wallet)
    requires
        0 <= i < wallets.len(),
    ensures
        wallet_sum(wallets.update(i, wallet)) == wallet_sum(wallets) - wallets[i].lamports
            + wallet.lamports,
    decreases wallets.len(),
{
    let after = wallets.update(i, wallet);
    if i < wallets.len() - 1 {
        lemma_wallet_sum_update(wallets.drop_last(), i, wallet);
        assert(after.drop_last() =~= wallets.drop_last().update(i, wallet));
    } else {
        assert(after.drop_last() =~= wallets.drop_last());
    }
}

proof fn lemma_wallet_sum_push(wallets: Seq<Wallet>, wallet: Wallet)
    ensures
        wallet_sum(wallets.push(wallet)) == wallet_sum(wallets) + wallet.lamports,
{
    assert(wallets.push(wallet).drop_last() =~= wallets);
}

proof fn lemma_slot_sum_push(slots: Seq<Slot>, slot: Slot)
    ensures
        slot_sum(slots.push(slot)) == slot_sum(slots) + slot.stored.deposit,
{
    assert(slots.push(slot).drop_last() =~= slots);
}

proof fn lemma_slot_sum_remove(slots: Seq<Slot>, i: int)
    requires
        0 <= i < slots.len(),
    ensures
        slot_sum(slots.remove(i)) == slot_sum(slots) - slots[i].stored.deposit,
    decreases slots.len(),
{
    let after = slots.remove(i);
    if i < slots.len() - 1 {
        lemma_slot_sum_remove(slots.drop_last(), i);
        assert(after.drop_last() =~= slots.drop_last().remove(i));
        assert(after.last() == slots.last());
    } else {
        assert(after =~= slots.drop_last());
    }
}

proof fn lemma_slot_at(slots: Seq<Slot>, i: int)
    requires
        slots_distinct(slots),
        0 <= i < slots.len(),
    ensures
        has_slot(slots, slots[i].address),
        slot_index(slots, slots[i].address) == i,
{
    assert(slots[i].address == slots[i].address);
    let j = slot_index(slots, slots[i].address);
    assert(i == j);
}

/// The place of the wallet of `key`, if it has one.
fn find_wallet(wallets: &Vec<Wallet>, key: &Key) -> (found: Option<usize>)
    ensures
        match found {
            Some(i) => i < wallets.len() && wallets[i as int].key == *key,
            None => !has_wallet(wallets@, *key),
        },
{
    let mut i: usize = 0;
    while i < wallets.len()
        invariant
            i <= wallets.len(),
            forall|j: int| 0 <= j < i ==> wallets[j].key != *key,
        decreases wallets.len() - i,
    {
        if wallets[i].key.same(key) {
            return Some(i);
        }
        i += 1;
    }
    None
}

/// The place of the token stored at `address`, if one is.
fn find_slot(slots: &Vec<Slot>, address: &Key) -> (found: Option<usize>)
    ensures
        match found {
            Some(i) => i < slots.len() && slots[i as int].address == *address,
            None => !has_slot(slots@, *address),
        },
{
    let mut i: usize = 0;
    while i < slots.len()
        invariant
            i <= slots.len(),
            forall|j: int| 0 <= j < i ==> slots[j].address != *address,
        decreases slots.len() - i,
    {
        if slots[i].address.same(address) {
            return Some(i);
        }
        i += 1;
    }
    None
}

/// The funds of `key` among the wallets.
fn funds_of(wallets: &Vec<Wallet>, key: &Key) -> (lamports: u64)
    requires
        wallets_distinct(wallets@),
    ensures
        lamports == balance_in(wallets@, *key),
        lamports <= wallet_sum(wallets@),
{
    match find_wallet(wallets, key) {
        Some(i) => {
            proof {
                lemma_balance_at(wallets@, i as int);
                lemma_wallet_sum_bound(wallets@, i as int);
            }
            wallets[i].lamports
        },
        None => 0,
    }
}

/// Where `after` is `before` with `wallet` put at the place `at`, in place of
/// the wallet of its key or behind them all where the key had none, the
/// balances are those of `before` with the funds of that key set.
proof fn lemma_wallet_put(before: Seq<Wallet>, after: Seq<Wallet>, at: int, wallet: Wallet)
    requires
        wallets_distinct(before),
        0 <= at <= before.len(),
        at < before.len() ==> before[at].key == wallet.key && after.len() == before.len(),
        at == before.len() ==> !has_wallet(before, wallet.key) && after.len() == before.len() + 1,
        after[at] == wallet,
        forall|j: int| 0 <= j < before.len() && j != at ==> after[j] == before[j],
    ensures
        wallets_distinct(after),
        balances_of(after) == balances_of(before).insert(wallet.key, wallet.lamports as nat),
{
    assert forall|i: int, j: int| 0 <= i < j < after.len() implies after[i].key
        != after[j].key by {
        if i != at {
            assert(before[i].key == after[i].key);
        }
        if j != at {
            assert(before[j].key == after[j].key);
        }
    }
    assert forall|k: Key| #[trigger]
        balance_in(after, k) == (if k == wallet.key {
            wallet.lamports as nat
        } else {
            balance_in(before, k)
        }) by {
        if k == wallet.key {
            lemma_balance_at(after, at);
        } else if has_wallet(before, k) {
            let j = wallet_index(before, k);
            lemma_balance_at(before, j);
            assert(after[j] == before[j]);
            lemma_balance_at(after, j);
        } else if has_wallet(after, k) {
            let j = wallet_index(after, k);
            assert(before[j].key == k);
        }
    }
    assert(balances_of(after) =~= balances_of(before).insert(
        wallet.key,
        wallet.lamports as nat,
    ));
}

/// Makes `lamports` the funds of `key`.
fn set_funds(wallets: &mut Vec<Wallet>, key: &Key, lamports: u64)
    requires
        wallets_distinct(old(wallets)@),
    ensures
        wallets_distinct(final(wallets)@),
        balances_of(final(wallets)@) == balances_of(old(wallets)@).insert(*key, lamports as nat),
        wallet_sum(final(wallets)@) == wallet_sum(old(wallets)@) - balance_in(old(wallets)@, *key)
            + lamports,
{
    let ghost before = wallets@;
    let wallet = Wallet { key: *key, lamports };
    match find_wallet(wallets, key) {
        Some(i) => {
            wallets[i] = wallet;
            proof {
                lemma_balance_at(before, i as int);
                lemma_wallet_sum_update(before, i as int, wallet);
                lemma_wallet_put(before, wallets@, i as int, wallet);
            }
        },
        None => {
            wallets.push(wallet);
            proof {
                lemma_wallet_sum_push(before, wallet);
                lemma_wallet_put(before, wallets@, before.len() as int, wallet);
            }
        },
    }
}

/// Stores `slot`, whose address holds no token yet.
fn put_slot(slots: &mut Vec<Slot>, slot: Slot)
    requires
        slots_distinct(old(slots)@),
        !has_slot(old(slots)@, slot.address),
    ensures
        slots_distinct(final(slots)@),
        records_of(final(slots)@) == records_of(old(slots)@).insert(slot.address, slot.stored),
        slot_sum(final(slots)@) == slot_sum(old(slots)@) + slot.stored.deposit,
{
    let ghost before = slots@;
    slots.push(slot);
    proof {
        let after = slots@;
        let last = before.len() as int;
        lemma_slot_sum_push(before, slot);
        assert(slots_distinct(after)) by {
            assert forall|i: int, j: int| 0 <= i < j < after.len() implies after[i].address
                != after[j].address by {
                assert(before[i].address == after[i].address);
                if j != last {
                    assert(before[j].address == after[j].address);
                }
            }
        }
        assert forall|k: Key| #[trigger] has_slot(after, k) == (k == slot.address || has_slot(
            before,
            k,
        )) by {
            if k == slot.address {
                lemma_slot_at(after, last);
            } else if has_slot(before, k) {
                let j = slot_index(before, k);
                assert(after[j].address == k);
            } else if has_slot(after, k) {
                let j = slot_index(after, k);
                assert(before[j].address == k);
            }
        }
        assert forall|k: Key| has_slot(after, k) implies #[trigger] after[slot_index(
            after,
            k,
        )].stored == (if k == slot.address {
            slot.stored
        } else {
            before[slot_index(before, k)].stored
        }) by {
            if k == slot.address {
                lemma_slot_at(after, last);
            } else {
                let j = slot_index(before, k);
                assert(after[j] == before[j]);
                lemma_slot_at(after, j);
            }
        }
        assert(records_of(after) =~= records_of(before).insert(slot.address, slot.stored));
    }
}

/// Takes out the token stored at place `i`.
fn take_slot(slots: &mut Vec<Slot>, i: usize) -> (slot: Slot)
    requires
        slots_distinct(old(slots)@),
        i < old(slots).len(),
    ensures
        slot == old(slots)[i as int],
        slots_distinct(final(slots)@),
        records_of(final(slots)@) == records_of(old(slots)@).remove(slot.address),
        slot_sum(final(slots)@) == slot_sum(old(slots)@) - slot.stored.deposit,
{
    let ghost before = slots@;
    let slot = slots.remove(i);
    proof {
        let after = slots@;
        let at = i as int;
        lemma_slot_sum_remove(before, at);
        assert forall|j: int| 0 <= j < after.len() implies #[trigger] after[j] == before[if j
            < at {
            j
        } else {
            j + 1
        }] by {}
        assert(slots_distinct(after)) by {
            assert forall|a: int, b: int| 0 <= a < b < after.len() implies after[a].address
                != after[b].address by {
                let x = if a < at { a } else { a + 1 };
                let y = if b < at { b } else { b + 1 };
                assert(after[a] == before[x]);
                assert(after[b] == before[y]);
            }
        }
        assert forall|k: Key| #[trigger] has_slot(after, k) == (k != slot.address && has_slot(
            before,
            k,
        )) by {
            if has_slot(after, k) {
                let j = slot_index(after, k);
                let x = if j < at { j } else { j + 1 };
                assert(after[j] == before[x]);
                assert(before[x].address == k);
                if k == slot.address {
                    lemma_slot_at(before, at);
                    lemma_slot_at(before, x);
                }
            } else if k != slot.address && has_slot(before, k) {
                let x = slot_index(before, k);
                let j = if x < at { x } else { x - 1 };
                assert(after[j] == before[x]);
                assert(after[j].address == k);
            }
        }
        assert forall|k: Key| has_slot(after, k) implies #[trigger] after[slot_index(
            after,
            k,
        )].stored == before[slot_index(before, k)].stored by {
            let j = slot_index(after, k);
            let x = if j < at { j } else { j + 1 };
            assert(after[j] == before[x]);
            lemma_slot_at(before, x);
        }
        assert(records_of(after) =~= records_of(before).remove(slot.address));
    }
    slot
}

/// The ledger: the funds of every key, and the session tokens stored on it,
/// each at its address and with the deposit held against it.
pub struct Ledger {
    rent: u64,
    supply: u64,
    wallets: Vec<Wallet>,
    slots: Vec<Slot>,
}

impl View for Ledger {
    type V = LedgerView;

    closed spec fn view(&self) -> LedgerView {
        LedgerView {
            rent: self.rent as nat,
            supply: self.supply as nat,
            balances: balances_of(self.wallets@),
            records: records_of(self.slots@),
        }
    }
}

impl Ledger {
    /// Whether the books are in order: no key has two balances, no address
    /// two tokens, and the balances and deposits add up to the supply.
    pub closed spec fn balanced(&self) -> bool {
        &&& wallets_distinct(self.wallets@)
        &&& slots_distinct(self.slots@)
        &&& self.supply == wallet_sum(self.wallets@) + slot_sum(self.slots@)
    }

    /// Whether the ledger is well formed: its books are in order, and what
    /// it holds is sound.
    pub open spec fn wf(&self) -> bool {
        &&& self.balanced()
        &&& self@.sound()
    }

    /// An empty ledger that charges `rent` for storing a token.
    pub fn new(rent: u64) -> (ledger: Ledger)
        ensures
            ledger.wf(),
            ledger@ == (LedgerView {
                rent: rent as nat,
                supply: 0,
                balances: Map::total(|key: Key| 0nat),
                records: Map::empty(),
            }),
    {
        let ledger = Ledger { rent, supply: 0, wallets: Vec::new(), slots: Vec::new() };
        proof {
            assert(balances_of(ledger.wallets@) =~= Map::total(|key: Key| 0nat));
            assert(records_of(ledger.slots@) =~= Map::empty());
        }
        ledger
    }

    /// The deposit charged for storing one token.
    pub fn rent(&self) -> (rent: u64)
        ensures
            rent == self@.rent,
    {
        self.rent
    }

    /// All funds on the ledger.
    pub fn supply(&self) -> (supply: u64)
        ensures
            supply == self@.supply,
    {
        self.supply
    }

    /// The funds of `key`.
    pub fn balance(&self, key: &Key) -> (lamports: u64)
        requires
            self.wf(),
        ensures
            lamports == self@.balances[*key],
            lamports <= self@.supply,
    {
        funds_of(&self.wallets, key)
    }

    /// The token stored at `address`, if one is.
    pub fn token(&self, address: &Key) -> (stored: Option<StoredToken>)
        requires
            self.wf(),
        ensures
            stored is Some == self@.records.contains_key(*address),
            stored is Some ==> stored->0 == self@.records[*address],
    {
        match find_slot(&self.slots, address) {
            Some(i) => {
                proof {
                    lemma_slot_at(self.slots@, i as int);
                }
                Some(self.slots[i].stored)
            },
            None => None,
        }
    }

    /// Brings `lamports` of new funds onto the ledger, to `key`. Refused,
    /// with nothing changed, where the supply would no longer fit.
    pub fn fund(&mut self, key: &Key, lamports: u64) -> (done: bool)
        requires
            old(self).wf(),
        ensures
            final(self).wf(),
            done == (old(self)@.supply + lamports <= u64::MAX),
            done ==> final(self)@ == (LedgerView {
                supply: old(self)@.supply + lamports as nat,
                balances: credited(old(self)@.balances, *key, lamports as nat),
                ..old(self)@
            }),
            !done ==> final(self)@ == old(self)@,
    {
        if lamports > u64::MAX - self.supply {
            return false;
        }
        let held = funds_of(&self.wallets, key);
        set_funds(&mut self.wallets, key, held + lamports);
        self.supply = self.supply + lamports;
        true
    }

    /// Moves `lamports` from `from` to `to`.
    pub(crate) fn transfer(&mut self, from: &Key, to: &Key, lamports: u64)
        requires
            old(self).wf(),
            old(self)@.balances[*from] >= lamports,
        ensures
            final(self).wf(),
            final(self)@ == (LedgerView {
                balances: transferred(old(self)@.balances, *from, *to, lamports as nat),
                ..old(self)@
            }),
    {
        let held = funds_of(&self.wallets, from);
        set_funds(&mut self.wallets, from, held - lamports);
        let target = funds_of(&self.wallets, to);
        set_funds(&mut self.wallets, to, target + lamports);
    }

    /// Stores `token` at `address`, which holds none yet, and holds the rent
    /// of `payer` against it.
    pub(crate) fn allocate(&mut self, address: &Key, token: SessionToken, payer: &Key)
        requires
            old(self).wf(),
            !old(self)@.records.contains_key(*address),
            old(self)@.balances[*payer] >= old(self)@.rent,
        ensures
            final(self).wf(),
            final(self)@ == (LedgerView {
                balances: debited(old(self)@.balances, *payer, old(self)@.rent),
                records: old(self)@.records.insert(
                    *address,
                    StoredToken { token, deposit: old(self)@.rent as u64 },
                ),
                ..old(self)@
            }),
    {
        let held = funds_of(&self.wallets, payer);
        set_funds(&mut self.wallets, payer, held - self.rent);
        let stored = StoredToken { token, deposit: self.rent };
        put_slot(&mut self.slots, Slot { address: *address, stored });
    }

    /// Removes the token stored at `address` and hands its deposit to the
    /// authority named in it.
    pub(crate) fn close(&mut self, address: &Key) -> (stored: StoredToken)
        requires
            old(self).wf(),
            old(self)@.records.contains_key(*address),
        ensures
            final(self).wf(),
            stored == old(self)@.records[*address],
            final(self)@ == (LedgerView {
                balances: credited(
                    old(self)@.balances,
                    stored.token.authority,
                    stored.deposit as nat,
                ),
                records: old(self)@.records.remove(*address),
                ..old(self)@
            }),
    {
        let found = find_slot(&self.slots, address);
        let i = found.unwrap();
        proof {
            lemma_slot_at(self.slots@, i as int);
        }
        let slot = take_slot(&mut self.slots, i);
        let held = funds_of(&self.wallets, &slot.stored.token.authority);
        set_funds(&mut self.wallets, &slot.stored.token.authority, held + slot.stored.deposit);
        slot.stored
    }
}

} // verus!
