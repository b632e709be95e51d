//! The account ledger: who holds how much. Balances never go below zero,
//! and their sum is the total supply after every operation.

use vstd::prelude::*;
use crate::error::ContractError;

verus! {

/// The balances of a ledger: one entry per account, with its address and
/// what it holds, in the order in which the accounts were first credited.
pub type Balances = Seq<(Seq<char>, nat)>;

/// Whether `who` has an entry.
pub open spec fn holds(balances: Balances, who: Seq<char>) -> bool {
    exists|i: int| 0 <= i < balances.len() && (#[trigger] balances[i]).0 == who
}

/// The place of the entry of `who`, where it has one.
pub open spec fn slot(balances: Balances, who: Seq<char>) -> int {
    choose|i: int| 0 <= i < balances.len() && (#[trigger] balances[i]).0 == who
}

/// What `who` holds: nothing, if it has no entry.
pub open spec fn balance_of(balances: Balances, who: Seq<char>) -> nat {
    if holds(balances, who) {
        balances[slot(balances, who)].1
    } else {
        0
    }
}

/// The sum of all balances.
pub open spec fn total(balances: Balances) -> nat
    decreases balances.len(),
{
    if balances.len() == 0 {
        0
    } else {
        total(balances.drop_last()) + balances.last().1
    }
}

/// No account has two entries.
pub open spec fn distinct(balances: Balances) -> bool {
    forall|i: int, j: int|
        0 <= i < j < balances.len() ==> (#[trigger] balances[i]).0 != (#[trigger] balances[j]).0
}

/// The balances after `who` received `amount`: its entry grows, or a new
/// entry is added at the end.
pub open spec fn credited(balances: Balances, who: Seq<char>, amount: nat) -> Balances {
    if holds(balances, who) {
        let i = slot(balances, who);
        balances.update(i, (who, balances[i].1 + amount))
    } else {
        balances.push((who, amount))
    }
}

/// The balances after `who` gave up `amount`, which it must hold.
pub open spec fn debited(balances: Balances, who: Seq<char>, amount: nat) -> Balances {
    if holds(balances, who) {
        let i = slot(balances, who);
        balances.update(i, (who, (balances[i].1 - amount) as nat))
    } else {
        balances
    }
}

/// The balances after `amount` went from `from` to `to`.
pub open spec fn moved(balances: Balances, from: Seq<char>, to: Seq<char>, amount: nat)
    -> Balances {
    credited(debited(balances, from, amount), to, amount)
}

/// With distinct entries, the entry found at `i` is the entry of its account.
pub proof fn lemma_slot_is_unique(balances: Balances, who: Seq<char>, i: int)
    requires
        distinct(balances),
        0 <= i < balances.len(),
        balances[i].0 == who,
    ensures
        holds(balances, who),
        slot(balances, who) == i,
        balance_of(balances, who) == balances[i].1,
{
    let j = slot(balances, who);
    assert(0 <= j < balances.len() && balances[j].0 == who);
    if j < i {
        assert(balances[j].0 != balances[i].0);
    }
    if i < j {
        assert(balances[i].0 != balances[j].0);
    }
}

/// An added entry adds its balance to the sum.
pub proof fn lemma_total_push(balances: Balances, entry: (Seq<char>, nat))
    ensures
        total(balances.push(entry)) == total(balances) + entry.1,
{
    assert(balances.push(entry).drop_last() =~= balances);
}

/// A changed entry changes the sum by as much as it changed.
pub proof fn lemma_total_update(balances: Balances, i: int, entry: (Seq<char>, nat))
    requires
        0 <= i < balances.len(),
    ensures
        total(balances.update(i, entry)) + balances[i].1 == total(balances) + entry.1,
    decreases balances.len(),
{
    if i == balances.len() - 1 {
        assert(balances.update(i, entry).drop_last() =~= balances.drop_last());
    } else {
        assert(balances.update(i, entry).drop_last() =~= balances.drop_last().update(i, entry));
        lemma_total_update(balances.drop_last(), i, entry);
    }
}

/// No account holds more than the sum of all balances.
pub proof fn lemma_balance_within_total(balances: Balances, i: int)
    requires
        0 <= i < balances.len(),
    ensures
        balances[i].1 <= total(balances),
    decreases balances.len(),
{
    if i < balances.len() - 1 {
        lemma_balance_within_total(balances.drop_last(), i);
    }
}

/// No account holds more than fits in 128 bits where the sum does.
pub proof fn lemma_balance_fits(balances: Balances, who: Seq<char>)
    requires
        total(balances) <= u128::MAX,
    ensures
        balance_of(balances, who) <= u128::MAX,
{
    if holds(balances, who) {
        lemma_balance_within_total(balances, slot(balances, who));
    }
}

/// What a credit does: the entries stay distinct, the sum grows by the
/// amount, the account credited holds that much more.
pub proof fn lemma_credited(balances: Balances, who: Seq<char>, amount: nat)
    requires
        distinct(balances),
    ensures
        distinct(credited(balances, who, amount)),
        total(credited(balances, who, amount)) == total(balances) + amount,
        balance_of(credited(balances, who, amount), who) == balance_of(balances, who) + amount,
{
    let after = credited(balances, who, amount);
    if holds(balances, who) {
        let i = slot(balances, who);
        lemma_total_update(balances, i, (who, balances[i].1 + amount));
        assert forall|a: int, b: int| 0 <= a < b < after.len() implies (#[trigger] after[a]).0 != (
        #[trigger] after[b]).0 by {
            assert(balances[a].0 != balances[b].0);
        }
        lemma_slot_is_unique(after, who, i);
    } else {
        lemma_total_push(balances, (who, amount));
        assert forall|a: int, b: int| 0 <= a < b < after.len() implies (#[trigger] after[a]).0 != (
        #[trigger] after[b]).0 by {
            if b < balances.len() {
                assert(balances[a].0 != balances[b].0);
            } else {
                assert(balances[a].0 != who);
            }
        }
        lemma_slot_is_unique(after, who, balances.len() as int);
    }
}

/// A credit leaves every other account as it was.
pub proof fn lemma_credited_elsewhere(
    balances: Balances,
    who: Seq<char>,
    amount: nat,
    other: Seq<char>,
)
    requires
        distinct(balances),
        other != who,
    ensures
        balance_of(credited(balances, who, amount), other) == balance_of(balances, other),
{
    let after = credited(balances, who, amount);
    lemma_credited(balances, who, amount);
    if holds(balances, other) {
        let k = slot(balances, other);
        assert(after[k] == balances[k]);
        lemma_slot_is_unique(after, other, k);
    } else {
        if holds(after, other) {
            let k = slot(after, other);
            if k < balances.len() {
                assert(balances[k].0 == other);
            }
        }
    }
}

/// What a debit does, where the account holds the amount: the entries stay
/// distinct, the sum shrinks by the amount, the account holds that much less.
pub proof fn lemma_debited(balances: Balances, who: Seq<char>, amount: nat)
    requires
        distinct(balances),
        amount <= balance_of(balances, who),
    ensures
        distinct(debited(balances, who, amount)),
        total(debited(balances, who, amount)) + amount == total(balances),
        balance_of(debited(balances, who, amount), who) + amount == balance_of(balances, who),
{
    let after = debited(balances, who, amount);
    if holds(balances, who) {
        let i = slot(balances, who);
        lemma_total_update(balances, i, (who, (balances[i].1 - amount) as nat));
        assert forall|a: int, b: int| 0 <= a < b < after.len() implies (#[trigger] after[a]).0 != (
        #[trigger] after[b]).0 by {
            assert(balances[a].0 != balances[b].0);
        }
        lemma_slot_is_unique(after, who, i);
    }
}

/// A debit leaves every other account as it was.
pub proof fn lemma_debited_elsewhere(
    balances: Balances,
    who: Seq<char>,
    amount: nat,
    other: Seq<char>,
)
    requires
        distinct(balances),
        amount <= balance_of(balances, who),
        other != who,
    ensures
        balance_of(debited(balances, who, amount), other) == balance_of(balances, other),
{
    let after = debited(balances, who, amount);
    lemma_debited(balances, who, amount);
    if holds(balances, who) {
        if holds(balances, other) {
            let k = slot(balances, other);
            assert(after[k] == balances[k]);
            lemma_slot_is_unique(after, other, k);
        } else {
            if holds(after, other) {
                let k = slot(after, other);
                assert(balances[k].0 == other);
            }
        }
    }
}

/// What a transfer does, where the source holds the amount: the sum stays
/// the same and the entries stay distinct.
pub proof fn lemma_moved(balances: Balances, from: Seq<char>, to: Seq<char>, amount: nat)
    requires
        distinct(balances),
        amount <= balance_of(balances, from),
    ensures
        distinct(moved(balances, from, to, amount)),
        total(moved(balances, from, to, amount)) == total(balances),
{
    lemma_debited(balances, from, amount);
    lemma_credited(debited(balances, from, amount), to, amount);
}

/// An operation that changes the ledger.
pub enum LedgerOp {
    /// New tokens for `to`.
    Mint { to: Seq<char>, amount: nat },
    /// Tokens of `from` that cease to exist.
    Burn { from: Seq<char>, amount: nat },
    /// Tokens that go from `from` to `to`.
    Transfer { from: Seq<char>, to: Seq<char>, amount: nat },
}

/// Whether the ledger carries the operation out: a mint unless the supply
/// would no longer fit in 128 bits, a burn or a transfer if the source holds
/// the amount.
pub open spec fn accepted(balances: Balances, op: LedgerOp) -> bool {
    match op {
        LedgerOp::Mint { to, amount } => total(balances) + amount <= u128::MAX,
        LedgerOp::Burn { from, amount } => amount <= balance_of(balances, from),
        LedgerOp::Transfer { from, to, amount } => amount <= balance_of(balances, from),
    }
}

/// The balances after the operation. One that is refused changes nothing.
pub open spec fn applied(balances: Balances, op: LedgerOp) -> Balances {
    if !accepted(balances, op) {
        balances
    } else {
        match op {
            LedgerOp::Mint { to, amount } => credited(balances, to, amount),
            LedgerOp::Burn { from, amount } => debited(balances, from, amount),
            LedgerOp::Transfer { from, to, amount } => moved(balances, from, to, amount),
        }
    }
}

/// The balances of a ledger that started empty and saw `ops`, in this order.
pub open spec fn balances_after(ops: Seq<LedgerOp>) -> Balances
    decreases ops.len(),
{
    if ops.len() == 0 {
        Seq::empty()
    } else {
        applied(balances_after(ops.drop_last()), ops.last())
    }
}

/// The sum of the amounts of the mints among `ops` that were carried out.
pub open spec fn minted(ops: Seq<LedgerOp>) -> nat
    decreases ops.len(),
{
    if ops.len() == 0 {
        0
    } else {
        let earlier = ops.drop_last();
        match ops.last() {
            LedgerOp::Mint { to, amount } if accepted(balances_after(earlier), ops.last()) => minted(
                earlier,
            ) + amount,
            _ => minted(earlier),
        }
    }
}

/// The sum of the amounts of the burns among `ops` that were carried out.
pub open spec fn burned(ops: Seq<LedgerOp>) -> nat
    decreases ops.len(),
{
    if ops.len() == 0 {
        0
    } else {
        let earlier = ops.drop_last();
        match ops.last() {
            LedgerOp::Burn { from, amount } if accepted(balances_after(earlier), ops.last()) => burned(
                earlier,
            ) + amount,
            _ => burned(earlier),
        }
    }
}

/// Conservation of supply: after any sequence of mints, burns and transfers
/// on a ledger that started empty, the balances add up to what was minted
/// less what was burned, and no account has two entries.
pub proof fn lemma_supply_is_minted_less_burned(ops: Seq<LedgerOp>)
    ensures
        distinct(balances_after(ops)),
        total(balances_after(ops)) + burned(ops) == minted(ops),
        total(balances_after(ops)) <= u128::MAX,
    decreases ops.len(),
{
    if ops.len() > 0 {
        let earlier = ops.drop_last();
        let before = balances_after(earlier);
        lemma_supply_is_minted_less_burned(earlier);
        if accepted(before, ops.last()) {
            match ops.last() {
                LedgerOp::Mint { to, amount } => {
                    lemma_credited(before, to, amount);
                },
                LedgerOp::Burn { from, amount } => {
                    lemma_debited(before, from, amount);
                },
                LedgerOp::Transfer { from, to, amount } => {
                    lemma_moved(before, from, to, amount);
                },
            }
        }
    }
}

/// A burn or a transfer of more than the source holds is refused and leaves
/// every balance as it was.
pub proof fn lemma_overdraft_changes_nothing(balances: Balances, op: LedgerOp)
    requires
        match op {
            LedgerOp::Mint { to, amount } => false,
            LedgerOp::Burn { from, amount } => amount > balance_of(balances, from),
            LedgerOp::Transfer { from, to, amount } => amount > balance_of(balances, from),
        },
    ensures
        !accepted(balances, op),
        applied(balances, op) == balances,
{
}

/// What a transfer between two accounts does to each of them and to any
/// third: the source holds the amount less, the target the amount more, a
/// third as much as before. A transfer to oneself changes no balance.
pub proof fn lemma_moved_balances(
    balances: Balances,
    from: Seq<char>,
    to: Seq<char>,
    amount: nat,
    other: Seq<char>,
)
    requires
        distinct(balances),
        amount <= balance_of(balances, from),
    ensures
        from != to ==> balance_of(moved(balances, from, to, amount), from) + amount == balance_of(
            balances,
            from,
        ),
        from != to ==> balance_of(moved(balances, from, to, amount), to) == balance_of(
            balances,
            to,
        ) + amount,
        from == to ==> balance_of(moved(balances, from, to, amount), from) == balance_of(
            balances,
            from,
        ),
        other != from && other != to ==> balance_of(moved(balances, from, to, amount), other)
            == balance_of(balances, other),
{
    let middle = debited(balances, from, amount);
    lemma_debited(balances, from, amount);
    lemma_credited(middle, to, amount);
    if from != to {
        lemma_credited_elsewhere(middle, to, amount, from);
        lemma_debited_elsewhere(balances, from, amount, to);
    }
    if other != from && other != to {
        lemma_debited_elsewhere(balances, from, amount, other);
        lemma_credited_elsewhere(middle, to, amount, other);
    }
}

/// One account of the ledger.
#[derive(Clone, Debug, PartialEq, Eq)]
pub struct Account {
    pub address: String,
    pub balance: u128,
}

/// The ledger: the accounts and the total supply.
#[derive(Debug)]
pub struct Ledger {
    accounts: Vec<Account>,
    supply: u128,
}

impl View for Ledger {
    type V = Balances;

    closed spec fn view(&self) -> Balances {
        Seq::new(
            self.accounts@.len(),
            |i: int| (self.accounts@[i].address@, self.accounts@[i].balance as nat),
        )
    }
}

impl Ledger {
    /// No account has two entries, and the supply that the ledger keeps is
    /// the sum of the balances.
    pub closed spec fn wf(&self) -> bool {
        &&& distinct(self@)
        &&& total(self@) == self.supply
    }

    /// What follows from `wf` for a caller: distinct entries, and a sum that
    /// fits in 128 bits.
    pub proof fn lemma_wf(&self)
        requires
            self.wf(),
        ensures
            distinct(self@),
            total(self@) <= u128::MAX,
    {
    }

    /// A ledger without accounts.
    pub fn new() -> (ledger: Self)
        ensures
            ledger.wf(),
            ledger@ == Seq::<(Seq<char>, nat)>::empty(),
    {
        let ledger = Ledger { accounts: Vec::new(), supply: 0 };
        assert(ledger@ =~= Seq::<(Seq<char>, nat)>::empty());
        ledger
    }

    /// The place of the account `who`, if it has an entry.
    fn find(&self, who: &String) -> (found: Option<usize>)
        ensures
            match found {
                Some(i) => i < self@.len() && self@[i as int].0 == who@ && i
                    < self.accounts@.len(),
                None => !holds(self@, who@),
            },
    {
        let mut i: usize = 0;
        while i < self.accounts.len()
            invariant
                i <= self.accounts@.len(),
                self@.len() == self.accounts@.len(),
                forall|j: int| 0 <= j < i ==> (#[trigger] self@[j]).0 != who@,
            decreases self.accounts@.len() - i,
        {
            if self.accounts[i].address == *who {
                return Some(i);
            }
            i += 1;
        }
        None
    }

    /// What `who` holds. An account that the ledger does not know holds nothing.
    pub fn balance(&self, who: &String) -> (amount: u128)
        requires
            self.wf(),
        ensures
            amount == balance_of(self@, who@),
    {
        match self.find(who) {
            Some(i) => {
                proof {
                    lemma_slot_is_unique(self@, who@, i as int);
                }
                self.accounts[i].balance
            },
            None => 0,
        }
    }

    /// The sum of all balances.
    pub fn total_supply(&self) -> (supply: u128)
        requires
            self.wf(),
        ensures
            supply == total(self@),
    {
        self.supply
    }

    /// The accounts with what each holds, in the order of the ledger.
    pub fn accounts(&self) -> (listed: Vec<Account>)
        ensures
            listed@.len() == self@.len(),
            forall|i: int|
                0 <= i < listed@.len() ==> (#[trigger] listed@[i]).address@ == self@[i].0
                    && listed@[i].balance == self@[i].1,
    {
        let mut listed: Vec<Account> = Vec::new();
        let mut i: usize = 0;
        while i < self.accounts.len()
            invariant
                i <= self.accounts@.len(),
                self@.len() == self.accounts@.len(),
                listed@.len() == i,
                forall|j: int|
                    0 <= j < i ==> (#[trigger] listed@[j]).address@ == self@[j].0
                        && listed@[j].balance == self@[j].1,
            decreases self.accounts@.len() - i,
        {
            listed.push(
                Account {
                    address: self.accounts[i].address.clone(),
                    balance: self.accounts[i].balance,
                },
            );
            i += 1;
        }
        listed
    }

    /// Adds `amount` to what `who` holds and to the supply, as a mint does.
    /// Fails with `Overflow`, changing nothing, if the supply would no
    /// longer fit in 128 bits.
    pub fn credit(&mut self, who: &String, amount: u128) -> (done: Result<(), ContractError>)
        requires
            old(self).wf(),
        ensures
            final(self).wf(),
            total(old(self)@) + amount <= u128::MAX ==> done == Ok::<(), ContractError>(())
                && final(self)@ == credited(old(self)@, who@, amount as nat),
            total(old(self)@) + amount > u128::MAX ==> done == Err::<(), ContractError>(
                ContractError::Overflow,
            ) && *final(self) == *old(self),
            final(self)@ == applied(
                old(self)@,
                LedgerOp::Mint { to: who@, amount: amount as nat },
            ),
    {
        if amount > u128::MAX - self.supply {
            return Err(ContractError::Overflow);
        }
        let ghost before = self@;
        proof {
            lemma_credited(before, who@, amount as nat);
        }
        match self.find(who) {
            Some(i) => {
                proof {
                    lemma_slot_is_unique(before, who@, i as int);
                    lemma_balance_within_total(before, i as int);
                }
                let held: u128 = self.accounts[i].balance;
                self.accounts[i].balance = held + amount;
                assert(self@ =~= credited(before, who@, amount as nat));
            },
            None => {
                self.accounts.push(Account { address: who.clone(), balance: amount });
                assert(self@ =~= credited(before, who@, amount as nat));
            },
        }
        self.supply = self.supply + amount;
        Ok(())
    }

    /// Takes `amount` from what `who` holds and from the supply, as a burn
    /// does. Fails with `InsufficientFunds`, changing nothing, if `who` holds
    /// less.
    pub fn debit(&mut self, who: &String, amount: u128) -> (done: Result<(), ContractError>)
        requires
            old(self).wf(),
        ensures
            final(self).wf(),
            amount <= balance_of(old(self)@, who@) ==> done == Ok::<(), ContractError>(())
                && final(self)@ == debited(old(self)@, who@, amount as nat),
            amount > balance_of(old(self)@, who@) ==> done == Err::<(), ContractError>(
                ContractError::InsufficientFunds,
            ) && *final(self) == *old(self),
            final(self)@ == applied(
                old(self)@,
                LedgerOp::Burn { from: who@, amount: amount as nat },
            ),
    {
        let ghost before = self@;
        match self.find(who) {
            Some(i) => {
                proof {
                    lemma_slot_is_unique(before, who@, i as int);
                    lemma_balance_within_total(before, i as int);
                }
                let held: u128 = self.accounts[i].balance;
                if held < amount {
                    return Err(ContractError::InsufficientFunds);
                }
                proof {
                    lemma_debited(before, who@, amount as nat);
                }
                self.accounts[i].balance = held - amount;
                self.supply = self.supply - amount;
                assert(self@ =~= debited(before, who@, amount as nat));
                Ok(())
            },
            None => {
                if amount > 0 {
                    return Err(ContractError::InsufficientFunds);
                }
                Ok(())
            },
        }
    }

    /// Moves `amount` from `from` to `to`; the supply stays the same. Fails
    /// with `InsufficientFunds`, changing nothing, if `from` holds less: no
    /// part of the amount is moved.
    pub fn transfer(&mut self, from: &String, to: &String, amount: u128) -> (done: Result<
        (),
        ContractError,
    >)
        requires
            old(self).wf(),
        ensures
            final(self).wf(),
            amount <= balance_of(old(self)@, from@) ==> done == Ok::<(), ContractError>(())
                && final(self)@ == moved(old(self)@, from@, to@, amount as nat),
            amount > balance_of(old(self)@, from@) ==> done == Err::<(), ContractError>(
                ContractError::InsufficientFunds,
            ) && *final(self) == *old(self),
            final(self)@ == applied(
                old(self)@,
                LedgerOp::Transfer { from: from@, to: to@, amount: amount as nat },
            ),
    {
        proof {
            if amount <= balance_of(self@, from@) {
                lemma_debited(self@, from@, amount as nat);
            }
        }
        match self.debit(from, amount) {
            Ok(()) => {},
            Err(e) => {
                return Err(e);
            },
        }
        self.credit(to, amount)
    }
}

} // verus!
