//! The allowance table: what each owner lets each spender move, and until when.

use vstd::prelude::*;
use crate::assoc::{assoc, lemma_assoc_absent, lemma_assoc_at, lemma_assoc_push, lemma_assoc_update};
use crate::error::ContractError;

verus! {

/// What an owner lets a spender move: the amount that is left, and the time
/// after which nothing is left.
#[derive(Clone, Copy, Debug, PartialEq, Eq, Structural)]
pub struct Allowance {
    pub amount: u128,
    pub expiration: Option<u64>,
}

/// The allowances by owner and spender.
pub type Allowances = Map<(Seq<char>, Seq<char>), Allowance>;

/// The allowance of a pair that was never granted one.
pub open spec fn no_allowance() -> Allowance {
    Allowance { amount: 0, expiration: None }
}

/// An allowance is expired once the time has passed its expiration.
pub open spec fn is_expired(allowance: Allowance, now: u64) -> bool {
    allowance.expiration matches Some(limit) && now > limit
}

/// What the table holds for the pair.
pub open spec fn granted(table: Allowances, owner: Seq<char>, spender: Seq<char>) -> Allowance {
    if table.dom().contains((owner, spender)) {
        table[(owner, spender)]
    } else {
        no_allowance()
    }
}

/// What an allowance is worth at a given time: an expired one counts as none.
pub open spec fn in_force(allowance: Allowance, now: u64) -> Allowance {
    if is_expired(allowance, now) {
        no_allowance()
    } else {
        allowance
    }
}

/// The expiration after a change: the new one if one is given, else the old.
pub open spec fn renewed(expiration: Option<u64>, given: Option<u64>) -> Option<u64> {
    if given is Some {
        given
    } else {
        expiration
    }
}

/// Whether an increase by `amount` still fits in 128 bits.
pub open spec fn increase_fits(allowance: Allowance, amount: u128, now: u64) -> bool {
    in_force(allowance, now).amount + amount <= u128::MAX
}

/// The allowance after an increase by `amount`, where it fits.
pub open spec fn increased(allowance: Allowance, amount: u128, given: Option<u64>, now: u64)
    -> Allowance {
    let current = in_force(allowance, now);
    Allowance {
        amount: (current.amount + amount) as u128,
        expiration: renewed(current.expiration, given),
    }
}

/// The allowance after a decrease by `amount`: never less than nothing.
pub open spec fn decreased(allowance: Allowance, amount: u128, given: Option<u64>, now: u64)
    -> Allowance {
    let current = in_force(allowance, now);
    Allowance {
        amount: if current.amount >= amount {
            (current.amount - amount) as u128
        } else {
            0
        },
        expiration: renewed(current.expiration, given),
    }
}

/// Why the spender may not use `amount` of the allowance, if it may not:
/// the allowance is expired, or less than `amount` is left.
pub open spec fn refusal(allowance: Allowance, amount: u128, now: u64) -> Option<ContractError> {
    if is_expired(allowance, now) {
        Some(ContractError::Expired)
    } else if amount > allowance.amount {
        Some(ContractError::Unauthorized)
    } else {
        None
    }
}

/// The allowance after `amount` of it was used.
pub open spec fn spent(allowance: Allowance, amount: u128) -> Allowance {
    Allowance { amount: (allowance.amount - amount) as u128, expiration: allowance.expiration }
}

/// The pair of an account and the account on the other side of an allowance.
spec fn pair_with(who: Seq<char>, other: Seq<char>, as_owner: bool) -> (Seq<char>, Seq<char>) {
    if as_owner {
        (who, other)
    } else {
        (other, who)
    }
}

/// Whether the pair has the account on the side asked for.
spec fn is_side_of(pair: (Seq<char>, Seq<char>), who: Seq<char>, as_owner: bool) -> bool {
    if as_owner {
        pair.0 == who
    } else {
        pair.1 == who
    }
}

/// The table of allowances.
#[derive(Debug)]
pub struct AllowanceTable {
    owners: Vec<String>,
    spenders: Vec<String>,
    allowances: Vec<Allowance>,
}

impl AllowanceTable {
    /// The pairs of the table, in the order in which they were first granted.
    spec fn pairs(&self) -> Seq<(Seq<char>, Seq<char>)> {
        Seq::new(self.owners@.len(), |i: int| (self.owners@[i]@, self.spenders@[i]@))
    }

    /// Each pair has one entry.
    pub closed spec fn wf(&self) -> bool {
        &&& self.owners@.len() == self.spenders@.len()
        &&& self.owners@.len() == self.allowances@.len()
        &&& self.pairs().no_duplicates()
    }
}

impl View for AllowanceTable {
    type V = Allowances;

    closed spec fn view(&self) -> Allowances {
        assoc(self.pairs(), self.allowances@)
    }
}

impl AllowanceTable {
    /// A table without allowances.
    pub fn new() -> (table: Self)
        ensures
            table.wf(),
            table@ == Map::<(Seq<char>, Seq<char>), Allowance>::empty(),
    {
        let table = AllowanceTable {
            owners: Vec::new(),
            spenders: Vec::new(),
            allowances: Vec::new(),
        };
        assert(table@ =~= Map::<(Seq<char>, Seq<char>), Allowance>::empty());
        table
    }

    /// The place of the pair, if it has an entry.
    fn find(&self, owner: &String, spender: &String) -> (found: Option<usize>)
        requires
            self.wf(),
        ensures
            match found {
                Some(i) => i < self.pairs().len() && self.pairs()[i as int] == (owner@, spender@)
                    && self@.dom().contains((owner@, spender@)) && self@[(owner@, spender@)]
                    == self.allowances@[i as int],
                None => !self.pairs().contains((owner@, spender@)) && !self@.dom().contains(
                    (owner@, spender@),
                ),
            },
    {
        let mut i: usize = 0;
        while i < self.owners.len()
            invariant
                self.wf(),
                i <= self.owners@.len(),
                forall|j: int| 0 <= j < i ==> self.pairs()[j] != (owner@, spender@),
            decreases self.owners@.len() - i,
        {
            if self.owners[i] == *owner && self.spenders[i] == *spender {
                proof {
                    lemma_assoc_at(self.pairs(), self.allowances@, i as int);
                }
                return Some(i);
            }
            i += 1;
        }
        proof {
            lemma_assoc_absent(self.pairs(), self.allowances@, (owner@, spender@));
        }
        None
    }

    /// Puts `allowance` in the place of what the pair had.
    fn put(&mut self, owner: &String, spender: &String, allowance: Allowance)
        requires
            old(self).wf(),
        ensures
            final(self).wf(),
            final(self)@ == old(self)@.insert((owner@, spender@), allowance),
    {
        let ghost pairs = self.pairs();
        let ghost held = self.allowances@;
        match self.find(owner, spender) {
            Some(i) => {
                self.allowances[i] = allowance;
                proof {
                    assert(self.pairs() =~= pairs);
                    lemma_assoc_update(pairs, held, i as int, allowance);
                }
            },
            None => {
                self.owners.push(owner.clone());
                self.spenders.push(spender.clone());
                self.allowances.push(allowance);
                proof {
                    assert(self.pairs() =~= pairs.push((owner@, spender@)));
                    lemma_assoc_push(pairs, held, (owner@, spender@), allowance);
                }
            },
        }
    }

    /// What the table holds for the pair, expired or not.
    fn get(&self, owner: &String, spender: &String) -> (allowance: Allowance)
        requires
            self.wf(),
        ensures
            allowance == granted(self@, owner@, spender@),
    {
        match self.find(owner, spender) {
            Some(i) => self.allowances[i],
            None => Allowance { amount: 0, expiration: None },
        }
    }

    /// The entries of one account: those that it granted if `as_owner`, those
    /// that it received if not, each with the account on the other side.
    fn entries_of(&self, who: &String, as_owner: bool) -> (listed: Vec<(String, Allowance)>)
        requires
            self.wf(),
        ensures
            forall|k: int|
                0 <= k < listed@.len() ==> self@.dom().contains(
                    pair_with(who@, (#[trigger] listed@[k]).0@, as_owner),
                ) && self@[pair_with(who@, listed@[k].0@, as_owner)] == listed@[k].1,
            forall|other: Seq<char>|
                self@.dom().contains(#[trigger] pair_with(who@, other, as_owner)) ==> exists|k: int|
                    0 <= k < listed@.len() && (#[trigger] listed@[k]).0@ == other,
            forall|a: int, b: int|
                0 <= a < b < listed@.len() ==> (#[trigger] listed@[a]).0@ != (
                #[trigger] listed@[b]).0@,
    {
        let mut listed: Vec<(String, Allowance)> = Vec::new();
        let ghost mut places: Seq<int> = Seq::empty();
        let mut i: usize = 0;
        while i < self.owners.len()
            invariant
                self.wf(),
                i <= self.owners@.len(),
                places.len() == listed@.len(),
                forall|k: int|
                    0 <= k < places.len() ==> 0 <= #[trigger] places[k] < i && self.pairs()[places[k]]
                        == pair_with(who@, listed@[k].0@, as_owner) && self.allowances@[places[k]]
                        == listed@[k].1,
                forall|a: int, b: int|
                    0 <= a < b < places.len() ==> (#[trigger] places[a]) < (#[trigger] places[b]),
                forall|j: int|
                    0 <= j < i && is_side_of(#[trigger] self.pairs()[j], who@, as_owner)
                        ==> exists|k: int| 0 <= k < places.len() && #[trigger] places[k] == j,
            decreases self.owners@.len() - i,
        {
            let mine = if as_owner {
                self.owners[i] == *who
            } else {
                self.spenders[i] == *who
            };
            let ghost before = places;
            if mine {
                let other = if as_owner {
                    self.spenders[i].clone()
                } else {
                    self.owners[i].clone()
                };
                listed.push((other, self.allowances[i]));
                proof {
                    places = places.push(i as int);
                }
            }
            proof {
                assert forall|j: int|
                    0 <= j < i + 1 && is_side_of(
                        #[trigger] self.pairs()[j],
                        who@,
                        as_owner,
                    ) implies exists|k: int| 0 <= k < places.len() && #[trigger] places[k] == j by {
                    if j < i {
                        let k = choose|k: int| 0 <= k < before.len() && #[trigger] before[k] == j;
                        assert(places[k] == j);
                    } else {
                        assert(mine);
                        assert(places[before.len() as int] == j);
                    }
                }
            }
            i += 1;
        }
        proof {
            let pairs = self.pairs();
            assert forall|k: int| 0 <= k < listed@.len() implies self@.dom().contains(
                pair_with(who@, (#[trigger] listed@[k]).0@, as_owner),
            ) && self@[pair_with(who@, listed@[k].0@, as_owner)] == listed@[k].1 by {
                lemma_assoc_at(pairs, self.allowances@, places[k]);
            }
            assert forall|other: Seq<char>|
                self@.dom().contains(
                    #[trigger] pair_with(who@, other, as_owner),
                ) implies exists|k: int|
                0 <= k < listed@.len() && (#[trigger] listed@[k]).0@ == other by {
                let pair = pair_with(who@, other, as_owner);
                assert(pairs.contains(pair));
                let j = pairs.index_of(pair);
                assert(0 <= j < pairs.len() && pairs[j] == pair);
                assert(is_side_of(pairs[j], who@, as_owner));
                let k = choose|k: int| 0 <= k < places.len() && #[trigger] places[k] == j;
                assert(pair_with(who@, listed@[k].0@, as_owner) == pair);
                assert(listed@[k].0@ == other);
            }
            assert forall|a: int, b: int| 0 <= a < b < listed@.len() implies (
            #[trigger] listed@[a]).0@ != (#[trigger] listed@[b]).0@ by {
                assert(places[a] < places[b]);
                assert(pairs[places[a]] != pairs[places[b]]);
            }
        }
        listed
    }

    /// The allowances that `owner` granted: each spender once, with what the
    /// table holds for it, expired or not.
    pub fn granted_by(&self, owner: &String) -> (listed: Vec<(String, Allowance)>)
        requires
            self.wf(),
        ensures
            forall|k: int|
                0 <= k < listed@.len() ==> self@.dom().contains(
                    (owner@, (#[trigger] listed@[k]).0@),
                ) && self@[(owner@, listed@[k].0@)] == listed@[k].1,
            forall|spender: Seq<char>|
                self@.dom().contains((owner@, spender)) ==> exists|k: int|
                    0 <= k < listed@.len() && (#[trigger] listed@[k]).0@ == spender,
            forall|a: int, b: int|
                0 <= a < b < listed@.len() ==> (#[trigger] listed@[a]).0@ != (
                #[trigger] listed@[b]).0@,
    {
        let listed = self.entries_of(owner, true);
        proof {
            assert forall|spender: Seq<char>| self@.dom().contains((owner@, spender)) implies exists|
                k: int,
            | 0 <= k < listed@.len() && (#[trigger] listed@[k]).0@ == spender by {
                assert(pair_with(owner@, spender, true) == (owner@, spender));
            }
        }
        listed
    }

    /// The allowances that `spender` received: each owner once, with what
    /// the table holds for it, expired or not.
    pub fn received_by(&self, spender: &String) -> (listed: Vec<(String, Allowance)>)
        requires
            self.wf(),
        ensures
            forall|k: int|
                0 <= k < listed@.len() ==> self@.dom().contains(
                    ((#[trigger] listed@[k]).0@, spender@),
                ) && self@[(listed@[k].0@, spender@)] == listed@[k].1,
            forall|owner: Seq<char>|
                self@.dom().contains((owner, spender@)) ==> exists|k: int|
                    0 <= k < listed@.len() && (#[trigger] listed@[k]).0@ == owner,
            forall|a: int, b: int|
                0 <= a < b < listed@.len() ==> (#[trigger] listed@[a]).0@ != (
                #[trigger] listed@[b]).0@,
    {
        let listed = self.entries_of(spender, false);
        proof {
            assert forall|owner: Seq<char>| self@.dom().contains((owner, spender@)) implies exists|
                k: int,
            | 0 <= k < listed@.len() && (#[trigger] listed@[k]).0@ == owner by {
                assert(pair_with(spender@, owner, false) == (owner, spender@));
            }
        }
        listed
    }

    /// What `spender` may move of the tokens of `owner` at the time `now`.
    /// An expired allowance counts as none.
    pub fn allowance(&self, owner: &String, spender: &String, now: u64) -> (allowance: Allowance)
        requires
            self.wf(),
        ensures
            allowance == in_force(granted(self@, owner@, spender@), now),
    {
        let held = self.get(owner, spender);
        if expired(&held, now) {
            Allowance { amount: 0, expiration: None }
        } else {
            held
        }
    }

    /// Lets `spender` move `amount` more, and sets the expiration if one is
    /// given. What is left of an expired allowance counts as nothing. Fails
    /// with `Overflow`, changing nothing, if the sum does not fit in 128 bits.
    pub fn increase_allowance(
        &mut self,
        owner: &String,
        spender: &String,
        amount: u128,
        expiration: Option<u64>,
        now: u64,
    ) -> (result: Result<Allowance, ContractError>)
        requires
            old(self).wf(),
        ensures
            final(self).wf(),
            increase_fits(granted(old(self)@, owner@, spender@), amount, now) ==> result == Ok::<
                Allowance,
                ContractError,
            >(increased(granted(old(self)@, owner@, spender@), amount, expiration, now))
                && final(self)@ == old(self)@.insert((owner@, spender@), result->Ok_0),
            !increase_fits(granted(old(self)@, owner@, spender@), amount, now) ==> result == Err::<
                Allowance,
                ContractError,
            >(ContractError::Overflow) && *final(self) == *old(self),
    {
        let current = self.allowance(owner, spender, now);
        if amount > u128::MAX - current.amount {
            return Err(ContractError::Overflow);
        }
        let next = Allowance {
            amount: current.amount + amount,
            expiration: if expiration.is_some() {
                expiration
            } else {
                current.expiration
            },
        };
        self.put(owner, spender, next);
        Ok(next)
    }

    /// Lets `spender` move `amount` less, but never less than nothing, and
    /// sets the expiration if one is given. What is left of an expired
    /// allowance counts as nothing.
    pub fn decrease_allowance(
        &mut self,
        owner: &String,
        spender: &String,
        amount: u128,
        expiration: Option<u64>,
        now: u64,
    ) -> (result: Allowance)
        requires
            old(self).wf(),
        ensures
            final(self).wf(),
            result == decreased(granted(old(self)@, owner@, spender@), amount, expiration, now),
            final(self)@ == old(self)@.insert((owner@, spender@), result),
    {
        let current = self.allowance(owner, spender, now);
        let next = Allowance {
            amount: if current.amount >= amount {
                current.amount - amount
            } else {
                0
            },
            expiration: if expiration.is_some() {
                expiration
            } else {
                current.expiration
            },
        };
        self.put(owner, spender, next);
        next
    }

    /// Whether `spender` may use `amount` of what `owner` lets it move, at the
    /// time `now`. Nothing is used up.
    pub fn check_allowance(&self, owner: &String, spender: &String, amount: u128, now: u64) -> (result:
        Result<(), ContractError>)
        requires
            self.wf(),
        ensures
            match refusal(granted(self@, owner@, spender@), amount, now) {
                Some(e) => result == Err::<(), ContractError>(e),
                None => result == Ok::<(), ContractError>(()),
            },
    {
        let held = self.get(owner, spender);
        if expired(&held, now) {
            Err(ContractError::Expired)
        } else if amount > held.amount {
            Err(ContractError::Unauthorized)
        } else {
            Ok(())
        }
    }

    /// Uses `amount` of what `spender` may move of the tokens of `owner`.
    /// Fails with `Expired` if the allowance is expired and with
    /// `Unauthorized` if less than `amount` is left; a failure changes
    /// nothing. Whether `owner` holds the tokens is not looked at here.
    pub fn consume_allowance(
        &mut self,
        owner: &String,
        spender: &String,
        amount: u128,
        now: u64,
    ) -> (result: Result<(), ContractError>)
        requires
            old(self).wf(),
        ensures
            final(self).wf(),
            match refusal(granted(old(self)@, owner@, spender@), amount, now) {
                Some(e) => result == Err::<(), ContractError>(e) && *final(self) == *old(self),
                None => result == Ok::<(), ContractError>(()) && final(self)@ == old(self)@.insert(
                    (owner@, spender@),
                    spent(granted(old(self)@, owner@, spender@), amount),
                ),
            },
    {
        let held = self.get(owner, spender);
        if expired(&held, now) {
            return Err(ContractError::Expired);
        }
        if amount > held.amount {
            return Err(ContractError::Unauthorized);
        }
        self.put(
            owner,
            spender,
            Allowance { amount: held.amount - amount, expiration: held.expiration },
        );
        Ok(())
    }
}

/// Whether the allowance is expired at the time `now`.
pub fn expired(allowance: &Allowance, now: u64) -> (gone: bool)
    ensures
        gone == is_expired(*allowance, now),
{
    match allowance.expiration {
        Some(limit) => now > limit,
        None => false,
    }
}

/// A decrease never leaves less than nothing: one by at least what is left
/// leaves exactly nothing, any other leaves the difference.
pub proof fn lemma_decrease_saturates(
    allowance: Allowance,
    amount: u128,
    given: Option<u64>,
    now: u64,
)
    ensures
        decreased(allowance, amount, given, now).amount >= 0,
        amount >= in_force(allowance, now).amount ==> decreased(allowance, amount, given, now).amount
            == 0,
        amount < in_force(allowance, now).amount ==> decreased(allowance, amount, given, now).amount
            == in_force(allowance, now).amount - amount,
{
}

/// An increase followed by a larger decrease leaves nothing, and nothing can
/// be used of what is left: any use of more than nothing is refused.
pub proof fn lemma_nothing_left_after_larger_decrease(
    allowance: Allowance,
    up: u128,
    down: u128,
    use_of: u128,
    now: u64,
)
    requires
        increase_fits(allowance, up, now),
        down >= in_force(allowance, now).amount + up,
        use_of > 0,
    ensures
        decreased(increased(allowance, up, None, now), down, None, now).amount == 0,
        refusal(decreased(increased(allowance, up, None, now), down, None, now), use_of, now)
            is Some,
{
}

/// A use of the allowance that is accepted leaves exactly that much less.
pub proof fn lemma_spent_is_less(allowance: Allowance, amount: u128, now: u64)
    requires
        refusal(allowance, amount, now) is None,
    ensures
        spent(allowance, amount).amount + amount == allowance.amount,
        spent(allowance, amount).expiration == allowance.expiration,
{
}

} // verus!
