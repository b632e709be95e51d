//! The token as one store: the ledger, the allowances, the log, the viewing
//! keys and the revoked permits, with the commands that move tokens and the
//! queries that a viewing key or a permit opens. A command that is refused
//! leaves the whole store as it was; one that is carried out adds exactly
//! one record to the log.

use vstd::prelude::*;
use vstd::string::StringExecFns;
use crate::allowance::{granted, in_force, refusal, spent, AllowanceTable};
use crate::error::ContractError;
use crate::ledger::{balance_of, credited, debited, moved, total, Ledger};
use crate::msg::QueryAnswer;
use crate::permit::{
    check_permit, is_listed, lists, permit_in_force, Permission, Permit, RevokedPermits,
};
use crate::transaction_history::{
    next_record, page_of, shown, tx_of, BlockInfo, Coin, History, RichTx, TxAction,
};
use crate::viewing_key::{accepts, derived_key, with_key, KeyTable, Keys, ViewingKey};

verus! {

/// What a caller presents to read an account: the account's viewing key, or
/// a permit that the account signed.
#[derive(Clone, Debug, PartialEq, Eq)]
pub enum Credential {
    /// The address of the account and its viewing key.
    ViewingKey { address: String, key: String },
    /// A permit, the account that its public key belongs to, and whether
    /// its signature was found valid for that key.
    Permit { permit: Permit, signer: String, signature_valid: bool },
}

/// The account that a credential opens, if it opens one: the account named
/// with its own viewing key, or the signer of a permit in force that lists
/// the permission needed.
pub open spec fn account_opened(
    keys: Keys,
    revoked: Set<(Seq<char>, Seq<char>)>,
    token: Seq<char>,
    credential: Credential,
    needed: Permission,
) -> Option<Seq<char>> {
    match credential {
        Credential::ViewingKey { address, key } => if accepts(keys, address@, key@) {
            Some(address@)
        } else {
            None
        },
        Credential::Permit { permit, signer, signature_valid } => if permit_in_force(
            revoked,
            permit,
            signer@,
            signature_valid,
            token,
            needed,
        ) {
            Some(signer@)
        } else {
            None
        },
    }
}

/// The one answer to every query whose credential opens nothing. It says
/// the same whether the account exists or not.
pub open spec fn is_refusal(answer: QueryAnswer) -> bool {
    answer matches QueryAnswer::ViewingKeyError { msg } && msg@
        == "Wrong viewing key for this address or viewing key not set"@
}

/// The page asked for: the first one, if none is named.
pub open spec fn page_number(page: Option<u32>) -> nat {
    match page {
        Some(n) => n as nat,
        None => 0,
    }
}

/// The token.
#[derive(Debug)]
pub struct Token {
    pub name: String,
    pub symbol: String,
    pub decimals: u8,
    /// The address of the token, for which permits are made out.
    pub address: String,
    /// Whether the total supply is shown to anyone who asks.
    pub public_total_supply: bool,
    /// The seed from which viewing keys are derived.
    pub prng_seed: Vec<u8>,
    /// The accounts that may mint.
    pub minters: Vec<String>,
    pub ledger: Ledger,
    pub allowances: AllowanceTable,
    pub history: History,
    pub keys: KeyTable,
    pub revoked: RevokedPermits,
}

impl Token {
    /// Every part of the store is well formed.
    pub open spec fn wf(&self) -> bool {
        &&& self.ledger.wf()
        &&& self.allowances.wf()
        &&& self.history.wf()
        &&& self.keys.wf()
        &&& self.revoked.wf()
    }

    /// The two stores have the same name, symbol, decimals, address, seed,
    /// minters, viewing keys, revoked permits and page limit.
    pub open spec fn same_settings_and_keys(&self, other: &Token) -> bool {
        &&& self.name == other.name
        &&& self.symbol == other.symbol
        &&& self.decimals == other.decimals
        &&& self.address == other.address
        &&& self.public_total_supply == other.public_total_supply
        &&& self.prng_seed == other.prng_seed
        &&& self.minters == other.minters
        &&& self.keys == other.keys
        &&& self.revoked == other.revoked
        &&& self.history.page_limit() == other.history.page_limit()
    }

    /// The record of a movement of `amount` tokens in `block`.
    pub open spec fn record_of(
        &self,
        action: TxAction,
        amount: u128,
        memo: Option<String>,
        block: BlockInfo,
    ) -> RichTx {
        next_record(self.history@, action, Coin { denom: self.symbol, amount }, memo, block)
    }

    /// The account that the credential opens, if it opens one.
    pub open spec fn opened(&self, credential: Credential, needed: Permission) -> Option<
        Seq<char>,
    > {
        account_opened(self.keys@, self.revoked@, self.address@, credential, needed)
    }

    /// A token without accounts, allowances, records or keys.
    pub fn new(
        name: String,
        symbol: String,
        decimals: u8,
        address: String,
        public_total_supply: bool,
        prng_seed: Vec<u8>,
        minters: Vec<String>,
        max_page_size: u32,
    ) -> (token: Self)
        ensures
            token.wf(),
            token.name == name,
            token.symbol == symbol,
            token.decimals == decimals,
            token.address == address,
            token.public_total_supply == public_total_supply,
            token.prng_seed == prng_seed,
            token.minters == minters,
            token.ledger@ == Seq::<(Seq<char>, nat)>::empty(),
            token.allowances@ == Map::<(Seq<char>, Seq<char>), crate::allowance::Allowance>::empty(),
            token.history@ == Seq::<RichTx>::empty(),
            token.history.page_limit() == max_page_size,
            token.keys@ == Map::<Seq<char>, Seq<u8>>::empty(),
            token.revoked@ == Set::<(Seq<char>, Seq<char>)>::empty(),
    {
        Token {
            name,
            symbol,
            decimals,
            address,
            public_total_supply,
            prng_seed,
            minters,
            ledger: Ledger::new(),
            allowances: AllowanceTable::new(),
            history: History::new(max_page_size),
            keys: KeyTable::new(),
            revoked: RevokedPermits::new(),
        }
    }

    /// Adds the record of a movement to the log.
    fn record(&mut self, action: TxAction, amount: u128, memo: Option<String>, block: &BlockInfo)
        requires
            old(self).history.wf(),
        ensures
            final(self).history.wf(),
            final(self).history@ == old(self).history@.push(
                old(self).record_of(action, amount, memo, *block),
            ),
            final(self).same_settings_and_keys(old(self)),
            final(self).ledger == old(self).ledger,
            final(self).allowances == old(self).allowances,
    {
        let coins = Coin { denom: self.symbol.clone(), amount };
        self.history.append(action, coins, memo, block);
    }

    /// Moves `amount` tokens from `sender` to `recipient`. Fails with
    /// `InsufficientFunds` if `sender` holds less.
    pub fn transfer(
        &mut self,
        block: &BlockInfo,
        sender: &String,
        recipient: &String,
        amount: u128,
        memo: Option<String>,
    ) -> (done: Result<(), ContractError>)
        requires
            old(self).wf(),
        ensures
            final(self).wf(),
            done is Err ==> *final(self) == *old(self),
            amount > balance_of(old(self).ledger@, sender@) ==> done == Err::<(), ContractError>(
                ContractError::InsufficientFunds,
            ),
            amount <= balance_of(old(self).ledger@, sender@) ==> {
                &&& done == Ok::<(), ContractError>(())
                &&& final(self).ledger@ == moved(
                    old(self).ledger@,
                    sender@,
                    recipient@,
                    amount as nat,
                )
                &&& final(self).history@ == old(self).history@.push(
                    old(self).record_of(
                        TxAction::Transfer {
                            from: *sender,
                            sender: *sender,
                            recipient: *recipient,
                        },
                        amount,
                        memo,
                        *block,
                    ),
                )
                &&& final(self).allowances == old(self).allowances
                &&& final(self).same_settings_and_keys(old(self))
            },
    {
        match self.ledger.transfer(sender, recipient, amount) {
            Ok(()) => {},
            Err(e) => {
                return Err(e);
            },
        }
        let action = TxAction::Transfer {
            from: sender.clone(),
            sender: sender.clone(),
            recipient: recipient.clone(),
        };
        self.record(action, amount, memo, block);
        Ok(())
    }

    /// Makes `amount` new tokens for `recipient`. Fails with `Unauthorized`
    /// if `minter` is not one of the minters, and with `Overflow` if the
    /// supply would no longer fit in 128 bits.
    pub fn mint(
        &mut self,
        block: &BlockInfo,
        minter: &String,
        recipient: &String,
        amount: u128,
        memo: Option<String>,
    ) -> (done: Result<(), ContractError>)
        requires
            old(self).wf(),
        ensures
            final(self).wf(),
            done is Err ==> *final(self) == *old(self),
            !lists(old(self).minters@, minter@) ==> done == Err::<(), ContractError>(
                ContractError::Unauthorized,
            ),
            lists(old(self).minters@, minter@) && total(old(self).ledger@) + amount > u128::MAX
                ==> done == Err::<(), ContractError>(ContractError::Overflow),
            lists(old(self).minters@, minter@) && total(old(self).ledger@) + amount <= u128::MAX
                ==> {
                &&& done == Ok::<(), ContractError>(())
                &&& final(self).ledger@ == credited(old(self).ledger@, recipient@, amount as nat)
                &&& final(self).history@ == old(self).history@.push(
                    old(self).record_of(
                        TxAction::Mint { minter: *minter, recipient: *recipient },
                        amount,
                        memo,
                        *block,
                    ),
                )
                &&& final(self).allowances == old(self).allowances
                &&& final(self).same_settings_and_keys(old(self))
            },
    {
        if !is_listed(&self.minters, minter) {
            return Err(ContractError::Unauthorized);
        }
        match self.ledger.credit(recipient, amount) {
            Ok(()) => {},
            Err(e) => {
                return Err(e);
            },
        }
        let action = TxAction::Mint { minter: minter.clone(), recipient: recipient.clone() };
        self.record(action, amount, memo, block);
        Ok(())
    }

    /// Destroys `amount` tokens of `owner`. Fails with `InsufficientFunds`
    /// if `owner` holds less.
    pub fn burn(
        &mut self,
        block: &BlockInfo,
        owner: &String,
        amount: u128,
        memo: Option<String>,
    ) -> (done: Result<(), ContractError>)
        requires
            old(self).wf(),
        ensures
            final(self).wf(),
            done is Err ==> *final(self) == *old(self),
            amount > balance_of(old(self).ledger@, owner@) ==> done == Err::<(), ContractError>(
                ContractError::InsufficientFunds,
            ),
            amount <= balance_of(old(self).ledger@, owner@) ==> {
                &&& done == Ok::<(), ContractError>(())
                &&& final(self).ledger@ == debited(old(self).ledger@, owner@, amount as nat)
                &&& final(self).history@ == old(self).history@.push(
                    old(self).record_of(
                        TxAction::Burn { burner: *owner, owner: *owner },
                        amount,
                        memo,
                        *block,
                    ),
                )
                &&& final(self).allowances == old(self).allowances
                &&& final(self).same_settings_and_keys(old(self))
            },
    {
        match self.ledger.debit(owner, amount) {
            Ok(()) => {},
            Err(e) => {
                return Err(e);
            },
        }
        let action = TxAction::Burn { burner: owner.clone(), owner: owner.clone() };
        self.record(action, amount, memo, block);
        Ok(())
    }

    /// Moves `amount` tokens of `owner` to `recipient` on behalf of
    /// `spender`, and uses up that much of the allowance. Fails with
    /// `Expired` if the allowance is expired, with `Unauthorized` if less
    /// than `amount` is left of it, and with `InsufficientFunds` if the
    /// allowance is enough but `owner` holds less.
    pub fn transfer_from(
        &mut self,
        block: &BlockInfo,
        spender: &String,
        owner: &String,
        recipient: &String,
        amount: u128,
        memo: Option<String>,
    ) -> (done: Result<(), ContractError>)
        requires
            old(self).wf(),
        ensures
            final(self).wf(),
            done is Err ==> *final(self) == *old(self),
            match refusal(granted(old(self).allowances@, owner@, spender@), amount, block.time) {
                Some(e) => done == Err::<(), ContractError>(e),
                None => if amount > balance_of(old(self).ledger@, owner@) {
                    done == Err::<(), ContractError>(ContractError::InsufficientFunds)
                } else {
                    &&& done == Ok::<(), ContractError>(())
                    &&& final(self).allowances@ == old(self).allowances@.insert(
                        (owner@, spender@),
                        spent(granted(old(self).allowances@, owner@, spender@), amount),
                    )
                    &&& final(self).ledger@ == moved(
                        old(self).ledger@,
                        owner@,
                        recipient@,
                        amount as nat,
                    )
                    &&& final(self).history@ == old(self).history@.push(
                        old(self).record_of(
                            TxAction::Transfer {
                                from: *owner,
                                sender: *spender,
                                recipient: *recipient,
                            },
                            amount,
                            memo,
                            *block,
                        ),
                    )
                    &&& final(self).same_settings_and_keys(old(self))
                },
            },
    {
        match self.allowances.check_allowance(owner, spender, amount, block.time) {
            Ok(()) => {},
            Err(e) => {
                return Err(e);
            },
        }
        if self.ledger.balance(owner) < amount {
            return Err(ContractError::InsufficientFunds);
        }
        let used = self.allowances.consume_allowance(owner, spender, amount, block.time);
        let moved = self.ledger.transfer(owner, recipient, amount);
        assert(used is Ok && moved is Ok);
        let action = TxAction::Transfer {
            from: owner.clone(),
            sender: spender.clone(),
            recipient: recipient.clone(),
        };
        self.record(action, amount, memo, block);
        Ok(())
    }

    /// Destroys `amount` tokens of `owner` on behalf of `spender`, and uses
    /// up that much of the allowance. Fails as `transfer_from` does.
    pub fn burn_from(
        &mut self,
        block: &BlockInfo,
        spender: &String,
        owner: &String,
        amount: u128,
        memo: Option<String>,
    ) -> (done: Result<(), ContractError>)
        requires
            old(self).wf(),
        ensures
            final(self).wf(),
            done is Err ==> *final(self) == *old(self),
            match refusal(granted(old(self).allowances@, owner@, spender@), amount, block.time) {
                Some(e) => done == Err::<(), ContractError>(e),
                None => if amount > balance_of(old(self).ledger@, owner@) {
                    done == Err::<(), ContractError>(ContractError::InsufficientFunds)
                } else {
                    &&& done == Ok::<(), ContractError>(())
                    &&& final(self).allowances@ == old(self).allowances@.insert(
                        (owner@, spender@),
                        spent(granted(old(self).allowances@, owner@, spender@), amount),
                    )
                    &&& final(self).ledger@ == debited(old(self).ledger@, owner@, amount as nat)
                    &&& final(self).history@ == old(self).history@.push(
                        old(self).record_of(
                            TxAction::Burn { burner: *spender, owner: *owner },
                            amount,
                            memo,
                            *block,
                        ),
                    )
                    &&& final(self).same_settings_and_keys(old(self))
                },
            },
    {
        match self.allowances.check_allowance(owner, spender, amount, block.time) {
            Ok(()) => {},
            Err(e) => {
                return Err(e);
            },
        }
        if self.ledger.balance(owner) < amount {
            return Err(ContractError::InsufficientFunds);
        }
        let used = self.allowances.consume_allowance(owner, spender, amount, block.time);
        let burned = self.ledger.debit(owner, amount);
        assert(used is Ok && burned is Ok);
        let action = TxAction::Burn { burner: spender.clone(), owner: owner.clone() };
        self.record(action, amount, memo, block);
        Ok(())
    }

    /// Derives a new viewing key for `account` from the seed of the token,
    /// the block and the entropy supplied, and makes it the key of the
    /// account.
    pub fn create_viewing_key(&mut self, block: &BlockInfo, account: &String, entropy: &String) -> (key:
        ViewingKey)
        requires
            old(self).wf(),
        ensures
            final(self).wf(),
            key.0@ == derived_key(old(self).prng_seed@, account@, entropy@, *block),
            final(self).keys@ == with_key(old(self).keys@, account@, key.0@),
            final(self).name == old(self).name,
            final(self).symbol == old(self).symbol,
            final(self).decimals == old(self).decimals,
            final(self).address == old(self).address,
            final(self).public_total_supply == old(self).public_total_supply,
            final(self).prng_seed == old(self).prng_seed,
            final(self).minters == old(self).minters,
            final(self).ledger == old(self).ledger,
            final(self).allowances == old(self).allowances,
            final(self).history == old(self).history,
            final(self).revoked == old(self).revoked,
    {
        self.keys.create_viewing_key(account, &self.prng_seed, entropy, block)
    }

    /// Opens the account that the credential stands for, for a query that
    /// needs the permission `needed`. Every credential that opens nothing
    /// is refused as unauthorized, whatever the reason.
    pub fn authorize(&self, credential: &Credential, needed: Permission) -> (account: Result<
        String,
        ContractError,
    >)
        requires
            self.wf(),
        ensures
            match self.opened(*credential, needed) {
                Some(a) => account is Ok && account->Ok_0@ == a,
                None => account == Err::<String, ContractError>(ContractError::Unauthorized),
            },
    {
        match credential {
            Credential::ViewingKey { address, key } => {
                if self.keys.check_viewing_key(address, key) {
                    Ok(address.clone())
                } else {
                    Err(ContractError::Unauthorized)
                }
            },
            Credential::Permit { permit, signer, signature_valid } => {
                match check_permit(
                    &self.revoked,
                    permit,
                    signer,
                    *signature_valid,
                    &self.address,
                    needed,
                ) {
                    Ok(()) => Ok(signer.clone()),
                    Err(e) => Err(e),
                }
            },
        }
    }

    /// What the account that the credential opens holds. A credential that
    /// opens nothing gets the one refusal and learns nothing of any balance.
    pub fn query_balance(&self, credential: &Credential) -> (answer: QueryAnswer)
        requires
            self.wf(),
        ensures
            match self.opened(*credential, Permission::Balance) {
                Some(a) => answer == (QueryAnswer::Balance {
                    amount: balance_of(self.ledger@, a) as u128,
                }),
                None => is_refusal(answer),
            },
    {
        match self.authorize(credential, Permission::Balance) {
            Ok(account) => {
                proof {
                    self.ledger.lemma_wf();
                    crate::ledger::lemma_balance_fits(self.ledger@, account@);
                }
                QueryAnswer::Balance { amount: self.ledger.balance(&account) }
            },
            Err(_) => refusal_answer(),
        }
    }

    /// What `spender` may move of the tokens of `owner` at the time `now`,
    /// for a credential that opens one of the two accounts. Any other
    /// credential gets the one refusal.
    pub fn query_allowance(
        &self,
        credential: &Credential,
        owner: &String,
        spender: &String,
        now: u64,
    ) -> (answer: QueryAnswer)
        requires
            self.wf(),
        ensures
            match self.opened(*credential, Permission::Allowance) {
                Some(a) if a == owner@ || a == spender@ => answer == (QueryAnswer::Allowance {
                    spender: *spender,
                    owner: *owner,
                    allowance: in_force(granted(self.allowances@, owner@, spender@), now).amount,
                    expiration: in_force(
                        granted(self.allowances@, owner@, spender@),
                        now,
                    ).expiration,
                }),
                _ => is_refusal(answer),
            },
    {
        match self.authorize(credential, Permission::Allowance) {
            Ok(account) => {
                if account == *owner || account == *spender {
                    let allowance = self.allowances.allowance(owner, spender, now);
                    QueryAnswer::Allowance {
                        spender: spender.clone(),
                        owner: owner.clone(),
                        allowance: allowance.amount,
                        expiration: allowance.expiration,
                    }
                } else {
                    refusal_answer()
                }
            },
            Err(_) => refusal_answer(),
        }
    }

    /// One page of the full log of the account that the credential opens,
    /// newest record first, with the number of records that the log shows
    /// to the account. A credential that opens nothing gets the one
    /// refusal, whatever page it asks for. Fails with `InvalidInput` if the
    /// account is opened and `page_size` is above the limit of the log.
    pub fn query_transaction_history(
        &self,
        credential: &Credential,
        page: Option<u32>,
        page_size: u32,
    ) -> (answer: Result<QueryAnswer, ContractError>)
        requires
            self.wf(),
        ensures
            match self.opened(*credential, Permission::History) {
                Some(a) => if page_size > self.history.page_limit() {
                    answer == Err::<QueryAnswer, ContractError>(ContractError::InvalidInput)
                } else {
                    answer matches Ok(QueryAnswer::TransactionHistory { txs, total }) && txs@
                        == page_of(shown(self.history@, a, false), page_number(page), page_size as nat)
                        && total == Some(shown(self.history@, a, false).len() as u64)
                },
                None => answer is Ok && is_refusal(answer->Ok_0),
            },
    {
        match self.authorize(credential, Permission::History) {
            Ok(account) => {
                let number: u32 = match page {
                    Some(n) => n,
                    None => 0,
                };
                match self.history.page(&account, number, page_size) {
                    Ok((txs, total)) => Ok(
                        QueryAnswer::TransactionHistory { txs, total: Some(total) },
                    ),
                    Err(e) => Err(e),
                }
            },
            Err(_) => Ok(refusal_answer()),
        }
    }

    /// One page of the transfer log of the account that the credential
    /// opens: as `query_transaction_history`, but of the transfers only.
    pub fn query_transfer_history(
        &self,
        credential: &Credential,
        page: Option<u32>,
        page_size: u32,
    ) -> (answer: Result<QueryAnswer, ContractError>)
        requires
            self.wf(),
        ensures
            match self.opened(*credential, Permission::History) {
                Some(a) => if page_size > self.history.page_limit() {
                    answer == Err::<QueryAnswer, ContractError>(ContractError::InvalidInput)
                } else {
                    answer matches Ok(QueryAnswer::TransferHistory { txs, total }) && txs@
                        == page_of(
                        shown(self.history@, a, true),
                        page_number(page),
                        page_size as nat,
                    ).map_values(|tx: RichTx| tx_of(tx)) && total == Some(
                        shown(self.history@, a, true).len() as u64,
                    )
                },
                None => answer is Ok && is_refusal(answer->Ok_0),
            },
    {
        match self.authorize(credential, Permission::History) {
            Ok(account) => {
                let number: u32 = match page {
                    Some(n) => n,
                    None => 0,
                };
                match self.history.transfer_page(&account, number, page_size) {
                    Ok((txs, total)) => Ok(
                        QueryAnswer::TransferHistory { txs, total: Some(total) },
                    ),
                    Err(e) => Err(e),
                }
            },
            Err(_) => Ok(refusal_answer()),
        }
    }

    /// The name, the symbol and the decimals of the token, and its total
    /// supply if that is public.
    pub fn query_token_info(&self) -> (answer: QueryAnswer)
        requires
            self.wf(),
        ensures
            answer == (QueryAnswer::TokenInfo {
                name: self.name,
                symbol: self.symbol,
                decimals: self.decimals,
                total_supply: if self.public_total_supply {
                    Some(total(self.ledger@) as u128)
                } else {
                    None
                },
            }),
    {
        proof {
            self.ledger.lemma_wf();
        }
        QueryAnswer::TokenInfo {
            name: self.name.clone(),
            symbol: self.symbol.clone(),
            decimals: self.decimals,
            total_supply: if self.public_total_supply {
                Some(self.ledger.total_supply())
            } else {
                None
            },
        }
    }
}

/// The one answer to every query whose credential opens nothing.
pub fn refusal_answer() -> (answer: QueryAnswer)
    ensures
        is_refusal(answer),
{
    QueryAnswer::ViewingKeyError {
        msg: String::from_str("Wrong viewing key for this address or viewing key not set"),
    }
}

/// Refusals cannot be told apart: whatever the two stores hold and whatever
/// was presented, two answers to credentials that open nothing are both the
/// error answer, with the same text, and neither holds a balance, an
/// allowance or a record.
pub proof fn lemma_refusals_are_alike(first: QueryAnswer, second: QueryAnswer)
    requires
        is_refusal(first),
        is_refusal(second),
    ensures
        first is ViewingKeyError,
        second is ViewingKeyError,
        first->msg@ == second->msg@,
{
}

/// A viewing key that is not the key of the account opens nothing, and an
/// account without a key has no key that opens it: a caller cannot tell an
/// account that does not exist from one whose key it does not know.
pub proof fn lemma_wrong_key_opens_nothing(
    keys: Keys,
    revoked: Set<(Seq<char>, Seq<char>)>,
    token: Seq<char>,
    address: String,
    key: String,
    needed: Permission,
)
    ensures
        !keys.dom().contains(address@) ==> !accepts(keys, address@, key@),
        !accepts(keys, address@, key@) ==> account_opened(
            keys,
            revoked,
            token,
            Credential::ViewingKey { address, key },
            needed,
        ) is None,
{
}

} // verus!
