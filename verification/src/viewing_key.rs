//! Viewing keys: per-account secrets that authorize read-only queries. The
//! table keeps the digest of each key, never the key.

use vstd::prelude::*;
use vstd::string::StringExecFns;
use vstd::utf8::encode_utf8;
use crate::assoc::{assoc, lemma_assoc_absent, lemma_assoc_at, lemma_assoc_push, lemma_assoc_update};
use crate::crypto::{base64_of, sha256_of, sha_256, to_base64};
use crate::transaction_history::BlockInfo;

verus! {

/// A viewing key as handed to its owner.
#[derive(Clone, Debug, PartialEq, Eq)]
pub struct ViewingKey(pub String);

/// Where an account stands. An account has no key until its first key is
/// created. A later key rotates the earlier one out, and is then the key
/// created for the account.
#[derive(Clone, Copy, Debug, PartialEq, Eq, Structural)]
pub enum KeyState {
    /// The account has no key.
    NoKey,
    /// The account has a key.
    KeyCreated,
    /// The account's key is being replaced by a new one.
    KeyRotated,
}

/// The digest of the key of each account that has one.
pub type Keys = Map<Seq<char>, Seq<u8>>;

/// The eight bytes of `n`, the most significant first.
pub open spec fn be_bytes(n: u64) -> Seq<u8> {
    seq![
        ((n / 0x100_0000_0000_0000) % 256) as u8,
        ((n / 0x1_0000_0000_0000) % 256) as u8,
        ((n / 0x100_0000_0000) % 256) as u8,
        ((n / 0x1_0000_0000) % 256) as u8,
        ((n / 0x100_0000) % 256) as u8,
        ((n / 0x1_0000) % 256) as u8,
        ((n / 0x100) % 256) as u8,
        (n % 256) as u8,
    ]
}

/// What a new key is derived from: the seed of the token, the height and the
/// time of the block, the account, and the entropy that the caller supplied.
pub open spec fn key_material(
    seed: Seq<u8>,
    account: Seq<char>,
    entropy: Seq<char>,
    block: BlockInfo,
) -> Seq<u8> {
    seed + be_bytes(block.height) + be_bytes(block.time) + encode_utf8(account) + encode_utf8(
        entropy,
    )
}

/// The text of a key whose digest is written as `encoded`: a fixed prefix,
/// then the digest.
pub open spec fn key_text(encoded: Seq<char>) -> Seq<char> {
    "api_key_"@ + encoded
}

/// The key derived for an account: the digest of the material, as base64
/// text, behind the prefix of every key.
pub open spec fn derived_key(
    seed: Seq<u8>,
    account: Seq<char>,
    entropy: Seq<char>,
    block: BlockInfo,
) -> Seq<char> {
    key_text(base64_of(sha256_of(key_material(seed, account, entropy, block))))
}

/// What the table keeps of a key: the digest of its text.
pub open spec fn key_digest(key: Seq<char>) -> Seq<u8> {
    sha256_of(encode_utf8(key))
}

/// Where the account stands between two changes of its key.
pub open spec fn state_of(keys: Keys, account: Seq<char>) -> KeyState {
    if keys.dom().contains(account) {
        KeyState::KeyCreated
    } else {
        KeyState::NoKey
    }
}

/// What a new key does to the account: the first key is created, any later
/// one rotates the key that was there.
pub open spec fn change_of(keys: Keys, account: Seq<char>) -> KeyState {
    if keys.dom().contains(account) {
        KeyState::KeyRotated
    } else {
        KeyState::KeyCreated
    }
}

/// The keys after the digest kept for `account` was replaced by `digest`.
pub open spec fn with_digest(keys: Keys, account: Seq<char>, digest: Seq<u8>) -> Keys {
    keys.insert(account, digest)
}

/// Whether `digest` is the one kept for `account`. None is kept for an
/// account that has no key.
pub open spec fn keeps(keys: Keys, account: Seq<char>, digest: Seq<u8>) -> bool {
    keys.dom().contains(account) && keys[account] == digest
}

/// The keys after `account` was given `key`, in place of the one it had.
pub open spec fn with_key(keys: Keys, account: Seq<char>, key: Seq<char>) -> Keys {
    with_digest(keys, account, key_digest(key))
}

/// Whether `key` is the key of `account`. No key is the key of an account
/// that has none.
pub open spec fn accepts(keys: Keys, account: Seq<char>, key: Seq<char>) -> bool {
    keeps(keys, account, key_digest(key))
}

/// The table of viewing keys.
#[derive(Debug)]
pub struct KeyTable {
    accounts: Vec<String>,
    digests: Vec<Vec<u8>>,
}

impl KeyTable {
    /// The accounts that have a key, in the order in which they got one.
    spec fn holders(&self) -> Seq<Seq<char>> {
        self.accounts@.map_values(|a: String| a@)
    }

    /// The digest kept for each holder.
    spec fn kept(&self) -> Seq<Seq<u8>> {
        self.digests@.map_values(|d: Vec<u8>| d@)
    }

    /// Each account has one entry.
    pub closed spec fn wf(&self) -> bool {
        &&& self.accounts@.len() == self.digests@.len()
        &&& self.holders().no_duplicates()
    }
}

impl View for KeyTable {
    type V = Keys;

    closed spec fn view(&self) -> Keys {
        assoc(self.holders(), self.kept())
    }
}

/// Adds the bytes of `more` at the end of `bytes`.
fn append_bytes(bytes: &mut Vec<u8>, more: &[u8])
    ensures
        final(bytes)@ == old(bytes)@ + more@,
{
    let mut i: usize = 0;
    while i < more.len()
        invariant
            i <= more@.len(),
            bytes@ == old(bytes)@ + more@.take(i as int),
        decreases more@.len() - i,
    {
        bytes.push(more[i]);
        assert(more@.take(i + 1) =~= more@.take(i as int).push(more@[i as int]));
        i += 1;
    }
    assert(more@.take(i as int) =~= more@);
}

/// Adds the eight bytes of `n` at the end of `bytes`, the most significant first.
fn append_be_bytes(bytes: &mut Vec<u8>, n: u64)
    ensures
        final(bytes)@ == old(bytes)@ + be_bytes(n),
{
    bytes.push(((n / 0x100_0000_0000_0000) % 256) as u8);
    bytes.push(((n / 0x1_0000_0000_0000) % 256) as u8);
    bytes.push(((n / 0x100_0000_0000) % 256) as u8);
    bytes.push(((n / 0x1_0000_0000) % 256) as u8);
    bytes.push(((n / 0x100_0000) % 256) as u8);
    bytes.push(((n / 0x1_0000) % 256) as u8);
    bytes.push(((n / 0x100) % 256) as u8);
    bytes.push((n % 256) as u8);
    assert(bytes@ =~= old(bytes)@ + be_bytes(n));
}

/// Whether the two lists hold the same bytes.
fn same_bytes(a: &Vec<u8>, b: &Vec<u8>) -> (same: bool)
    ensures
        same == (a@ == b@),
{
    if a.len() != b.len() {
        return false;
    }
    let mut i: usize = 0;
    while i < a.len()
        invariant
            i <= a@.len(),
            a@.len() == b@.len(),
            forall|j: int| 0 <= j < i ==> a@[j] == b@[j],
        decreases a@.len() - i,
    {
        if a[i] != b[i] {
            return false;
        }
        i += 1;
    }
    assert(a@ =~= b@);
    true
}

/// The bytes that a new key is derived from: the seed, the height and the
/// time of the block with the most significant byte first, the account, and
/// the entropy.
pub fn build_key_material(seed: &Vec<u8>, account: &String, entropy: &String, block: &BlockInfo) -> (material:
    Vec<u8>)
    ensures
        material@ == key_material(seed@, account@, entropy@, *block),
{
    let mut material: Vec<u8> = Vec::new();
    append_bytes(&mut material, seed.as_slice());
    append_be_bytes(&mut material, block.height);
    append_be_bytes(&mut material, block.time);
    append_bytes(&mut material, account.as_str().as_bytes());
    append_bytes(&mut material, entropy.as_str().as_bytes());
    assert(material@ =~= key_material(seed@, account@, entropy@, *block));
    material
}

/// The key whose digest is written as `encoded`.
pub fn key_from_text(encoded: &String) -> (key: ViewingKey)
    ensures
        key.0@ == key_text(encoded@),
{
    ViewingKey(String::from_str("api_key_").concat(encoded.as_str()))
}

/// The digest of the text of a key.
fn digest_of(key: &String) -> (digest: Vec<u8>)
    ensures
        digest@ == key_digest(key@),
{
    sha_256(key.as_str().as_bytes())
}

impl KeyTable {
    /// A table without keys.
    pub fn new() -> (table: Self)
        ensures
            table.wf(),
            table@ == Map::<Seq<char>, Seq<u8>>::empty(),
    {
        let table = KeyTable { accounts: Vec::new(), digests: Vec::new() };
        assert(table@ =~= Map::<Seq<char>, Seq<u8>>::empty());
        table
    }

    /// The place of the account, if it has a key.
    fn find(&self, account: &String) -> (found: Option<usize>)
        requires
            self.wf(),
        ensures
            match found {
                Some(i) => i < self.accounts@.len() && self.holders()[i as int] == account@
                    && self@.dom().contains(account@) && self@[account@] == self.digests@[i as int]@,
                None => !self.holders().contains(account@) && !self@.dom().contains(account@),
            },
    {
        let mut i: usize = 0;
        while i < self.accounts.len()
            invariant
                self.wf(),
                i <= self.accounts@.len(),
                forall|j: int| 0 <= j < i ==> self.holders()[j] != account@,
            decreases self.accounts@.len() - i,
        {
            if self.accounts[i] == *account {
                proof {
                    lemma_assoc_at(self.holders(), self.kept(), i as int);
                }
                return Some(i);
            }
            i += 1;
        }
        proof {
            lemma_assoc_absent(self.holders(), self.kept(), account@);
        }
        None
    }

    /// Where the account stands.
    pub fn key_state(&self, account: &String) -> (state: KeyState)
        requires
            self.wf(),
        ensures
            state == state_of(self@, account@),
    {
        match self.find(account) {
            Some(_) => KeyState::KeyCreated,
            None => KeyState::NoKey,
        }
    }

    /// Keeps `digest` for `account`, in place of the digest it had, and says
    /// what this did to the account: `KeyCreated` for its first key,
    /// `KeyRotated` for any later one.
    pub fn set_digest(&mut self, account: &String, digest: Vec<u8>) -> (change: KeyState)
        requires
            old(self).wf(),
        ensures
            final(self).wf(),
            final(self)@ == with_digest(old(self)@, account@, digest@),
            change == change_of(old(self)@, account@),
    {
        let ghost holders = self.holders();
        let ghost kept = self.kept();
        match self.find(account) {
            Some(i) => {
                let ghost record = digest@;
                self.digests[i] = digest;
                proof {
                    assert(self.holders() =~= holders);
                    assert(self.kept() =~= kept.update(i as int, record));
                    lemma_assoc_update(holders, kept, i as int, record);
                }
                KeyState::KeyRotated
            },
            None => {
                let ghost record = digest@;
                self.accounts.push(account.clone());
                self.digests.push(digest);
                proof {
                    assert(self.holders() =~= holders.push(account@));
                    assert(self.kept() =~= kept.push(record));
                    lemma_assoc_push(holders, kept, account@, record);
                }
                KeyState::KeyCreated
            },
        }
    }

    /// Whether `digest` is the one kept for `account`. An account without a
    /// key and an account with another key are refused alike.
    pub fn check_digest(&self, account: &String, digest: &Vec<u8>) -> (kept: bool)
        requires
            self.wf(),
        ensures
            kept == keeps(self@, account@, digest@),
    {
        match self.find(account) {
            Some(i) => same_bytes(&self.digests[i], digest),
            None => false,
        }
    }

    /// Makes `key` the key of `account`, in place of the one it had, and
    /// says what this did to the account: `KeyCreated` for its first key,
    /// `KeyRotated` for any later one. Either way the account has a key
    /// afterwards.
    pub fn set_viewing_key(&mut self, account: &String, key: &String) -> (change: KeyState)
        requires
            old(self).wf(),
        ensures
            final(self).wf(),
            final(self)@ == with_key(old(self)@, account@, key@),
            change == change_of(old(self)@, account@),
    {
        self.set_digest(account, digest_of(key))
    }

    /// Derives a new key for `account` from the seed of the token, the block
    /// and the entropy supplied, makes it the key of the account, and
    /// returns it.
    pub fn create_viewing_key(
        &mut self,
        account: &String,
        seed: &Vec<u8>,
        entropy: &String,
        block: &BlockInfo,
    ) -> (key: ViewingKey)
        requires
            old(self).wf(),
        ensures
            final(self).wf(),
            key.0@ == derived_key(seed@, account@, entropy@, *block),
            final(self)@ == with_key(old(self)@, account@, key.0@),
    {
        let material = build_key_material(seed, account, entropy, block);
        let digest = sha_256(material.as_slice());
        let key = key_from_text(&to_base64(digest));
        self.set_viewing_key(account, &key.0);
        key
    }

    /// Whether `key` is the key of `account`. An account without a key and
    /// an account with another key are refused alike.
    pub fn check_viewing_key(&self, account: &String, key: &String) -> (accepted: bool)
        requires
            self.wf(),
        ensures
            accepted == accepts(self@, account@, key@),
    {
        let digest = digest_of(key);
        self.check_digest(account, &digest)
    }
}

/// A key that was set is accepted, and no text with another digest is.
pub proof fn lemma_key_is_accepted_once_set(keys: Keys, account: Seq<char>, key: Seq<char>)
    ensures
        accepts(with_key(keys, account, key), account, key),
        forall|other: Seq<char>|
            key_digest(other) != key_digest(key) ==> !accepts(
                with_key(keys, account, key),
                account,
                other,
            ),
{
}

/// A new key for one account changes nothing for any other account.
pub proof fn lemma_key_of_other_account_stays(
    keys: Keys,
    account: Seq<char>,
    key: Seq<char>,
    other: Seq<char>,
    presented: Seq<char>,
)
    requires
        other != account,
    ensures
        accepts(with_key(keys, account, key), other, presented) == accepts(
            keys,
            other,
            presented,
        ),
        state_of(with_key(keys, account, key), other) == state_of(keys, other),
{
}

/// The states that an account goes through: its first key takes it from no
/// key to a created key, any later key rotates the one it has, and after
/// either it has a created key again. It never goes back to having no key.
pub proof fn lemma_key_states(keys: Keys, account: Seq<char>, key: Seq<char>)
    ensures
        state_of(keys, account) == KeyState::NoKey ==> change_of(keys, account)
            == KeyState::KeyCreated,
        state_of(keys, account) == KeyState::KeyCreated ==> change_of(keys, account)
            == KeyState::KeyRotated,
        state_of(with_key(keys, account, key), account) == KeyState::KeyCreated,
{
}

} // verus!
