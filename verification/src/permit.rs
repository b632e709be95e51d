//! Query permits: signed, scoped and revocable authorizations that a caller
//! presents in place of a viewing key.

use vstd::prelude::*;
use crate::error::ContractError;

verus! {

/// What a permit lets its bearer read.
#[derive(Clone, Copy, Debug, PartialEq, Eq, Structural)]
pub enum Permission {
    /// The allowance between the signer and another account.
    Allowance,
    /// The signer's balance.
    Balance,
    /// The signer's transfer and transaction history.
    History,
    /// Everything that the signer may read.
    Owner,
}

/// The signed content of a permit.
#[derive(Clone, Debug, PartialEq, Eq)]
pub struct PermitParams {
    pub allowed_tokens: Vec<String>,
    pub permit_name: String,
    pub chain_id: String,
    pub permissions: Vec<Permission>,
}

/// The public key that a permit was signed with.
#[derive(Clone, Debug, PartialEq, Eq)]
pub struct PubKey {
    pub key_type: String,
    pub value: Vec<u8>,
}

/// The signature of a permit and the key to check it with.
#[derive(Clone, Debug, PartialEq, Eq)]
pub struct PermitSignature {
    pub pub_key: PubKey,
    pub signature: Vec<u8>,
}

/// A permit as a caller presents it.
#[derive(Clone, Debug, PartialEq, Eq)]
pub struct Permit {
    pub params: PermitParams,
    pub signature: PermitSignature,
}

/// Whether the list holds the text.
pub open spec fn lists(texts: Seq<String>, text: Seq<char>) -> bool {
    exists|i: int| 0 <= i < texts.len() && (#[trigger] texts[i])@ == text
}

/// Whether the list holds the text.
pub fn is_listed(texts: &Vec<String>, text: &String) -> (found: bool)
    ensures
        found == lists(texts@, text@),
{
    let mut i: usize = 0;
    while i < texts.len()
        invariant
            i <= texts@.len(),
            forall|j: int| 0 <= j < i ==> (#[trigger] texts@[j])@ != text@,
        decreases texts@.len() - i,
    {
        if texts[i] == *text {
            return true;
        }
        i += 1;
    }
    false
}

impl Permit {
    /// Whether the permit was made out for the token at this address.
    pub open spec fn names_token(self, token: Seq<char>) -> bool {
        lists(self.params.allowed_tokens@, token)
    }

    /// Whether the permit lets its bearer read what `needed` stands for:
    /// it lists that permission, or the permission of the owner.
    pub open spec fn allows(self, needed: Permission) -> bool {
        self.params.permissions@.contains(needed) || self.params.permissions@.contains(
            Permission::Owner,
        )
    }

    /// Whether the permit was made out for the token at this address.
    pub fn check_token(&self, token: &String) -> (named: bool)
        ensures
            named == self.names_token(token@),
    {
        is_listed(&self.params.allowed_tokens, token)
    }

    /// Whether the permit lets its bearer read what `needed` stands for.
    pub fn check_permission(&self, needed: Permission) -> (allowed: bool)
        ensures
            allowed == self.allows(needed),
    {
        let permissions = &self.params.permissions;
        let mut i: usize = 0;
        while i < permissions.len()
            invariant
                i <= permissions@.len(),
                permissions@ == self.params.permissions@,
                forall|j: int|
                    0 <= j < i ==> permissions@[j] != needed && permissions@[j]
                        != Permission::Owner,
            decreases permissions@.len() - i,
        {
            if permissions[i] == needed || permissions[i] == Permission::Owner {
                assert(permissions@.contains(permissions@[i as int]));
                return true;
            }
            i += 1;
        }
        false
    }
}

/// The permits that their signers have revoked, each by the account that
/// signed it and its name.
#[derive(Debug)]
pub struct RevokedPermits {
    accounts: Vec<String>,
    names: Vec<String>,
}

impl RevokedPermits {
    /// The revoked permits in the order in which they were revoked.
    spec fn listed(&self) -> Seq<(Seq<char>, Seq<char>)> {
        Seq::new(self.accounts@.len(), |i: int| (self.accounts@[i]@, self.names@[i]@))
    }

    /// Each revoked permit has an account and a name.
    pub closed spec fn wf(&self) -> bool {
        self.accounts@.len() == self.names@.len()
    }
}

impl View for RevokedPermits {
    type V = Set<(Seq<char>, Seq<char>)>;

    closed spec fn view(&self) -> Set<(Seq<char>, Seq<char>)> {
        Set::new(|p: (Seq<char>, Seq<char>)| self.listed().contains(p))
    }
}

impl RevokedPermits {
    /// No permit is revoked.
    pub fn new() -> (revoked: Self)
        ensures
            revoked.wf(),
            revoked@ == Set::<(Seq<char>, Seq<char>)>::empty(),
    {
        let revoked = RevokedPermits { accounts: Vec::new(), names: Vec::new() };
        assert(revoked@ =~= Set::<(Seq<char>, Seq<char>)>::empty());
        revoked
    }

    /// Whether `account` has revoked its permit of this name.
    pub fn is_revoked(&self, account: &String, permit_name: &String) -> (revoked: bool)
        requires
            self.wf(),
        ensures
            revoked == self@.contains((account@, permit_name@)),
    {
        let mut i: usize = 0;
        while i < self.accounts.len()
            invariant
                self.wf(),
                i <= self.accounts@.len(),
                forall|j: int| 0 <= j < i ==> self.listed()[j] != (account@, permit_name@),
            decreases self.accounts@.len() - i,
        {
            if self.accounts[i] == *account && self.names[i] == *permit_name {
                assert(self.listed()[i as int] == (account@, permit_name@));
                return true;
            }
            i += 1;
        }
        false
    }

    /// Revokes the permit of this name that `account` signed. Revoked
    /// permits stay revoked.
    pub fn revoke(&mut self, account: &String, permit_name: &String)
        requires
            old(self).wf(),
        ensures
            final(self).wf(),
            final(self)@ == old(self)@.insert((account@, permit_name@)),
    {
        let ghost before = self.listed();
        if !self.is_revoked(account, permit_name) {
            self.accounts.push(account.clone());
            self.names.push(permit_name.clone());
            proof {
                let after = self.listed();
                assert(after =~= before.push((account@, permit_name@)));
                assert forall|p: (Seq<char>, Seq<char>)| after.contains(p) <==> (before.contains(p)
                    || p == (account@, permit_name@)) by {
                    if before.contains(p) {
                        let j = before.index_of(p);
                        assert(after[j] == p);
                    }
                    if p == (account@, permit_name@) {
                        assert(after[before.len() as int] == p);
                    }
                }
            }
        }
        assert(self@ =~= old(self)@.insert((account@, permit_name@)));
    }
}

/// Whether a permit stands for its signer: it is signed by the account, it
/// was made out for this token, the account has not revoked it, and it
/// lists the permission needed.
pub open spec fn permit_in_force(
    revoked: Set<(Seq<char>, Seq<char>)>,
    permit: Permit,
    signer: Seq<char>,
    signature_valid: bool,
    token: Seq<char>,
    needed: Permission,
) -> bool {
    &&& signature_valid
    &&& permit.names_token(token)
    &&& !revoked.contains((signer, permit.params.permit_name@))
    &&& permit.allows(needed)
}

/// Accepts a permit that stands for its signer and refuses any other as
/// unauthorized, whatever the reason. `signer` is the account that the
/// permit's public key belongs to, and `signature_valid` says whether the
/// signature was found to be that of this key over the permit's content.
pub fn check_permit(
    revoked: &RevokedPermits,
    permit: &Permit,
    signer: &String,
    signature_valid: bool,
    token: &String,
    needed: Permission,
) -> (checked: Result<(), ContractError>)
    requires
        revoked.wf(),
    ensures
        permit_in_force(revoked@, *permit, signer@, signature_valid, token@, needed) ==> checked
            == Ok::<(), ContractError>(()),
        !permit_in_force(revoked@, *permit, signer@, signature_valid, token@, needed) ==> checked
            == Err::<(), ContractError>(ContractError::Unauthorized),
{
    if signature_valid && permit.check_token(token) && !revoked.is_revoked(
        signer,
        &permit.params.permit_name,
    ) && permit.check_permission(needed) {
        Ok(())
    } else {
        Err(ContractError::Unauthorized)
    }
}

/// A revoked permit is refused even with a valid signature.
pub proof fn lemma_revoked_permit_is_refused(
    revoked: Set<(Seq<char>, Seq<char>)>,
    permit: Permit,
    signer: Seq<char>,
    token: Seq<char>,
    needed: Permission,
)
    ensures
        !permit_in_force(
            revoked.insert((signer, permit.params.permit_name@)),
            permit,
            signer,
            true,
            token,
            needed,
        ),
{
}

} // verus!
