use snipix::error::ContractError;
use snipix::permit::{
    check_permit, is_listed, Permission, Permit, PermitParams, PermitSignature, PubKey,
    RevokedPermits,
};

fn s(text: &str) -> String {
    text.to_string()
}

fn permit(name: &str, tokens: &[&str], permissions: Vec<Permission>) -> Permit {
    Permit {
        params: PermitParams {
            allowed_tokens: tokens.iter().map(|t| t.to_string()).collect(),
            permit_name: s(name),
            chain_id: s("secret-4"),
            permissions,
        },
        signature: PermitSignature {
            pub_key: PubKey { key_type: s("tendermint/PubKeySecp256k1"), value: vec![3; 33] },
            signature: vec![1; 64],
        },
    }
}

#[test]
fn a_valid_permit_is_accepted() {
    let revoked = RevokedPermits::new();
    let p = permit("mine", &["token"], vec![Permission::Balance]);
    assert_eq!(check_permit(&revoked, &p, &s("alice"), true, &s("token"), Permission::Balance), Ok(()));
}

#[test]
fn every_flaw_of_a_permit_is_unauthorized() {
    let revoked = RevokedPermits::new();
    let p = permit("mine", &["token"], vec![Permission::Balance]);
    let refused = Err(ContractError::Unauthorized);
    assert_eq!(check_permit(&revoked, &p, &s("alice"), false, &s("token"), Permission::Balance), refused);
    assert_eq!(check_permit(&revoked, &p, &s("alice"), true, &s("other"), Permission::Balance), refused);
    assert_eq!(check_permit(&revoked, &p, &s("alice"), true, &s("token"), Permission::History), refused);
    assert_eq!(check_permit(&revoked, &p, &s("alice"), true, &s("token"), Permission::Allowance), refused);
}

#[test]
fn a_revoked_permit_is_refused_even_with_a_valid_signature() {
    let mut revoked = RevokedPermits::new();
    let p = permit("mine", &["token"], vec![Permission::Balance]);
    assert!(!revoked.is_revoked(&s("alice"), &s("mine")));
    revoked.revoke(&s("alice"), &s("mine"));
    assert!(revoked.is_revoked(&s("alice"), &s("mine")));
    assert_eq!(
        check_permit(&revoked, &p, &s("alice"), true, &s("token"), Permission::Balance),
        Err(ContractError::Unauthorized)
    );
    assert_eq!(check_permit(&revoked, &p, &s("bob"), true, &s("token"), Permission::Balance), Ok(()));
    let other = permit("other", &["token"], vec![Permission::Balance]);
    assert_eq!(check_permit(&revoked, &other, &s("alice"), true, &s("token"), Permission::Balance), Ok(()));
    revoked.revoke(&s("alice"), &s("mine"));
    assert!(revoked.is_revoked(&s("alice"), &s("mine")));
    assert!(!revoked.is_revoked(&s("mine"), &s("alice")));
}

#[test]
fn the_owner_permission_allows_everything() {
    let p = permit("all", &["a", "token"], vec![Permission::Owner]);
    assert!(p.check_permission(Permission::Balance));
    assert!(p.check_permission(Permission::History));
    assert!(p.check_permission(Permission::Allowance));
    assert!(p.check_token(&s("token")));
    assert!(p.check_token(&s("a")));
    assert!(!p.check_token(&s("b")));
    let none = permit("none", &[], vec![]);
    assert!(!none.check_permission(Permission::Balance));
    assert!(!none.check_permission(Permission::Owner));
    assert!(!none.check_token(&s("token")));
}

#[test]
fn a_text_is_listed_if_the_list_holds_it() {
    let list = vec![s("a"), s("b")];
    assert!(is_listed(&list, &s("a")));
    assert!(is_listed(&list, &s("b")));
    assert!(!is_listed(&list, &s("c")));
    assert!(!is_listed(&vec![], &s("a")));
}
