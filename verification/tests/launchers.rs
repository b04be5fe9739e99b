use dune::launchers::{auth_from_accounts, PrismAccount, PrismJson, PrismProfile, PrismYgg};

fn account<'x>(name: &'x str, id: &'x str, ty: &'x str) -> PrismAccount<'x> {
    PrismAccount { profile: PrismProfile { name, id }, ygg: PrismYgg { token: "tok" }, ty }
}

#[test]
fn finds_first_matching_account() {
    let value = PrismJson { accounts: vec![account("a", "1", "MSA"), account("b", "2", "Offline"), account("b", "3", "MSA")] };
    let auth = auth_from_accounts(&value, "b").unwrap();
    assert!(!auth.online);
    assert_eq!(auth.data.selected_profile, "2");
    assert_eq!(auth.data.name, "b");
    assert_eq!(auth.data.access_token, "tok");
    let auth = auth_from_accounts(&value, "a").unwrap();
    assert!(auth.online);
}

#[test]
fn account_errors() {
    let value = PrismJson { accounts: vec![account("a", "1", "Other")] };
    assert!(auth_from_accounts(&value, "a").is_err());
    assert!(auth_from_accounts(&value, "z").is_err());
    let mojang = PrismJson { accounts: vec![account("m", "9", "Mojang")] };
    assert!(auth_from_accounts(&mojang, "m").unwrap().online);
}
