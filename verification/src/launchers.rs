//! The credentials of a player, as a launcher stores its accounts.
use crate::bytes::ParseError;
use crate::text::str_eq;
use vstd::prelude::*;
use vstd::string::StringExecFns;

verus! {

/// What a client needs to join a server as a player.
#[derive(Clone)]
pub struct AuthData {
    pub selected_profile: String,
    pub access_token: String,
    pub name: String,
}

/// Credentials, and whether they are those of an online account.
pub struct AuthDataExt {
    pub data: AuthData,
    pub online: bool,
}

/// The profile of a launcher account.
pub struct PrismProfile<'x> {
    pub name: &'x str,
    pub id: &'x str,
}

/// The session of a launcher account.
pub struct PrismYgg<'x> {
    pub token: &'x str,
}

/// A launcher account.
pub struct PrismAccount<'x> {
    pub profile: PrismProfile<'x>,
    pub ygg: PrismYgg<'x>,
    /// The kind of account: `Mojang`, `MSA` or `Offline`.
    pub ty: &'x str,
}

/// The accounts file of a launcher.
pub struct PrismJson<'x> {
    pub accounts: Vec<PrismAccount<'x>>,
}

/// Whether an account of kind `ty` is online; `None` for an unknown kind.
pub open spec fn account_online(ty: Seq<char>) -> Option<bool> {
    if ty == "Mojang"@ || ty == "MSA"@ {
        Some(true)
    } else if ty == "Offline"@ {
        Some(false)
    } else {
        None
    }
}

/// The index of the first account from index `i` on whose profile is named
/// `profile`.
pub open spec fn first_account_from(accounts: Seq<PrismAccount>, profile: Seq<char>, i: int) -> Option<int>
    decreases accounts.len() - i,
{
    if i < 0 || i >= accounts.len() {
        None
    } else if accounts[i].profile.name@ == profile {
        Some(i)
    } else {
        first_account_from(accounts, profile, i + 1)
    }
}

/// The index of the first account whose profile is named `profile`.
pub open spec fn first_account(accounts: Seq<PrismAccount>, profile: Seq<char>) -> Option<int> {
    first_account_from(accounts, profile, 0)
}

/// The credentials of the first account whose profile is named `profile`:
/// its profile id, its token and its name; an error naming the profile
/// when there is no such account, or naming the kind when it is unknown.
pub fn auth_from_accounts(value: &PrismJson, profile: &str) -> (res: Result<AuthDataExt, ParseError>)
    ensures
        match first_account(value.accounts@, profile@) {
            Some(i) => match account_online(value.accounts@[i].ty@) {
                Some(online) => (res matches Ok(a) && a.online == online && a.data.selected_profile@
                    == value.accounts@[i].profile.id@ && a.data.access_token@ == value.accounts@[i].ygg.token@
                    && a.data.name@ == value.accounts@[i].profile.name@),
                None => (res matches Err(ParseError::UnknownAccountType(t)) && t@ == value.accounts@[i].ty@),
            },
            None => (res matches Err(ParseError::AccountNotFound(name)) && name@ == profile@),
        },
{
    let accounts = &value.accounts;
    let mut i: usize = 0;
    while i < accounts.len()
        invariant
            i <= accounts@.len(),
            accounts@ == value.accounts@,
            first_account(accounts@, profile@) == first_account_from(accounts@, profile@, i as int),
        decreases accounts@.len() - i,
    {
        if str_eq(accounts[i].profile.name, profile) {
            let acc = &accounts[i];
            let online = if str_eq(acc.ty, "Mojang") || str_eq(acc.ty, "MSA") {
                true
            } else if str_eq(acc.ty, "Offline") {
                false
            } else {
                return Err(ParseError::UnknownAccountType(String::from_str(acc.ty)));
            };
            return Ok(
                AuthDataExt {
                    data: AuthData {
                        selected_profile: String::from_str(acc.profile.id),
                        access_token: String::from_str(acc.ygg.token),
                        name: String::from_str(acc.profile.name),
                    },
                    online,
                },
            );
        }
        i = i + 1;
    }
    Err(ParseError::AccountNotFound(String::from_str(profile)))
}

} // verus!
