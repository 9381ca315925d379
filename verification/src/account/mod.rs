//! Accounts: Microsoft, offline and authlib-injector, each with its own
//! store.

pub mod authlib_injector;
pub mod microsoft;
pub mod offline;
pub mod store;

use vstd::prelude::*;
use crate::account::authlib_injector::AuthlibInjectorAccount;
use crate::account::microsoft::MicrosoftAccount;
use crate::account::offline::OfflineAccount;
use crate::outside::{uuid_text, uuid_to_text};

verus! {

/// The three kinds of account.
#[derive(Clone, Copy, Debug, PartialEq, Eq, Structural)]
pub enum AccountType {
    Microsoft,
    Offline,
    AuthlibInjector,
}

/// What a launch needs of an account.
#[derive(Debug)]
pub struct AccountLaunchInfo {
    pub access_token: String,
    pub name: String,
    /// The identifier of the game profile, in its hyphenated form.
    pub uuid: String,
}

/// The access token that stands for "no token" in an offline launch. No
/// online server accepts it.
pub open spec fn offline_access_token() -> Seq<char> {
    "1145141919810"@
}

impl AccountLaunchInfo {
    /// What a launch takes from a Microsoft account: its Minecraft access
    /// token and its profile.
    pub fn from_microsoft(account: &MicrosoftAccount) -> (r: AccountLaunchInfo)
        ensures
            r.access_token == account.access_token,
            r.name == account.profile.profile_name,
            r.uuid@ == uuid_text(account.profile.uuid),
    {
        AccountLaunchInfo {
            access_token: account.access_token.clone(),
            name: account.profile.profile_name.clone(),
            uuid: uuid_to_text(account.profile.uuid),
        }
    }

    /// What a launch takes from an authlib-injector account.
    pub fn from_authlib_injector(account: &AuthlibInjectorAccount) -> (r: AccountLaunchInfo)
        ensures
            r.access_token == account.access_token,
            r.name == account.profile_name,
            r.uuid == account.profile_uuid,
    {
        AccountLaunchInfo {
            access_token: account.access_token.clone(),
            name: account.profile_name.clone(),
            uuid: account.profile_uuid.clone(),
        }
    }

    /// What a launch takes from an offline account: its name and
    /// identifier, with the token that stands for "offline".
    pub fn from_offline(account: &OfflineAccount) -> (r: AccountLaunchInfo)
        ensures
            r.access_token@ == offline_access_token(),
            r.name == account.name,
            r.uuid@ == uuid_text(account.uuid),
    {
        AccountLaunchInfo {
            access_token: "1145141919810".to_owned(),
            name: account.name.clone(),
            uuid: uuid_to_text(account.uuid),
        }
    }
}

/// What has to happen to the tokens of an account before a launch.
#[derive(Clone, Copy, Debug, PartialEq, Eq, Structural)]
pub enum RefreshAction {
    /// Nothing: an offline account has no tokens.
    Nothing,
    /// A Microsoft account is refreshed where its token is about to expire.
    CheckMicrosoft,
    /// An authlib-injector account has its token validated.
    CheckAuthlibInjector,
}

/// What a check of the tokens of an account of the given kind comes to.
pub fn check_and_refresh_account(account_type: AccountType) -> (r: RefreshAction)
    ensures
        r == (match account_type {
            AccountType::Microsoft => RefreshAction::CheckMicrosoft,
            AccountType::AuthlibInjector => RefreshAction::CheckAuthlibInjector,
            AccountType::Offline => RefreshAction::Nothing,
        }),
{
    match account_type {
        AccountType::Microsoft => RefreshAction::CheckMicrosoft,
        AccountType::AuthlibInjector => RefreshAction::CheckAuthlibInjector,
        AccountType::Offline => RefreshAction::Nothing,
    }
}

} // verus!
