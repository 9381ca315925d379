//! Accounts of Yggdrasil servers that follow the authlib-injector
//! conventions: the list of servers, the requests, and the store.

use std::collections::HashMap;
use vstd::prelude::*;
use vstd::std_specs::iter::IteratorSpec;
use crate::error::Error;
use crate::json::Json;
use crate::named::Named;
use crate::outside::{parse_url_text, url_error_text, url_normal_form};
use crate::text::{
    chars_of,
    has_prefix,
    lower_seq,
    push_str,
    starts_with,
    str_eq,
    string_of,
    to_ascii_lowercase,
    trim,
    trim_seq,
};

verus! {

broadcast use vstd::std_specs::hash::group_hash_axioms;

/// The address of a server with a scheme: the address as typed, trimmed;
/// `https:` is put before an address that starts with `//`, and
/// `https://` before one that has neither `http://` nor `https://`.
pub open spec fn with_scheme_of(input: Seq<char>) -> Seq<char> {
    let s = trim_seq(input);
    let lower = lower_seq(s);
    if has_prefix(lower, "http://"@) || has_prefix(lower, "https://"@) {
        s
    } else if has_prefix(s, "//"@) {
        "https:"@ + s
    } else {
        "https://"@ + s
    }
}

/// The address of a server with a scheme.
pub fn with_scheme(input: &str) -> (r: String)
    ensures
        r@ == with_scheme_of(input@),
{
    let s = trim(input);
    let lower = to_ascii_lowercase(s.as_str());
    if starts_with(lower.as_str(), "http://") || starts_with(lower.as_str(), "https://") {
        s
    } else if starts_with(s.as_str(), "//") {
        let mut out: Vec<char> = Vec::new();
        push_str(&mut out, "https:");
        push_str(&mut out, s.as_str());
        string_of(&out)
    } else {
        let mut out: Vec<char> = Vec::new();
        push_str(&mut out, "https://");
        push_str(&mut out, s.as_str());
        string_of(&out)
    }
}

/// The address of a server as a URL: the address with a scheme, in the
/// form in which the URL parser writes it. Fails where the parser rejects
/// the address.
pub fn normalize_url(input: &str) -> (r: Result<String, Error>)
    ensures
        match r {
            Ok(url) => url_normal_form(with_scheme_of(input@)) == Some(url@),
            Err(e) => url_normal_form(with_scheme_of(input@)) is None && e is UrlParse,
        },
{
    let fixed = with_scheme(input);
    match parse_url_text(fixed.as_str()) {
        Ok(url) => Ok(url),
        Err(e) => Err(Error::UrlParse(url_error_text(&e))),
    }
}

/// The root of a server's API: the location that the server announces in
/// its `x-authlib-injector-api-location` header, else the address that was
/// asked.
pub fn resolve_api_url(url: &str, api_location: Option<&str>) -> (r: String)
    ensures
        r@ == (match api_location {
            Some(location) => location@,
            None => url@,
        }),
{
    match api_location {
        Some(location) => location.to_owned(),
        None => url.to_owned(),
    }
}

/// Adds a server at the end of the list.
pub fn add_yggdrasil_server(servers: &mut Vec<String>, api_root: String)
    ensures
        final(servers)@ == old(servers)@.push(api_root),
{
    servers.push(api_root);
}

/// Takes the server at `index_to_delete` out of the list; a list that has
/// no such position stays as it is.
pub fn delete_yggdrasil_server(servers: &mut Vec<String>, index_to_delete: usize)
    ensures
        final(servers)@ == (if index_to_delete < old(servers)@.len() {
            old(servers)@.remove(index_to_delete as int)
        } else {
            old(servers)@
        }),
{
    if index_to_delete < servers.len() {
        let _ = servers.remove(index_to_delete);
    }
}

/// An address below the root of a server's API: the root, a slash unless
/// the root ends with one, and the path.
pub open spec fn endpoint_of(root: Seq<char>, path: Seq<char>) -> Seq<char> {
    if root.len() > 0 && root.last() == '/' {
        root + path
    } else {
        root + "/"@ + path
    }
}

/// An address below the root of a server's API.
pub fn endpoint(api_root: &str, path: &str) -> (r: String)
    ensures
        r@ == endpoint_of(api_root@, path@),
{
    let mut out = chars_of(api_root);
    if !(out.len() > 0 && out[out.len() - 1] == '/') {
        push_str(&mut out, "/");
    }
    push_str(&mut out, path);
    string_of(&out)
}

/// The address of a request to a server: the path below the API root as
/// the URL parser writes the root. Fails where the parser rejects the
/// root.
pub fn request_url(api_root: &str, path: &str) -> (r: Result<String, Error>)
    ensures
        match r {
            Ok(url) => url_normal_form(api_root@) matches Some(root) && url@ == endpoint_of(
                root,
                path@,
            ),
            Err(e) => url_normal_form(api_root@) is None && e is UrlParse,
        },
{
    match parse_url_text(api_root) {
        Ok(root) => Ok(endpoint(root.as_str(), path)),
        Err(e) => Err(Error::UrlParse(url_error_text(&e))),
    }
}

/// The path of the login request.
pub fn authenticate_path() -> (r: &'static str)
    ensures
        r@ == "authserver/authenticate"@,
{
    "authserver/authenticate"
}

/// The path of the request that tells whether a token is still valid.
pub fn validate_path() -> (r: &'static str)
    ensures
        r@ == "authserver/validate"@,
{
    "authserver/validate"
}

/// The path of the request that refreshes a token.
pub fn refresh_path() -> (r: &'static str)
    ensures
        r@ == "authserver/refresh"@,
{
    "authserver/refresh"
}

/// The path of the request that invalidates a token.
pub fn invalidate_path() -> (r: &'static str)
    ensures
        r@ == "authserver/invalidate"@,
{
    "authserver/invalidate"
}

/// The path of the request for a profile, the identifier in its form
/// without hyphens.
pub fn profile_path(simple_uuid: &str) -> (r: String)
    ensures
        r@ == "sessionserver/session/minecraft/profile/"@ + simple_uuid@,
{
    let mut out: Vec<char> = Vec::new();
    push_str(&mut out, "sessionserver/session/minecraft/profile/");
    push_str(&mut out, simple_uuid);
    string_of(&out)
}

/// What a server tells of itself.
#[derive(Debug)]
pub struct YggdrasilServerInfo {
    pub meta: Vec<Named<Json>>,
    pub skin_domains: Vec<String>,
    pub signature_public_key: String,
}

/// The client that a login request names.
#[derive(Debug)]
pub struct LoginRequestAgent {
    pub name: String,
    pub version: usize,
}

/// The body of a login request.
#[derive(Debug)]
pub struct LoginRequest {
    pub username: String,
    pub password: String,
    pub agent: LoginRequestAgent,
}

/// The login request for a user: the agent is Minecraft, version 1.
pub fn login(username: String, password: String) -> (r: LoginRequest)
    ensures
        r.username == username,
        r.password == password,
        r.agent.name@ == "Minecraft"@,
        r.agent.version == 1,
{
    LoginRequest {
        username,
        password,
        agent: LoginRequestAgent { name: "Minecraft".to_owned(), version: 1 },
    }
}

/// A profile as a server lists it.
#[derive(Debug)]
pub struct ProfileResponse {
    pub id: String,
    pub name: String,
}

/// The answer to a login.
#[derive(Debug)]
pub struct LoginResponse {
    pub access_token: String,
    pub client_token: String,
    pub available_profiles: Vec<ProfileResponse>,
    pub selected_profile: Option<ProfileResponse>,
}

/// An account of a Yggdrasil server.
#[derive(Debug)]
pub struct AuthlibInjectorAccount {
    pub api_root: String,
    pub account_identifier: String,
    pub access_token: String,
    pub client_token: String,
    pub profile_name: String,
    pub profile_uuid: String,
    pub added_at: u64,
}

impl Clone for AuthlibInjectorAccount {
    fn clone(&self) -> (r: AuthlibInjectorAccount)
        ensures
            r == *self,
    {
        AuthlibInjectorAccount {
            api_root: self.api_root.clone(),
            account_identifier: self.account_identifier.clone(),
            access_token: self.access_token.clone(),
            client_token: self.client_token.clone(),
            profile_name: self.profile_name.clone(),
            profile_uuid: self.profile_uuid.clone(),
            added_at: self.added_at,
        }
    }
}

/// A profile with its properties, as the session server returns it.
#[derive(Debug)]
pub struct Profile {
    pub id: String,
    pub name: String,
    pub properties: Vec<ProfileProperty>,
}

/// One property of a profile.
#[derive(Debug)]
pub struct ProfileProperty {
    pub name: String,
    pub value: String,
}

/// Two accounts are the same login: the same server, the same account
/// there, and the same profile.
pub open spec fn same_login(a: AuthlibInjectorAccount, b: AuthlibInjectorAccount) -> bool {
    a.api_root@ == b.api_root@ && a.account_identifier@ == b.account_identifier@ && a.profile_uuid@
        == b.profile_uuid@
}

/// Whether two accounts are the same login.
pub fn is_same_login(a: &AuthlibInjectorAccount, b: &AuthlibInjectorAccount) -> (r: bool)
    ensures
        r == same_login(*a, *b),
{
    str_eq(a.api_root.as_str(), b.api_root.as_str()) && str_eq(
        a.account_identifier.as_str(),
        b.account_identifier.as_str(),
    ) && str_eq(a.profile_uuid.as_str(), b.profile_uuid.as_str())
}

/// The store without the accounts that are the same login as `account`.
pub open spec fn without_login(
    accounts: Map<u128, AuthlibInjectorAccount>,
    account: AuthlibInjectorAccount,
) -> Map<u128, AuthlibInjectorAccount> {
    Map::new(
        |key: u128| accounts.contains_key(key) && !same_login(accounts[key], account),
        |key: u128| accounts[key],
    )
}

/// The keys of the accounts that are the same login as `account`.
pub fn keys_of_login(
    accounts: &HashMap<u128, AuthlibInjectorAccount>,
    account: &AuthlibInjectorAccount,
) -> (r: Vec<u128>)
    ensures
        forall|key: u128|
            r@.contains(key) <==> accounts@.contains_key(key) && same_login(
                accounts@[key],
                *account,
            ),
{
    let mut keys: Vec<u128> = Vec::new();
    for pair in it: accounts.iter()
        invariant
            it.seq() == accounts.iter().remaining(),
            forall|key: u128|
                keys@.contains(key) ==> accounts@.contains_key(key) && same_login(
                    accounts@[key],
                    *account,
                ),
            forall|j: int|
                0 <= j < it.index() ==> same_login(*(#[trigger] it.seq()[j]).1, *account)
                    ==> keys@.contains(*it.seq()[j].0),
    {
        let (key, stored) = pair;
        let ghost v = it.seq();
        let ghost i = it.index() as int;
        let ghost before = keys@;
        proof {
            assert(v[i] == pair);
            assert(accounts@.contains_key(*v[i].0) && accounts@[*v[i].0] == *v[i].1);
        }
        if is_same_login(stored, account) {
            keys.push(*key);
            proof {
                assert(keys@[before.len() as int] == *key);
                assert forall|k: u128| keys@.contains(k) implies accounts@.contains_key(k)
                    && same_login(accounts@[k], *account) by {
                    let p = choose|p: int| 0 <= p < keys@.len() && keys@[p] == k;
                    if p < before.len() {
                        assert(before[p] == k);
                        assert(before.contains(k));
                    }
                }
            }
        }
        proof {
            assert forall|j: int|
                0 <= j < i + 1 && same_login(*(#[trigger] v[j]).1, *account) implies keys@.contains(
                *v[j].0,
            ) by {
                if j < i {
                    assert(before.contains(*v[j].0));
                    let p = choose|p: int| 0 <= p < before.len() && before[p] == *v[j].0;
                    assert(keys@[p] == *v[j].0);
                } else {
                    assert(keys@[before.len() as int] == *key);
                }
            }
        }
    }
    proof {
        let v = accounts.iter().remaining();
        assert forall|k: u128|
            accounts@.contains_key(k) && same_login(accounts@[k], *account) implies keys@.contains(
            k,
        ) by {
            assert(v.contains((&k, &accounts@[k])));
            let j = choose|j: int| 0 <= j < v.len() && v[j] == (&k, &accounts@[k]);
            assert(*v[j].0 == k);
            assert(*v[j].1 == accounts@[k]);
        }
    }
    keys
}

/// Takes the accounts that are the same login as `account` out of the
/// store.
pub fn remove_same_login(
    accounts: &mut HashMap<u128, AuthlibInjectorAccount>,
    account: &AuthlibInjectorAccount,
)
    ensures
        final(accounts)@ == without_login(old(accounts)@, *account),
{
    let ghost before = accounts@;
    let keys = keys_of_login(accounts, account);
    let mut i: usize = 0;
    while i < keys.len()
        invariant
            i <= keys.len(),
            forall|key: u128|
                keys@.contains(key) <==> before.contains_key(key) && same_login(
                    before[key],
                    *account,
                ),
            forall|key: u128|
                accounts@.contains_key(key) <==> before.contains_key(key) && !keys@.take(
                    i as int,
                ).contains(key),
            forall|key: u128| accounts@.contains_key(key) ==> accounts@[key] == before[key],
        decreases keys.len() - i,
    {
        let ghost current = accounts@;
        let ghost done = keys@.take(i as int);
        let _ = accounts.remove(&keys[i]);
        proof {
            let next = keys@.take(i + 1);
            assert(next =~= done.push(keys@[i as int]));
            assert forall|key: u128|
                accounts@.contains_key(key) <==> before.contains_key(key) && !next.contains(
                    key,
                ) by {
                if key == keys@[i as int] {
                    assert(next[i as int] == key);
                } else {
                    if done.contains(key) {
                        let p = choose|p: int| 0 <= p < done.len() && done[p] == key;
                        assert(next[p] == key);
                    }
                    if next.contains(key) {
                        let p = choose|p: int| 0 <= p < next.len() && next[p] == key;
                        assert(done[p] == key);
                    }
                }
            }
        }
        i += 1;
    }
    proof {
        assert(keys@.take(keys@.len() as int) =~= keys@);
        let target = without_login(before, *account);
        assert forall|key: u128| accounts@.contains_key(key) <==> target.contains_key(key) by {
            if before.contains_key(key) {
                assert(keys@.contains(key) <==> same_login(before[key], *account));
            }
        }
        assert forall|key: u128| accounts@.contains_key(key) implies accounts@[key]
            == target[key] by {}
        assert(accounts@.dom() =~= target.dom());
        assert(accounts@ =~= target);
    }
}

/// Stores an account under a fresh key. An account that is the same login
/// is taken out first, and whatever stood under the key gives way.
pub fn add_account(
    accounts: &mut HashMap<u128, AuthlibInjectorAccount>,
    account: AuthlibInjectorAccount,
    fresh: u128,
)
    ensures
        final(accounts)@ == without_login(old(accounts)@, account).insert(fresh, account),
{
    remove_same_login(accounts, &account);
    accounts.insert(fresh, account);
}

/// Takes the account under `account_key` out of the store and hands it
/// back, so that its token can be invalidated.
pub fn delete_account(accounts: &mut HashMap<u128, AuthlibInjectorAccount>, account_key: u128) -> (r:
    Option<AuthlibInjectorAccount>)
    ensures
        final(accounts)@ == old(accounts)@.remove(account_key),
        r == (if old(accounts)@.contains_key(account_key) {
            Some(old(accounts)@[account_key])
        } else {
            None
        }),
{
    accounts.remove(&account_key)
}

/// The account under `account_key`.
pub fn get_account(accounts: &HashMap<u128, AuthlibInjectorAccount>, account_key: u128) -> (r:
    Result<AuthlibInjectorAccount, Error>)
    ensures
        match r {
            Ok(account) => accounts@.contains_key(account_key) && account
                == accounts@[account_key],
            Err(e) => !accounts@.contains_key(account_key) && e == Error::AccountNotfound(
                account_key,
            ),
        },
{
    match accounts.get(&account_key) {
        Some(account) => Ok(account.clone()),
        None => Err(Error::AccountNotfound(account_key)),
    }
}

/// Whether the server has confirmed a token: it answers a validation with
/// status 204.
pub fn token_is_valid(status: u16) -> (r: bool)
    ensures
        r == (status == 204),
{
    status == 204
}

/// What a check of an account has to do next.
#[derive(Clone, Copy, Debug, PartialEq, Eq, Structural)]
pub enum AfterValidation {
    /// The token is valid: nothing changes.
    Keep,
    /// The token has to be refreshed.
    Refresh,
}

/// What to do after a validation request.
pub fn check_and_refresh_account(status: u16) -> (r: AfterValidation)
    ensures
        r == (if status == 204 {
            AfterValidation::Keep
        } else {
            AfterValidation::Refresh
        }),
{
    if token_is_valid(status) {
        AfterValidation::Keep
    } else {
        AfterValidation::Refresh
    }
}

/// The answer to a refresh.
#[derive(Debug)]
pub struct RefreshResponse {
    pub access_token: String,
    pub client_token: String,
    pub selected_profile: ProfileResponse,
}

/// The account after a refresh: tokens and profile are those of the answer,
/// the rest stays.
pub fn refresh_account(account: AuthlibInjectorAccount, response: RefreshResponse) -> (r:
    AuthlibInjectorAccount)
    ensures
        r == (AuthlibInjectorAccount {
            access_token: response.access_token,
            client_token: response.client_token,
            profile_name: response.selected_profile.name,
            profile_uuid: response.selected_profile.id,
            ..account
        }),
{
    AuthlibInjectorAccount {
        access_token: response.access_token,
        client_token: response.client_token,
        profile_name: response.selected_profile.name,
        profile_uuid: response.selected_profile.id,
        api_root: account.api_root,
        account_identifier: account.account_identifier,
        added_at: account.added_at,
    }
}

/// The first of `profiles` with the identifier `id`.
pub open spec fn profile_with(profiles: Seq<ProfileResponse>, id: Seq<char>) -> Option<
    ProfileResponse,
>
    decreases profiles.len(),
{
    if profiles.len() == 0 {
        None
    } else if profiles[0].id@ == id {
        Some(profiles[0])
    } else {
        profile_with(profiles.drop_first(), id)
    }
}

/// The profile of a login answer that has the identifier `id`: the selected
/// profile where it has that identifier, else the first such among the
/// available ones.
pub open spec fn matching_profile(response: LoginResponse, id: Seq<char>) -> Option<ProfileResponse> {
    match response.selected_profile {
        Some(selected) => if selected.id@ == id {
            Some(selected)
        } else {
            profile_with(response.available_profiles@, id)
        },
        None => profile_with(response.available_profiles@, id),
    }
}

/// The name of the first of `profiles` with the identifier `id`.
pub fn find_profile_name(profiles: &Vec<ProfileResponse>, id: &str) -> (r: Option<String>)
    ensures
        match r {
            Some(name) => profile_with(profiles@, id@) matches Some(profile) && profile.name == name,
            None => profile_with(profiles@, id@) is None,
        },
{
    let mut i: usize = 0;
    proof {
        assert(profiles@.skip(0) =~= profiles@);
    }
    while i < profiles.len()
        invariant
            i <= profiles.len(),
            profile_with(profiles@, id@) == profile_with(profiles@.skip(i as int), id@),
        decreases profiles.len() - i,
    {
        proof {
            assert(profiles@.skip(i as int).drop_first() =~= profiles@.skip(i + 1));
            assert(profiles@.skip(i as int)[0] == profiles@[i as int]);
        }
        if str_eq(profiles[i].id.as_str(), id) {
            return Some(profiles[i].name.clone());
        }
        i += 1;
    }
    None
}

/// The account after a new login: the tokens are those of the answer and
/// the name is that of the profile with the stored identifier. Fails where
/// the answer offers no profile with that identifier.
pub fn relogin_account(account: AuthlibInjectorAccount, response: LoginResponse) -> (r: Result<
    AuthlibInjectorAccount,
    Error,
>)
    ensures
        match r {
            Ok(updated) => matching_profile(response, account.profile_uuid@) matches Some(profile)
                && updated == (AuthlibInjectorAccount {
                access_token: response.access_token,
                client_token: response.client_token,
                profile_name: profile.name,
                ..account
            }),
            Err(e) => matching_profile(response, account.profile_uuid@) is None && e
                is ProfileUnavailable,
        },
{
    let selected_name = match &response.selected_profile {
        Some(selected) => if str_eq(selected.id.as_str(), account.profile_uuid.as_str()) {
            Some(selected.name.clone())
        } else {
            None
        },
        None => None,
    };
    let name = match selected_name {
        Some(name) => Some(name),
        None => find_profile_name(&response.available_profiles, account.profile_uuid.as_str()),
    };
    match name {
        Some(profile_name) => Ok(
            AuthlibInjectorAccount {
                api_root: account.api_root,
                account_identifier: account.account_identifier,
                access_token: response.access_token,
                client_token: response.client_token,
                profile_name,
                profile_uuid: account.profile_uuid,
                added_at: account.added_at,
            },
        ),
        None => Err(Error::ProfileUnavailable),
    }
}

/// Puts `account` in place of what the store holds under `account_key`.
pub fn save_account(
    accounts: &mut HashMap<u128, AuthlibInjectorAccount>,
    account_key: u128,
    account: AuthlibInjectorAccount,
)
    ensures
        final(accounts)@ == old(accounts)@.insert(account_key, account),
{
    accounts.insert(account_key, account);
}

/// An account that is added under a key that the store does not hold, and
/// then deleted by that key, leaves the store as it was, as long as the
/// store held no account that is the same login.
pub proof fn law_add_then_delete(
    before: Map<u128, AuthlibInjectorAccount>,
    account: AuthlibInjectorAccount,
    fresh: u128,
)
    requires
        !before.contains_key(fresh),
        forall|key: u128| before.contains_key(key) ==> !same_login(before[key], account),
    ensures
        without_login(before, account).insert(fresh, account).remove(fresh) == before,
{
    assert(without_login(before, account).insert(fresh, account).remove(fresh) =~= before);
}

} // verus!
