//! Offline accounts: a name and an identifier, with no server behind them.

use vstd::prelude::*;
use crate::account::store::{
    absent,
    find_by_id,
    first_with,
    lemma_add_then_delete,
    remove_by_id,
    without,
    Identified,
};
use crate::error::Error;

verus! {

/// An offline account.
#[derive(Debug)]
pub struct OfflineAccount {
    pub name: String,
    pub uuid: u128,
    pub skin: Option<String>,
}

impl Clone for OfflineAccount {
    fn clone(&self) -> (r: OfflineAccount)
        ensures
            r == *self,
    {
        OfflineAccount {
            name: self.name.clone(),
            uuid: self.uuid,
            skin: match &self.skin {
                Some(skin) => Some(skin.clone()),
                None => None,
            },
        }
    }
}

impl Identified for OfflineAccount {
    open spec fn spec_id(&self) -> u128 {
        self.uuid
    }

    fn id(&self) -> (r: u128) {
        self.uuid
    }
}

impl OfflineAccount {
    /// A new account of the given name. `fresh` is its identifier; the
    /// launcher takes the time in nanoseconds for it.
    pub fn new(name: &str, fresh: u128) -> (r: OfflineAccount)
        ensures
            r.name@ == name@,
            r.uuid == fresh,
            r.skin is None,
    {
        OfflineAccount { name: name.to_owned(), uuid: fresh, skin: None }
    }
}

/// `accounts` with `account` in place of every entry that has its
/// identifier.
pub open spec fn updated(accounts: Seq<OfflineAccount>, account: OfflineAccount) -> Seq<
    OfflineAccount,
> {
    Seq::new(
        accounts.len(),
        |i: int|
            if accounts[i].uuid == account.uuid {
                account
            } else {
                accounts[i]
            },
    )
}

/// Adds a new account of the given name at the end of the store.
pub fn add_account(accounts: &mut Vec<OfflineAccount>, name: &str, fresh: u128)
    ensures
        final(accounts)@.len() == old(accounts)@.len() + 1,
        final(accounts)@.drop_last() == old(accounts)@,
        final(accounts)@.last().name@ == name@,
        final(accounts)@.last().uuid == fresh,
        final(accounts)@.last().skin is None,
{
    let ghost before = accounts@;
    accounts.push(OfflineAccount::new(name, fresh));
    proof {
        assert(accounts@.drop_last() =~= before);
    }
}

/// Takes the account with the identifier `uuid` out of the store.
pub fn delete_account(accounts: &mut Vec<OfflineAccount>, uuid: u128)
    ensures
        final(accounts)@ == without(old(accounts)@, uuid),
{
    remove_by_id(accounts, uuid);
}

/// Puts `account` in place of the stored account with its identifier.
pub fn update_account(accounts: &mut Vec<OfflineAccount>, account: OfflineAccount)
    ensures
        final(accounts)@ == updated(old(accounts)@, account),
{
    let ghost before = accounts@;
    let mut i: usize = 0;
    while i < accounts.len()
        invariant
            i <= accounts@.len(),
            accounts@.len() == before.len(),
            forall|j: int| 0 <= j < i ==> accounts@[j] == updated(before, account)[j],
            forall|j: int| i <= j < accounts@.len() ==> accounts@[j] == before[j],
        decreases accounts@.len() - i,
    {
        if accounts[i].uuid == account.uuid {
            accounts.set(i, account.clone());
        }
        i += 1;
    }
    proof {
        assert(accounts@ =~= updated(before, account));
    }
}

/// The stored account with the identifier `uuid`.
pub fn get_account(accounts: &Vec<OfflineAccount>, uuid: u128) -> (r: Result<OfflineAccount, Error>)
    ensures
        match r {
            Ok(account) => first_with(accounts@, uuid) == Some(account),
            Err(e) => absent(accounts@, uuid) && e == Error::AccountNotfound(uuid),
        },
{
    match find_by_id(accounts, uuid) {
        Some(account) => Ok(account.clone()),
        None => Err(Error::AccountNotfound(uuid)),
    }
}

/// An account that is added and then deleted by its identifier leaves the
/// store as it was, as long as no stored account had that identifier.
/// `before` is the store at the start, `added` the store after
/// `add_account`, and `deleted` the store after `delete_account`.
pub proof fn law_add_then_delete(
    before: Seq<OfflineAccount>,
    added: Seq<OfflineAccount>,
    deleted: Seq<OfflineAccount>,
    fresh: u128,
)
    requires
        absent(before, fresh),
        added.len() == before.len() + 1,
        added.drop_last() == before,
        added.last().uuid == fresh,
        deleted == without(added, fresh),
    ensures
        deleted == before,
{
    assert(added =~= before.push(added.last()));
    lemma_add_then_delete(before, added.last());
}

} // verus!
