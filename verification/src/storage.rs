//! The records that the ledger keeps, their keys, and their defaults.

use vstd::prelude::*;
use crate::identity::Identity;

verus! {

/// The key under which the persistent tier keeps the ownership record.
pub const OWNERSHIP: &'static str = "OWNERSHIP";

/// The singleton configuration record.
#[derive(Clone, Debug)]
pub struct Ownership {
    /// The identity that may transfer ownership.
    pub owner: Identity,
    /// The one asset that this instance takes into custody.
    pub token: Identity,
    /// False until `initialize` has succeeded.
    pub initialized: bool,
}

/// What an [`Ownership`] record says.
pub struct OwnershipView {
    pub owner: Seq<char>,
    pub token: Seq<char>,
    pub initialized: bool,
}

impl View for Ownership {
    type V = OwnershipView;

    open spec fn view(&self) -> OwnershipView {
        OwnershipView { owner: self.owner@, token: self.token@, initialized: self.initialized }
    }
}

/// The keys of the instance tier: one balance record per depositor.
#[derive(Clone, Debug)]
pub enum UserInfoRegistry {
    UserInfos(Identity),
}

impl View for UserInfoRegistry {
    type V = Seq<char>;

    /// A key is told apart by the depositor that it names.
    open spec fn view(&self) -> Seq<char> {
        match self {
            UserInfoRegistry::UserInfos(user) => user@,
        }
    }
}

/// The balance record of one depositor.
#[derive(Clone, Debug)]
pub struct UserInfo {
    /// The depositor.
    pub address: Identity,
    /// A label for people to read.
    pub name: String,
    /// What the depositor has put into custody.
    pub balance: i128,
}

/// What a [`UserInfo`] record says.
pub struct UserInfoView {
    pub address: Seq<char>,
    pub name: Seq<char>,
    pub balance: int,
}

impl View for UserInfo {
    type V = UserInfoView;

    open spec fn view(&self) -> UserInfoView {
        UserInfoView { address: self.address@, name: self.name@, balance: self.balance as int }
    }
}

/// The record that stands for "no ownership record is stored": the contract
/// is its own owner and its own asset, and nothing is initialized.
pub open spec fn default_ownership(contract: Seq<char>) -> OwnershipView {
    OwnershipView { owner: contract, token: contract, initialized: false }
}

/// The record that stands for "this depositor has no record": the label is
/// the text of the identity and the balance is zero.
pub open spec fn default_user_info(user: Seq<char>) -> UserInfoView {
    UserInfoView { address: user, name: user, balance: 0 }
}

impl Ownership {
    /// A copy of the record.
    pub fn duplicate(&self) -> (copy: Ownership)
        ensures
            copy@ == self@,
    {
        Ownership {
            owner: self.owner.duplicate(),
            token: self.token.duplicate(),
            initialized: self.initialized,
        }
    }
}

impl UserInfo {
    /// A copy of the record.
    pub fn duplicate(&self) -> (copy: UserInfo)
        ensures
            copy@ == self@,
    {
        UserInfo {
            address: self.address.duplicate(),
            name: self.name.clone(),
            balance: self.balance,
        }
    }
}

impl UserInfoRegistry {
    /// The depositor that the key names.
    pub fn user(&self) -> (user: &Identity)
        ensures
            user@ == self@,
    {
        match self {
            UserInfoRegistry::UserInfos(user) => user,
        }
    }
}

/// Makes the records that stand for absent ones.
pub struct StorageClient;

impl StorageClient {
    /// The balance record of a depositor that has never deposited.
    pub fn get_default_user_info(user: Identity) -> (record: UserInfo)
        ensures
            record@ == default_user_info(user@),
    {
        let name = user.strkey.clone();
        UserInfo { address: user, name, balance: 0 }
    }

    /// The ownership record of a contract that was never initialized.
    /// `contract` is the contract's own identity.
    pub fn get_default_ownership(contract: Identity) -> (record: Ownership)
        ensures
            record@ == default_ownership(contract@),
    {
        let token = contract.duplicate();
        Ownership { token, owner: contract, initialized: false }
    }
}

} // verus!
