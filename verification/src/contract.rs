//! The entry points of the deposit contract, and what each of them does to
//! the ledger.
//!
//! Every entry point that acts for an identity asks the authorization record
//! first, then loads the records it needs, then checks the business rules,
//! and writes only when all of them hold. A call that fails leaves the
//! ledger as it was.

use vstd::prelude::*;
use crate::auth::Authorization;
use crate::error::{Error, Failure};
use crate::identity::Identity;
use crate::ledger::{Ledger, LedgerView};
use crate::storage::{Ownership, OwnershipView, UserInfo, UserInfoRegistry, UserInfoView};
use crate::token::{Transfer, TransferView};

verus! {

/// What `initialize` does: the first authorized call fixes owner and asset,
/// every later one is rejected.
pub open spec fn initialize_spec(
    s: LedgerView,
    authorized: bool,
    admin: Seq<char>,
    token: Seq<char>,
) -> (LedgerView, Result<(), Failure>) {
    if !authorized {
        (s, Err(Failure::Unauthorized))
    } else if s.globals().initialized {
        (s, Err(Failure::Rejected(Error::AlreadyInitialized)))
    } else {
        (
            LedgerView {
                ownership: Some(OwnershipView { owner: admin, token: token, initialized: true }),
                ..s
            },
            Ok(()),
        )
    }
}

/// What `set_owner` does: the owner, and nobody else, hands ownership on;
/// the accepted asset stays.
pub open spec fn set_owner_spec(
    s: LedgerView,
    authorized: bool,
    to: Seq<char>,
    new_owner: Seq<char>,
) -> (LedgerView, Result<(), Failure>) {
    if !authorized {
        (s, Err(Failure::Unauthorized))
    } else if !s.globals().initialized {
        (s, Err(Failure::Rejected(Error::NotInitialized)))
    } else if to != s.globals().owner {
        (s, Err(Failure::Rejected(Error::NotOwner)))
    } else {
        (
            LedgerView {
                ownership: Some(OwnershipView { owner: new_owner, ..s.globals() }),
                ..s
            },
            Ok(()),
        )
    }
}

/// The failure that stops a deposit before the transfer service is asked,
/// if there is one.
pub open spec fn deposit_refusal(
    s: LedgerView,
    authorized: bool,
    from: Seq<char>,
    amount: int,
    asset: Seq<char>,
) -> Option<Failure> {
    if !authorized {
        Some(Failure::Unauthorized)
    } else if !s.globals().initialized {
        Some(Failure::Rejected(Error::NotInitialized))
    } else if asset != s.globals().token {
        Some(Failure::Rejected(Error::MismatchingAsset))
    } else if !(i128::MIN <= s.user_info(from).balance + amount <= i128::MAX) {
        Some(Failure::Overflow)
    } else {
        None
    }
}

/// The transfer that a deposit asks of the transfer service: from the
/// depositor into the custody of the contract itself.
pub open spec fn deposit_order(
    s: LedgerView,
    from: Seq<char>,
    amount: int,
    asset: Seq<char>,
) -> TransferView {
    TransferView { from: from, to: s.contract, amount: amount, asset: asset }
}

/// What `deposit` does, given whether the transfer service moved the funds:
/// the depositor's balance grows by `amount` if it did, and nothing is
/// written if it did not.
pub open spec fn deposit_spec(
    s: LedgerView,
    authorized: bool,
    from: Seq<char>,
    amount: int,
    asset: Seq<char>,
    moved: bool,
) -> (LedgerView, Result<(), Failure>) {
    match deposit_refusal(s, authorized, from, amount, asset) {
        Some(failure) => (s, Err(failure)),
        None => if !moved {
            (s, Err(Failure::TransferFailed))
        } else {
            let record = UserInfoView {
                balance: s.user_info(from).balance + amount,
                ..s.user_info(from)
            };
            (LedgerView { users: s.users.insert(from, record), ..s }, Ok(()))
        },
    }
}

/// What `get_user_info` answers.
pub open spec fn get_user_info_spec(s: LedgerView, authorized: bool, from: Seq<char>) -> Result<
    UserInfoView,
    Failure,
> {
    if !authorized {
        Err(Failure::Unauthorized)
    } else {
        Ok(s.user_info(from))
    }
}

/// What an answer of `get_user_info` says.
pub open spec fn answer_view(r: Result<UserInfo, Failure>) -> Result<UserInfoView, Failure> {
    match r {
        Ok(record) => Ok(record@),
        Err(failure) => Err(failure),
    }
}

/// `gateway` was asked for the transfer `order` and answered `moved`.
pub open spec fn gateway_answered<G: FnOnce(Transfer) -> bool>(
    gateway: G,
    order: TransferView,
    moved: bool,
) -> bool {
    exists|asked: Transfer| asked@ == order && gateway.ensures((asked,), moved)
}

/// The deposit contract: its entry points are associated functions that
/// take the ledger they work on.
pub struct SimpleDepositTokenContract;

impl SimpleDepositTokenContract {
    /// Establishes `admin` as owner and `token` as the accepted asset, once.
    pub fn initialize(
        ledger: &mut Ledger,
        auth: &Authorization,
        admin: &Identity,
        token: &Identity,
    ) -> (r: Result<(), Failure>)
        ensures
            (final(ledger)@, r) == initialize_spec(
                old(ledger)@,
                auth@.contains(admin@),
                admin@,
                token@,
            ),
    {
        if !auth.permits(admin) {
            return Err(Failure::Unauthorized);
        }
        let (mut ownership_record, _) = ledger.load_ownership();
        if ownership_record.initialized {
            return Err(Failure::Rejected(Error::AlreadyInitialized));
        }
        ownership_record.token = token.duplicate();
        ownership_record.owner = admin.duplicate();
        ownership_record.initialized = true;
        ledger.persistent_set(ownership_record);
        Ok(())
    }

    /// The ownership record as stored, or the default if the contract was
    /// never initialized. Nothing is written.
    pub fn get_contract_globals(ledger: &Ledger) -> (record: Ownership)
        ensures
            record@ == ledger@.globals(),
    {
        ledger.load_ownership().0
    }

    /// Hands ownership from `to`, the present owner, to `new_owner`.
    pub fn set_owner(
        ledger: &mut Ledger,
        auth: &Authorization,
        to: &Identity,
        new_owner: &Identity,
    ) -> (r: Result<(), Failure>)
        ensures
            (final(ledger)@, r) == set_owner_spec(
                old(ledger)@,
                auth@.contains(to@),
                to@,
                new_owner@,
            ),
    {
        if !auth.permits(to) {
            return Err(Failure::Unauthorized);
        }
        let (mut ownership_record, _) = ledger.load_ownership();
        if !ownership_record.initialized {
            return Err(Failure::Rejected(Error::NotInitialized));
        }
        if !to.same(&ownership_record.owner) {
            return Err(Failure::Rejected(Error::NotOwner));
        }
        ownership_record.owner = new_owner.duplicate();
        ledger.persistent_set(ownership_record);
        Ok(())
    }

    /// Takes `amount` of `asset` from `from` into custody and adds it to the
    /// depositor's balance.
    ///
    /// `gateway` stands for the transfer service. It is asked once, for
    /// [`deposit_order`], and only when nothing else stops the deposit: it
    /// need not even be callable otherwise. The balance is written only if
    /// it answers `true`.
    ///
    /// A negative `amount` is taken as it is. A balance that would leave the
    /// range of `i128` stops the deposit with [`Failure::Overflow`] before
    /// the gateway is asked.
    pub fn deposit<G: FnOnce(Transfer) -> bool>(
        ledger: &mut Ledger,
        auth: &Authorization,
        from: &Identity,
        amount: i128,
        asset: &Identity,
        gateway: G,
    ) -> (r: Result<(), Failure>)
        requires
            deposit_refusal(old(ledger)@, auth@.contains(from@), from@, amount as int, asset@)
                is None ==> forall|order: Transfer|
                order@ == deposit_order(old(ledger)@, from@, amount as int, asset@)
                    ==> #[trigger] gateway.requires((order,)),
        ensures
            (final(ledger)@, r) == deposit_spec(
                old(ledger)@,
                auth@.contains(from@),
                from@,
                amount as int,
                asset@,
                r is Ok,
            ),
            deposit_refusal(old(ledger)@, auth@.contains(from@), from@, amount as int, asset@)
                is None ==> gateway_answered(
                gateway,
                deposit_order(old(ledger)@, from@, amount as int, asset@),
                r is Ok,
            ),
    {
        if !auth.permits(from) {
            return Err(Failure::Unauthorized);
        }
        let (ownership_record, _) = ledger.load_ownership();
        if !ownership_record.initialized {
            return Err(Failure::Rejected(Error::NotInitialized));
        }
        if !ownership_record.token.same(asset) {
            return Err(Failure::Rejected(Error::MismatchingAsset));
        }
        let (mut user_record, _) = ledger.load_user_info(from);
        match user_record.balance.checked_add(amount) {
            Some(balance) => {
                user_record.balance = balance;
            },
            None => {
                return Err(Failure::Overflow);
            },
        }
        let order = Transfer {
            from: from.duplicate(),
            to: ledger.contract().duplicate(),
            amount,
            asset: ownership_record.token,
        };
        let ghost asked = order;
        let moved = gateway(order);
        assert(asked@ == deposit_order(old(ledger)@, from@, amount as int, asset@)
            && gateway.ensures((asked,), moved));
        if !moved {
            return Err(Failure::TransferFailed);
        }
        ledger.instance_set(UserInfoRegistry::UserInfos(from.duplicate()), user_record);
        Ok(())
    }

    /// The balance record of `from` as stored, or the default if `from` has
    /// never deposited. Nothing is written.
    pub fn get_user_info(ledger: &Ledger, auth: &Authorization, from: &Identity) -> (r: Result<
        UserInfo,
        Failure,
    >)
        ensures
            answer_view(r) == get_user_info_spec(ledger@, auth@.contains(from@), from@),
    {
        if !auth.permits(from) {
            return Err(Failure::Unauthorized);
        }
        Ok(ledger.load_user_info(from).0)
    }
}

} // verus!
