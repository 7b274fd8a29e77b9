//! What holds of the contract over any sequence of calls.
//!
//! A history is a sequence of calls, each with the answers that the
//! authorization service and the transfer service gave for it. The laws
//! below are stated over [`step`] and [`run`], which apply the transition
//! functions that the entry points are proved against.

use vstd::prelude::*;
use crate::contract::{deposit_spec, get_user_info_spec, initialize_spec, set_owner_spec};
use crate::error::{Error, Failure};
use crate::ledger::LedgerView;
use crate::storage::{default_ownership, OwnershipView};

verus! {

/// One call of an entry point, with what the outside services answered.
pub enum Call {
    Initialize { authorized: bool, admin: Seq<char>, token: Seq<char> },
    GetContractGlobals,
    SetOwner { authorized: bool, to: Seq<char>, new_owner: Seq<char> },
    Deposit { authorized: bool, from: Seq<char>, amount: int, asset: Seq<char>, moved: bool },
    GetUserInfo { authorized: bool, from: Seq<char> },
}

/// The ledger after `call`, and whether the call succeeded.
pub open spec fn step(s: LedgerView, call: Call) -> (LedgerView, Result<(), Failure>) {
    match call {
        Call::Initialize { authorized, admin, token } => initialize_spec(s, authorized, admin, token),
        Call::GetContractGlobals => (s, Ok(())),
        Call::SetOwner { authorized, to, new_owner } => set_owner_spec(s, authorized, to, new_owner),
        Call::Deposit { authorized, from, amount, asset, moved } => deposit_spec(
            s,
            authorized,
            from,
            amount,
            asset,
            moved,
        ),
        Call::GetUserInfo { authorized, from } => (
            s,
            match get_user_info_spec(s, authorized, from) {
                Ok(_) => Ok(()),
                Err(failure) => Err(failure),
            },
        ),
    }
}

/// The ledger after the calls of `history`, in order.
pub open spec fn run(s: LedgerView, history: Seq<Call>) -> LedgerView
    decreases history.len(),
{
    if history.len() == 0 {
        s
    } else {
        step(run(s, history.drop_last()), history.last()).0
    }
}

/// Every stored balance record names the depositor that it is stored under.
pub open spec fn keyed_by_depositor(s: LedgerView) -> bool {
    forall|user: Seq<char>| #[trigger] s.users.dom().contains(user) ==> s.users[user].address == user
}

/// No stored balance is negative.
pub open spec fn balances_non_negative(s: LedgerView) -> bool {
    forall|user: Seq<char>| #[trigger] s.users.dom().contains(user) ==> s.users[user].balance >= 0
}

/// A call that fails writes nothing.
pub proof fn failure_writes_nothing(s: LedgerView, call: Call)
    requires
        step(s, call).1 is Err,
    ensures
        step(s, call).0 == s,
{
}

/// A call never changes whose ledger it is, never takes the initialization
/// back, and never changes the accepted asset of an initialized contract.
pub proof fn step_keeps_what_is_fixed(s: LedgerView, call: Call)
    ensures
        step(s, call).0.contract == s.contract,
        s.globals().initialized ==> step(s, call).0.globals().initialized,
        s.globals().initialized ==> step(s, call).0.globals().token == s.globals().token,
{
}

/// The same, over a whole history.
pub proof fn run_keeps_what_is_fixed(s: LedgerView, history: Seq<Call>)
    ensures
        run(s, history).contract == s.contract,
        s.globals().initialized ==> run(s, history).globals().initialized,
        s.globals().initialized ==> run(s, history).globals().token == s.globals().token,
    decreases history.len(),
{
    if history.len() > 0 {
        run_keeps_what_is_fixed(s, history.drop_last());
        step_keeps_what_is_fixed(run(s, history.drop_last()), history.last());
    }
}

/// Every call keeps the data-model invariants: an uninitialized ownership
/// record is the default one, and every balance record names its own
/// depositor.
pub proof fn step_keeps_invariants(s: LedgerView, call: Call)
    requires
        s.consistent(),
        keyed_by_depositor(s),
    ensures
        step(s, call).0.consistent(),
        keyed_by_depositor(step(s, call).0),
{
}

/// The data-model invariants hold of every ledger that a history of calls
/// can reach from a fresh one.
pub proof fn reachable_ledgers_keep_invariants(contract: Seq<char>, history: Seq<Call>)
    ensures
        run(LedgerView::fresh(contract), history).consistent(),
        keyed_by_depositor(run(LedgerView::fresh(contract), history)),
    decreases history.len(),
{
    if history.len() > 0 {
        reachable_ledgers_keep_invariants(contract, history.drop_last());
        step_keeps_invariants(
            run(LedgerView::fresh(contract), history.drop_last()),
            history.last(),
        );
    }
}

/// Deposits of amounts that are not negative keep every balance from being
/// negative, and no call lowers a balance then.
pub proof fn balances_stay_non_negative(s: LedgerView, call: Call, user: Seq<char>)
    requires
        balances_non_negative(s),
        call matches Call::Deposit { amount, .. } ==> amount >= 0,
    ensures
        balances_non_negative(step(s, call).0),
        step(s, call).0.user_info(user).balance >= s.user_info(user).balance,
{
}

/// Single initialization: once an `initialize` has succeeded, whatever is
/// called afterwards, the contract stays initialized with the asset of that
/// call, and every further authorized `initialize` is rejected with
/// `AlreadyInitialized` and writes nothing.
pub proof fn initialize_succeeds_once(
    s: LedgerView,
    admin: Seq<char>,
    token: Seq<char>,
    later: Seq<Call>,
    admin2: Seq<char>,
    token2: Seq<char>,
)
    requires
        initialize_spec(s, true, admin, token).1 is Ok,
    ensures
        !s.globals().initialized,
        initialize_spec(s, true, admin, token).0.globals() == (OwnershipView {
            owner: admin,
            token: token,
            initialized: true,
        }),
        ({
            let now = run(initialize_spec(s, true, admin, token).0, later);
            &&& now.globals().initialized
            &&& now.globals().token == token
            &&& initialize_spec(now, true, admin2, token2) == (
                now,
                Err::<(), Failure>(Failure::Rejected(Error::AlreadyInitialized)),
            )
        }),
{
    run_keeps_what_is_fixed(initialize_spec(s, true, admin, token).0, later);
}

/// In one history at most one `initialize` succeeds.
pub proof fn at_most_one_initialize_succeeds(s: LedgerView, history: Seq<Call>, i: int, j: int)
    requires
        0 <= i < j < history.len(),
        history[i] is Initialize,
        history[j] is Initialize,
        step(run(s, history.take(i)), history[i]).1 is Ok,
    ensures
        step(run(s, history.take(j)), history[j]).1 is Err,
{
    let before_i = history.take(i);
    let after_i = run(s, history.take(i + 1));
    assert(history.take(i + 1).drop_last() == before_i);
    assert(history.take(i + 1).last() == history[i]);
    assert(after_i == step(run(s, before_i), history[i]).0);
    assert(after_i.globals().initialized);
    let rest = history.subrange(i + 1, j);
    run_splits(s, history.take(i + 1), rest);
    assert(history.take(i + 1) + rest == history.take(j));
    run_keeps_what_is_fixed(after_i, rest);
}

/// Running a history is running its first part and then its second.
pub proof fn run_splits(s: LedgerView, first: Seq<Call>, second: Seq<Call>)
    ensures
        run(s, first + second) == run(run(s, first), second),
    decreases second.len(),
{
    if second.len() == 0 {
        assert(first + second == first);
    } else {
        run_splits(s, first, second.drop_last());
        assert((first + second).drop_last() == first + second.drop_last());
        assert((first + second).last() == second.last());
    }
}

/// Default before initialization: as long as nobody has called
/// `initialize`, nothing is stored at all, and the globals are the default:
/// not initialized, with the contract itself as owner and as asset.
pub proof fn nothing_is_stored_before_initialize(contract: Seq<char>, history: Seq<Call>)
    requires
        forall|i: int| 0 <= i < history.len() ==> !(#[trigger] history[i] is Initialize),
    ensures
        run(LedgerView::fresh(contract), history) == LedgerView::fresh(contract),
        LedgerView::fresh(contract).globals() == default_ownership(contract),
        !LedgerView::fresh(contract).globals().initialized,
        LedgerView::fresh(contract).globals().owner == contract,
        LedgerView::fresh(contract).globals().token == contract,
    decreases history.len(),
{
    if history.len() > 0 {
        let front = history.drop_last();
        assert forall|i: int| 0 <= i < front.len() implies !(#[trigger] front[i] is Initialize) by {
            assert(front[i] == history[i]);
        }
        nothing_is_stored_before_initialize(contract, front);
        assert(!(history[history.len() - 1] is Initialize));
    }
}

/// Reading the globals or a balance record is a call like any other in a
/// history, and it leaves the ledger exactly as it was.
pub proof fn reads_write_nothing(s: LedgerView, authorized: bool, from: Seq<char>)
    ensures
        step(s, Call::GetContractGlobals).0 == s,
        step(s, Call::GetUserInfo { authorized, from }).0 == s,
{
}

/// Ownership transfer: on an initialized contract `set_owner` succeeds
/// exactly when the caller is authorized and is the owner. It then changes
/// the owner and nothing else. An authorized caller that is not the owner
/// gets `NotOwner`, and before initialization an authorized caller gets
/// `NotInitialized`; either way nothing is written.
pub proof fn set_owner_needs_the_owner(
    s: LedgerView,
    authorized: bool,
    to: Seq<char>,
    new_owner: Seq<char>,
)
    ensures
        ({
            let (after, result) = set_owner_spec(s, authorized, to, new_owner);
            &&& result is Ok <==> authorized && s.globals().initialized && to == s.globals().owner
            &&& result is Ok ==> after.globals() == (OwnershipView {
                owner: new_owner,
                ..s.globals()
            }) && after.users == s.users
            &&& result is Err ==> after == s
            &&& authorized && s.globals().initialized && to != s.globals().owner ==> result == Err::<
                (),
                Failure,
            >(Failure::Rejected(Error::NotOwner))
            &&& authorized && !s.globals().initialized ==> result == Err::<(), Failure>(
                Failure::Rejected(Error::NotInitialized),
            )
            &&& !authorized ==> result == Err::<(), Failure>(Failure::Unauthorized)
        }),
{
}

/// Asset pinning: once the contract is initialized with an asset, whatever
/// is called afterwards, an authorized deposit of any other asset is
/// rejected with `MismatchingAsset` and leaves the ledger as it was: the
/// depositor's record is unchanged, and absent if it was absent.
pub proof fn deposit_of_another_asset_is_rejected(
    s: LedgerView,
    admin: Seq<char>,
    token: Seq<char>,
    later: Seq<Call>,
    from: Seq<char>,
    amount: int,
    asset: Seq<char>,
    moved: bool,
)
    requires
        initialize_spec(s, true, admin, token).1 is Ok,
        asset != token,
    ensures
        ({
            let now = run(initialize_spec(s, true, admin, token).0, later);
            deposit_spec(now, true, from, amount, asset, moved) == (
                now,
                Err::<(), Failure>(Failure::Rejected(Error::MismatchingAsset)),
            )
        }),
{
    run_keeps_what_is_fixed(initialize_spec(s, true, admin, token).0, later);
}

/// A call that is not a deposit by `user` leaves the record of `user` as it
/// was.
pub proof fn others_leave_a_record_alone(s: LedgerView, call: Call, user: Seq<char>)
    requires
        call matches Call::Deposit { from, .. } ==> from != user,
    ensures
        step(s, call).0.users.dom().contains(user) == s.users.dom().contains(user),
        step(s, call).0.user_info(user) == s.user_info(user),
{
}

/// The same, over a whole history.
pub proof fn others_leave_a_record_alone_throughout(
    s: LedgerView,
    history: Seq<Call>,
    user: Seq<char>,
)
    requires
        forall|i: int|
            0 <= i < history.len() ==> (#[trigger] history[i] matches Call::Deposit { from, .. }
                ==> from != user),
    ensures
        run(s, history).users.dom().contains(user) == s.users.dom().contains(user),
        run(s, history).user_info(user) == s.user_info(user),
    decreases history.len(),
{
    if history.len() > 0 {
        let front = history.drop_last();
        assert forall|i: int| 0 <= i < front.len() implies (#[trigger] front[i] matches Call::Deposit {
            from,
            ..
        } ==> from != user) by {
            assert(front[i] == history[i]);
        }
        others_leave_a_record_alone_throughout(s, front, user);
        let last = history[history.len() - 1];
        assert(last matches Call::Deposit { from, .. } ==> from != user);
        others_leave_a_record_alone(run(s, front), history.last(), user);
    }
}

/// Balance accumulation: a depositor without a record has balance zero, and
/// two successful deposits of `a1` and then `a2`, with whatever others call
/// in between, leave the depositor with what was there before plus
/// `a1 + a2`: with exactly `a1 + a2` if there was no record before.
pub proof fn deposits_add_up(
    s: LedgerView,
    from: Seq<char>,
    asset: Seq<char>,
    a1: int,
    between: Seq<Call>,
    a2: int,
)
    requires
        deposit_spec(s, true, from, a1, asset, true).1 is Ok,
        forall|i: int|
            0 <= i < between.len() ==> (#[trigger] between[i] matches Call::Deposit { from: other, .. }
                ==> other != from),
        deposit_spec(
            run(deposit_spec(s, true, from, a1, asset, true).0, between),
            true,
            from,
            a2,
            asset,
            true,
        ).1 is Ok,
    ensures
        !s.users.dom().contains(from) ==> s.user_info(from).balance == 0,
        ({
            let first = deposit_spec(s, true, from, a1, asset, true).0;
            let second = deposit_spec(run(first, between), true, from, a2, asset, true).0;
            &&& first.user_info(from).balance == s.user_info(from).balance + a1
            &&& second.users.dom().contains(from)
            &&& second.users[from].balance == s.user_info(from).balance + a1 + a2
            &&& !s.users.dom().contains(from) ==> second.users[from].balance == a1 + a2
        }),
{
    let first = deposit_spec(s, true, from, a1, asset, true).0;
    others_leave_a_record_alone_throughout(first, between, from);
}

} // verus!
