//! The request that the deposit ledger hands to the asset-transfer service.

use vstd::prelude::*;
use crate::identity::Identity;

verus! {

/// An order to move `amount` of `asset` from `from` into the custody of `to`.
#[derive(Clone, Debug)]
pub struct Transfer {
    pub from: Identity,
    pub to: Identity,
    pub amount: i128,
    pub asset: Identity,
}

/// What a [`Transfer`] asks for.
pub struct TransferView {
    pub from: Seq<char>,
    pub to: Seq<char>,
    pub amount: int,
    pub asset: Seq<char>,
}

impl View for Transfer {
    type V = TransferView;

    open spec fn view(&self) -> TransferView {
        TransferView {
            from: self.from@,
            to: self.to@,
            amount: self.amount as int,
            asset: self.asset@,
        }
    }
}

} // verus!
