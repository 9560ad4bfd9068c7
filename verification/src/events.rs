//! The notifications of a finished issuance.

use vstd::prelude::*;
use crate::address::Address;

verus! {

/// Said once for every issued certificate.
#[derive(Clone, Debug, PartialEq, Eq)]
pub struct MintCompleted {
    /// The registry the certificate was issued against.
    pub batch: Address,
    /// Who asked for the certificate and holds it.
    pub minter: Address,
    /// The certificate.
    pub mint: Address,
    /// The registry's counter after this issuance.
    pub number: u8,
    pub name: String,
    pub uri: String,
}

/// Said once for a batch, by the issuance that reaches its cap.
#[derive(Clone, Debug, PartialEq, Eq)]
pub struct WellTriggered {
    /// The registry that is now complete.
    pub batch: Address,
    /// The registry's final counter.
    pub total_minted: u8,
    pub message: String,
}

/// What a `MintCompleted` holds.
pub ghost struct MintCompletedView {
    pub batch: Address,
    pub minter: Address,
    pub mint: Address,
    pub number: u8,
    pub name: Seq<char>,
    pub uri: Seq<char>,
}

/// What a `WellTriggered` holds.
pub ghost struct WellTriggeredView {
    pub batch: Address,
    pub total_minted: u8,
    pub message: Seq<char>,
}

impl View for MintCompleted {
    type V = MintCompletedView;

    open spec fn view(&self) -> MintCompletedView {
        MintCompletedView {
            batch: self.batch,
            minter: self.minter,
            mint: self.mint,
            number: self.number,
            name: self.name@,
            uri: self.uri@,
        }
    }
}

impl View for WellTriggered {
    type V = WellTriggeredView;

    open spec fn view(&self) -> WellTriggeredView {
        WellTriggeredView {
            batch: self.batch,
            total_minted: self.total_minted,
            message: self.message@,
        }
    }
}

/// The text that announces a complete batch.
pub open spec fn completion_message() -> Seq<char> {
    "Aqua Vita well funding threshold reached!"@
}

impl WellTriggered {
    /// The announcement that the batch `batch` is complete with
    /// `total_minted` certificates.
    pub fn new(batch: Address, total_minted: u8) -> (e: WellTriggered)
        ensures
            e@ == (WellTriggeredView { batch, total_minted, message: completion_message() }),
    {
        WellTriggered {
            batch,
            total_minted,
            message: "Aqua Vita well funding threshold reached!".to_owned(),
        }
    }
}

} // verus!
