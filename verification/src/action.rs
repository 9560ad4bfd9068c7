//! What an issuance asks of its host, one step at a time.

use vstd::prelude::*;
use crate::address::Address;
use crate::ledger::{Instruction, InstructionView};

verus! {

/// The descriptive fields attached to a certificate.
#[derive(Clone, Debug, PartialEq, Eq)]
pub struct Metadata {
    /// The record that holds the fields.
    pub account: Address,
    /// The certificate they describe.
    pub mint: Address,
    /// The authority that signs for the certificate.
    pub authority: Address,
    /// Who pays for the record.
    pub payer: Address,
    pub name: String,
    pub symbol: String,
    pub uri: String,
    /// The fee on a resale, in hundredths of a percent.
    pub seller_fee_basis_points: u16,
    /// The creators to list, if any.
    pub creators: Option<Vec<Address>>,
    /// Whether the fields may be changed later.
    pub is_mutable: bool,
}

/// What a `Metadata` holds.
pub ghost struct MetadataView {
    pub account: Address,
    pub mint: Address,
    pub authority: Address,
    pub payer: Address,
    pub name: Seq<char>,
    pub symbol: Seq<char>,
    pub uri: Seq<char>,
    pub seller_fee_basis_points: u16,
    pub creators: Option<Seq<Address>>,
    pub is_mutable: bool,
}

impl View for Metadata {
    type V = MetadataView;

    open spec fn view(&self) -> MetadataView {
        MetadataView {
            account: self.account,
            mint: self.mint,
            authority: self.authority,
            payer: self.payer,
            name: self.name@,
            symbol: self.symbol@,
            uri: self.uri@,
            seller_fee_basis_points: self.seller_fee_basis_points,
            creators: match self.creators {
                Some(list) => Some(list@),
                None => None,
            },
            is_mutable: self.is_mutable,
        }
    }
}

/// One step for the host to perform.
#[derive(Clone, Debug, PartialEq, Eq)]
pub enum Action {
    /// Move `lamports` from `from` to `to`.
    Transfer { from: Address, to: Address, lamports: u64 },
    /// Create the record `account` with `space` bytes, owned by the program
    /// `owner` and paid for by `funder`.
    Allocate { funder: Address, account: Address, space: u64, owner: Address },
    /// Hand the instruction to its program.
    Invoke { instruction: Instruction },
    /// Make sure that `holder` has the holding slot `slot` for the
    /// certificate `mint`, creating it at `funder`'s cost if it is absent.
    EnsureHoldingSlot {
        funder: Address,
        holder: Address,
        mint: Address,
        slot: Address,
        token_program: Address,
    },
    /// Attach the descriptive fields to their certificate.
    AttachMetadata { metadata: Metadata },
}

/// What an `Action` holds.
pub ghost enum ActionView {
    Transfer { from: Address, to: Address, lamports: u64 },
    Allocate { funder: Address, account: Address, space: u64, owner: Address },
    Invoke { instruction: InstructionView },
    EnsureHoldingSlot {
        funder: Address,
        holder: Address,
        mint: Address,
        slot: Address,
        token_program: Address,
    },
    AttachMetadata { metadata: MetadataView },
}

impl View for Action {
    type V = ActionView;

    open spec fn view(&self) -> ActionView {
        match *self {
            Action::Transfer { from, to, lamports } => ActionView::Transfer { from, to, lamports },
            Action::Allocate { funder, account, space, owner } => ActionView::Allocate {
                funder,
                account,
                space,
                owner,
            },
            Action::Invoke { instruction } => ActionView::Invoke { instruction: instruction@ },
            Action::EnsureHoldingSlot {
                funder,
                holder,
                mint,
                slot,
                token_program,
            } => ActionView::EnsureHoldingSlot { funder, holder, mint, slot, token_program },
            Action::AttachMetadata { metadata } => ActionView::AttachMetadata {
                metadata: metadata@,
            },
        }
    }
}

} // verus!
