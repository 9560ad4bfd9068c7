//! The reasons for which the library rejects a request.

use vstd::prelude::*;

verus! {

/// Why a batch could not be created or a certificate could not be issued.
#[derive(Clone, Copy, Debug, PartialEq, Eq, Structural)]
pub enum ErrorCode {
    /// The batch has already issued as many certificates as its cap allows.
    MaxMintsReached,
    /// The batch is complete and accepts no further issuance.
    BatchTriggered,
    /// The cap is not between 1 and 100.
    InvalidBatchSize,
    /// The fee is not greater than zero.
    InvalidPrice,
    /// The certificate's name has more than 32 characters.
    NameTooLong,
    /// The certificate's display URI has more than 200 characters.
    UriTooLong,
    /// A step of the token ledger was refused.
    ExtensionError,
}

impl ErrorCode {
    /// The message that goes with the error.
    pub fn message(&self) -> (m: String)
        ensures
            m@ == self.message_spec(),
    {
        match self {
            ErrorCode::MaxMintsReached => "Max mints reached for this batch".to_owned(),
            ErrorCode::BatchTriggered => "Batch already triggered — all NFTs minted".to_owned(),
            ErrorCode::InvalidBatchSize => "max_mints must be between 1 and 100".to_owned(),
            ErrorCode::InvalidPrice => "mint_price_lamports must be greater than zero".to_owned(),
            ErrorCode::NameTooLong => "Name must be 32 characters or fewer".to_owned(),
            ErrorCode::UriTooLong => "URI must be 200 characters or fewer".to_owned(),
            ErrorCode::ExtensionError => "Token-2022 extension instruction failed".to_owned(),
        }
    }

    /// The text of `message`, for each error.
    pub open spec fn message_spec(&self) -> Seq<char> {
        match self {
            ErrorCode::MaxMintsReached => "Max mints reached for this batch"@,
            ErrorCode::BatchTriggered => "Batch already triggered — all NFTs minted"@,
            ErrorCode::InvalidBatchSize => "max_mints must be between 1 and 100"@,
            ErrorCode::InvalidPrice => "mint_price_lamports must be greater than zero"@,
            ErrorCode::NameTooLong => "Name must be 32 characters or fewer"@,
            ErrorCode::UriTooLong => "URI must be 200 characters or fewer"@,
            ErrorCode::ExtensionError => "Token-2022 extension instruction failed"@,
        }
    }
}

} // verus!
