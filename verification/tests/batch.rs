use uliqs_legendary::address::Address;
use uliqs_legendary::batch::{initialize_batch, Batch, InitializeBatch, MAX_BATCH_SIZE};
use uliqs_legendary::error::ErrorCode;

fn key(b: u8) -> Address {
    Address::new([b; 32])
}

fn blank() -> InitializeBatch {
    InitializeBatch {
        batch: Batch {
            authority: key(0),
            treasury: key(0),
            current_mints: 0,
            max_mints: 0,
            mint_price_lamports: 0,
            triggered: false,
            bump: 0,
        },
        authority: key(1),
        payer: key(2),
        treasury: key(3),
        bump: 254,
    }
}

#[test]
fn initialize_batch_fills_the_record() {
    let mut ctx = blank();
    assert_eq!(initialize_batch(&mut ctx, 3, 1_000_000), Ok(()));
    assert_eq!(
        ctx.batch,
        Batch {
            authority: key(1),
            treasury: key(3),
            current_mints: 0,
            max_mints: 3,
            mint_price_lamports: 1_000_000,
            triggered: false,
            bump: 254,
        }
    );
    assert_eq!(ctx.authority, key(1));
    assert_eq!(ctx.payer, key(2));
}

#[test]
fn initialize_batch_refuses_cap_zero() {
    let mut ctx = blank();
    assert_eq!(initialize_batch(&mut ctx, 0, 5), Err(ErrorCode::InvalidBatchSize));
    assert_eq!(ctx, blank());
}

#[test]
fn initialize_batch_refuses_cap_101() {
    let mut ctx = blank();
    assert_eq!(initialize_batch(&mut ctx, 101, 5), Err(ErrorCode::InvalidBatchSize));
    assert_eq!(initialize_batch(&mut ctx, 255, 5), Err(ErrorCode::InvalidBatchSize));
    assert_eq!(ctx, blank());
}

#[test]
fn initialize_batch_refuses_fee_zero() {
    let mut ctx = blank();
    assert_eq!(initialize_batch(&mut ctx, 10, 0), Err(ErrorCode::InvalidPrice));
    assert_eq!(ctx, blank());
}

#[test]
fn initialize_batch_looks_at_the_cap_first() {
    let mut ctx = blank();
    assert_eq!(initialize_batch(&mut ctx, 0, 0), Err(ErrorCode::InvalidBatchSize));
}

#[test]
fn initialize_batch_accepts_the_bounds() {
    let mut ctx = blank();
    assert_eq!(initialize_batch(&mut ctx, 1, 1), Ok(()));
    assert_eq!(ctx.batch.max_mints, 1);
    let mut ctx = blank();
    assert_eq!(initialize_batch(&mut ctx, 100, u64::MAX), Ok(()));
    assert_eq!(ctx.batch.max_mints, 100);
    assert_eq!(ctx.batch.mint_price_lamports, u64::MAX);
    assert_eq!(MAX_BATCH_SIZE, 100);
}

#[test]
fn batch_record_length() {
    assert_eq!(Batch::LEN, 84);
}

#[test]
fn record_mint_counts_and_completes_at_the_cap() {
    let mut ctx = blank();
    assert_eq!(initialize_batch(&mut ctx, 5, 7), Ok(()));
    let mut batch = ctx.batch;
    for n in 1..=5u8 {
        assert_eq!(batch.check_open(), Ok(()));
        assert!(!batch.triggered);
        let completed = batch.record_mint();
        assert_eq!(batch.current_mints, n);
        assert_eq!(completed, n == 5);
        assert_eq!(batch.triggered, n == 5);
        assert!(batch.current_mints <= batch.max_mints);
        assert_eq!(batch.max_mints, 5);
        assert_eq!(batch.mint_price_lamports, 7);
        assert_eq!(batch.authority, key(1));
        assert_eq!(batch.treasury, key(3));
    }
    assert_eq!(batch.check_open(), Err(ErrorCode::BatchTriggered));
}

#[test]
fn check_open_reports_a_full_counter() {
    let batch = Batch {
        authority: key(1),
        treasury: key(3),
        current_mints: 3,
        max_mints: 3,
        mint_price_lamports: 1,
        triggered: false,
        bump: 0,
    };
    assert_eq!(batch.check_open(), Err(ErrorCode::MaxMintsReached));
}

#[test]
fn error_messages() {
    assert_eq!(ErrorCode::MaxMintsReached.message(), "Max mints reached for this batch");
    assert_eq!(
        ErrorCode::BatchTriggered.message(),
        "Batch already triggered — all NFTs minted"
    );
    assert_eq!(ErrorCode::InvalidBatchSize.message(), "max_mints must be between 1 and 100");
    assert_eq!(
        ErrorCode::InvalidPrice.message(),
        "mint_price_lamports must be greater than zero"
    );
    assert_eq!(ErrorCode::NameTooLong.message(), "Name must be 32 characters or fewer");
    assert_eq!(ErrorCode::UriTooLong.message(), "URI must be 200 characters or fewer");
    assert_eq!(
        ErrorCode::ExtensionError.message(),
        "Token-2022 extension instruction failed"
    );
}

#[test]
fn address_keeps_its_bytes() {
    let mut bytes = [0u8; 32];
    bytes[0] = 7;
    bytes[31] = 9;
    let a = Address::new(bytes);
    assert_eq!(a.bytes, bytes);
    assert_eq!(a, Address { bytes });
    assert_ne!(a, key(7));
}
