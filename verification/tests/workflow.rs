use spl_token_2022::extension::ExtensionType;
use spl_token_2022::instruction::AuthorityType;
use spl_token_2022::solana_program::program_error::ProgramError;
use spl_token_2022::solana_program::pubkey::Pubkey;
use spl_token_2022::state::Mint;
use uliqs_legendary::action::{Action, Metadata};
use uliqs_legendary::address::Address;
use uliqs_legendary::batch::Batch;
use uliqs_legendary::error::ErrorCode;
use uliqs_legendary::events::{MintCompleted, WellTriggered};
use uliqs_legendary::ledger::{AccountMeta, Instruction, NON_TRANSFERABLE};
use uliqs_legendary::workflow::{
    allocation_action, check_guards, ledger_action, mint_soulbound, IssueError, Lifecycle,
    MintSoulbound, Outcome, Stage, Step, Workflow,
};

fn key(b: u8) -> Address {
    Address::new([b; 32])
}

fn token_program() -> Address {
    Address::new(spl_token_2022::id().to_bytes())
}

fn batch(current: u8, cap: u8) -> Batch {
    Batch {
        authority: key(1),
        treasury: key(3),
        current_mints: current,
        max_mints: cap,
        mint_price_lamports: 5_000,
        triggered: current == cap,
        bump: 254,
    }
}

fn request(batch: Batch, mint: u8) -> MintSoulbound {
    MintSoulbound {
        batch_key: key(9),
        batch,
        mint: key(mint),
        token_account: key(21),
        payer: key(2),
        metadata: key(22),
        token_program: token_program(),
    }
}

fn pk(a: Address) -> Pubkey {
    Pubkey::new_from_array(a.bytes)
}

fn plain(ix: spl_token_2022::solana_program::instruction::Instruction) -> Instruction {
    Instruction {
        program_id: Address::new(ix.program_id.to_bytes()),
        accounts: ix
            .accounts
            .iter()
            .map(|m| AccountMeta {
                pubkey: Address::new(m.pubkey.to_bytes()),
                is_signer: m.is_signer,
                is_writable: m.is_writable,
            })
            .collect(),
        data: ix.data,
    }
}

/// Runs a request to its end with a host that performs every step, and
/// gives the steps asked of it, the last answer, and the workflow.
fn issue(ctx: MintSoulbound, name: &str, uri: &str) -> (Vec<Action>, Step, Workflow) {
    let (mut flow, first) = mint_soulbound(ctx, name.to_string(), uri.to_string()).unwrap();
    let mut asked = vec![first];
    loop {
        assert!(flow.is_valid());
        match flow.advance(Outcome::Done) {
            Step::Perform(action) => asked.push(action),
            last => return (asked, last, flow),
        }
        assert!(asked.len() <= 8);
    }
}

/// Starts a request and lets the host perform the first `done` steps.
fn advance_to(ctx: MintSoulbound, done: usize) -> Workflow {
    let (mut flow, _) = mint_soulbound(ctx, "Well".to_string(), "https://x".to_string()).unwrap();
    for _ in 0..done {
        assert!(matches!(flow.advance(Outcome::Done), Step::Perform(_)));
    }
    flow
}

#[test]
fn issuance_asks_the_eight_steps_in_order() {
    let ctx = request(batch(0, 3), 40);
    let (asked, last, flow) = issue(ctx, "Well #1", "https://example.org/1.json");
    let authority = key(1);
    let tp = spl_token_2022::id();
    assert_eq!(asked.len(), 8);
    assert_eq!(asked[0], Action::Transfer { from: key(2), to: key(3), lamports: 5_000 });
    assert_eq!(
        asked[1],
        Action::Allocate { funder: key(2), account: key(40), space: 170, owner: token_program() }
    );
    assert_eq!(
        asked[2],
        Action::Invoke {
            instruction: Instruction {
                program_id: token_program(),
                accounts: vec![AccountMeta { pubkey: key(40), is_signer: false, is_writable: true }],
                data: vec![32],
            }
        }
    );
    let mut init_data = vec![20u8, 0];
    init_data.extend_from_slice(&[1u8; 32]);
    init_data.push(0);
    assert_eq!(
        asked[3],
        Action::Invoke {
            instruction: Instruction {
                program_id: token_program(),
                accounts: vec![AccountMeta { pubkey: key(40), is_signer: false, is_writable: true }],
                data: init_data,
            }
        }
    );
    assert_eq!(
        asked[4],
        Action::EnsureHoldingSlot {
            funder: key(2),
            holder: key(2),
            mint: key(40),
            slot: key(21),
            token_program: token_program(),
        }
    );
    assert_eq!(
        asked[5],
        Action::Invoke {
            instruction: Instruction {
                program_id: token_program(),
                accounts: vec![
                    AccountMeta { pubkey: key(40), is_signer: false, is_writable: true },
                    AccountMeta { pubkey: key(21), is_signer: false, is_writable: true },
                    AccountMeta { pubkey: authority, is_signer: false, is_writable: false },
                    AccountMeta { pubkey: authority, is_signer: true, is_writable: false },
                ],
                data: vec![7, 1, 0, 0, 0, 0, 0, 0, 0],
            }
        }
    );
    assert_eq!(
        asked[6],
        Action::Invoke {
            instruction: Instruction {
                program_id: token_program(),
                accounts: vec![
                    AccountMeta { pubkey: key(40), is_signer: false, is_writable: true },
                    AccountMeta { pubkey: authority, is_signer: false, is_writable: false },
                    AccountMeta { pubkey: authority, is_signer: true, is_writable: false },
                ],
                data: vec![6, 0, 0],
            }
        }
    );
    assert_eq!(
        asked[7],
        Action::AttachMetadata {
            metadata: Metadata {
                account: key(22),
                mint: key(40),
                authority,
                payer: key(2),
                name: "Well #1".to_string(),
                symbol: "ULIQS".to_string(),
                uri: "https://example.org/1.json".to_string(),
                seller_fee_basis_points: 0,
                creators: None,
                is_mutable: false,
            }
        }
    );
    assert_eq!(
        last,
        Step::Finished {
            issued: MintCompleted {
                batch: key(9),
                minter: key(2),
                mint: key(40),
                number: 1,
                name: "Well #1".to_string(),
                uri: "https://example.org/1.json".to_string(),
            },
            completed: None,
        }
    );
    assert_eq!(flow.stage, Stage::Finished);
    assert_eq!(flow.ctx.batch, Batch { current_mints: 1, ..batch(0, 3) });
    assert_eq!(tp.to_bytes(), token_program().bytes);
}

#[test]
fn ledger_steps_are_those_of_the_token_crate() {
    let ctx = request(batch(0, 3), 40);
    let (asked, _, _) = issue(ctx, "n", "u");
    let tp = spl_token_2022::id();
    let (mint, slot, authority) = (pk(key(40)), pk(key(21)), pk(key(1)));
    let len = ExtensionType::try_calculate_account_len::<Mint>(&[ExtensionType::NonTransferable])
        .unwrap();
    assert_eq!(
        asked[1],
        Action::Allocate {
            funder: key(2),
            account: key(40),
            space: len as u64,
            owner: token_program()
        }
    );
    let marker = spl_token_2022::instruction::initialize_non_transferable_mint(&tp, &mint).unwrap();
    assert_eq!(asked[2], Action::Invoke { instruction: plain(marker) });
    let init =
        spl_token_2022::instruction::initialize_mint2(&tp, &mint, &authority, None, 0).unwrap();
    assert_eq!(asked[3], Action::Invoke { instruction: plain(init) });
    let mint_to =
        spl_token_2022::instruction::mint_to(&tp, &mint, &slot, &authority, &[&authority], 1)
            .unwrap();
    assert_eq!(asked[5], Action::Invoke { instruction: plain(mint_to) });
    let revoke = spl_token_2022::instruction::set_authority(
        &tp,
        &mint,
        None,
        AuthorityType::MintTokens,
        &authority,
        &[&authority],
    )
    .unwrap();
    assert_eq!(asked[6], Action::Invoke { instruction: plain(revoke) });
}

#[test]
fn non_transferable_number_is_the_token_crates() {
    assert_eq!(NON_TRANSFERABLE, ExtensionType::NonTransferable as u16);
}

#[test]
fn cap_of_three_completes_on_the_third_and_refuses_the_fourth() {
    let mut registry = batch(0, 3);
    for n in 1..=3u8 {
        let (asked, last, flow) = issue(request(registry, 40 + n), "Well", "https://x");
        assert_eq!(asked.len(), 8);
        let completed = if n == 3 {
            Some(WellTriggered {
                batch: key(9),
                total_minted: 3,
                message: "Aqua Vita well funding threshold reached!".to_string(),
            })
        } else {
            None
        };
        assert_eq!(
            last,
            Step::Finished {
                issued: MintCompleted {
                    batch: key(9),
                    minter: key(2),
                    mint: key(40 + n),
                    number: n,
                    name: "Well".to_string(),
                    uri: "https://x".to_string(),
                },
                completed,
            }
        );
        registry = flow.ctx.batch;
        assert_eq!(registry.current_mints, n);
        assert_eq!(registry.triggered, n == 3);
    }
    let fourth = mint_soulbound(request(registry, 44), "Well".to_string(), "https://x".to_string());
    assert!(fourth.is_err());
    assert_eq!(fourth, Err(ErrorCode::BatchTriggered));
    assert_eq!(registry.current_mints, 3);
    assert!(registry.triggered);
}

#[test]
fn full_counter_without_completion_is_max_mints_reached() {
    let registry = Batch { triggered: false, ..batch(3, 3) };
    assert_eq!(
        mint_soulbound(request(registry, 40), "a".to_string(), "b".to_string()),
        Err(ErrorCode::MaxMintsReached)
    );
    assert_eq!(check_guards(&registry, "a", "b"), Err(ErrorCode::MaxMintsReached));
}

#[test]
fn name_of_33_characters_is_refused_with_no_step() {
    let name = "n".repeat(33);
    let r = mint_soulbound(request(batch(0, 3), 40), name.clone(), "https://x".to_string());
    assert_eq!(r, Err(ErrorCode::NameTooLong));
    assert_eq!(check_guards(&batch(0, 3), &name, "https://x"), Err(ErrorCode::NameTooLong));
}

#[test]
fn name_of_32_characters_is_accepted() {
    let name = "n".repeat(32);
    assert_eq!(check_guards(&batch(0, 3), &name, ""), Ok(()));
    let wide = "é".repeat(32);
    assert_eq!(check_guards(&batch(0, 3), &wide, ""), Ok(()));
    let wide = "é".repeat(33);
    assert_eq!(check_guards(&batch(0, 3), &wide, ""), Err(ErrorCode::NameTooLong));
}

#[test]
fn uri_of_201_characters_is_refused() {
    let uri = "u".repeat(201);
    assert_eq!(
        mint_soulbound(request(batch(0, 3), 40), "a".to_string(), uri),
        Err(ErrorCode::UriTooLong)
    );
    assert_eq!(check_guards(&batch(0, 3), "a", &"u".repeat(200)), Ok(()));
}

#[test]
fn guards_are_checked_in_order() {
    let long_name = "n".repeat(40);
    let long_uri = "u".repeat(300);
    assert_eq!(
        check_guards(&batch(3, 3), &long_name, &long_uri),
        Err(ErrorCode::BatchTriggered)
    );
    assert_eq!(
        check_guards(&Batch { triggered: false, ..batch(3, 3) }, &long_name, &long_uri),
        Err(ErrorCode::MaxMintsReached)
    );
    assert_eq!(check_guards(&batch(1, 3), &long_name, &long_uri), Err(ErrorCode::NameTooLong));
    assert_eq!(check_guards(&batch(1, 3), "ok", &long_uri), Err(ErrorCode::UriTooLong));
}

#[test]
fn failed_fee_transfer_leaves_nothing() {
    let ctx = request(batch(1, 3), 40);
    let (mut flow, first) = mint_soulbound(ctx, "a".to_string(), "b".to_string()).unwrap();
    assert_eq!(first, Action::Transfer { from: key(2), to: key(3), lamports: 5_000 });
    assert_eq!(flow.stage.certificate_state(), Lifecycle::NonExistent);
    assert_eq!(flow.advance(Outcome::Failed), Step::Failed(IssueError::InsufficientFunds));
    assert_eq!(flow.stage, Stage::Aborted);
    assert_eq!(flow.stage.certificate_state(), Lifecycle::NonExistent);
    assert_eq!(flow.ctx.batch, batch(1, 3));
    assert_eq!(flow.advance(Outcome::Done), Step::Closed);
    assert_eq!(flow.stage, Stage::Aborted);
    assert_eq!(flow.ctx.batch, batch(1, 3));
}

#[test]
fn taken_identity_fails_the_allocation() {
    let registry = batch(0, 3);
    let (_, last, flow) = issue(request(registry, 40), "a", "b");
    assert!(matches!(last, Step::Finished { .. }));
    let mut again = advance_to(request(flow.ctx.batch, 40), 1);
    assert_eq!(again.stage, Stage::FeePaid);
    assert_eq!(again.advance(Outcome::Failed), Step::Failed(IssueError::AllocationFailed));
    assert_eq!(again.stage, Stage::Aborted);
    assert_eq!(again.ctx.batch, flow.ctx.batch);
    assert_eq!(again.ctx.batch.current_mints, 1);
}

#[test]
fn each_failed_step_aborts_with_its_error() {
    let expected = [
        IssueError::InsufficientFunds,
        IssueError::AllocationFailed,
        IssueError::Code(ErrorCode::ExtensionError),
        IssueError::Code(ErrorCode::ExtensionError),
        IssueError::Code(ErrorCode::ExtensionError),
        IssueError::Code(ErrorCode::ExtensionError),
        IssueError::Code(ErrorCode::ExtensionError),
        IssueError::MetadataFailed,
    ];
    for (done, error) in expected.iter().enumerate() {
        let mut flow = advance_to(request(batch(2, 3), 40), done);
        assert_eq!(flow.stage.failure_of(), *error);
        assert_eq!(flow.advance(Outcome::Failed), Step::Failed(*error));
        assert_eq!(flow.stage, Stage::Aborted);
        assert_eq!(flow.ctx.batch, batch(2, 3));
    }
}

#[test]
fn stages_follow_the_certificate() {
    let stages = [
        (Stage::Started, Lifecycle::NonExistent),
        (Stage::FeePaid, Lifecycle::NonExistent),
        (Stage::Allocated, Lifecycle::Allocated),
        (Stage::MarkerInitialized, Lifecycle::MarkerInitialized),
        (Stage::Initialized, Lifecycle::Initialized),
        (Stage::SlotReady, Lifecycle::Initialized),
        (Stage::Issued, Lifecycle::Issued),
        (Stage::AuthorityRevoked, Lifecycle::AuthorityRevoked),
    ];
    for (done, (stage, certificate)) in stages.iter().enumerate() {
        let flow = advance_to(request(batch(0, 3), 40), done);
        assert_eq!(flow.stage, *stage);
        assert_eq!(flow.stage.certificate_state(), *certificate);
        assert!(flow.stage.is_pending());
        if done > 0 {
            assert_eq!(stages[done - 1].0.successor(), *stage);
        }
    }
    assert_eq!(Stage::AuthorityRevoked.successor(), Stage::Finished);
    assert_eq!(Stage::Finished.certificate_state(), Lifecycle::MetadataAttached);
    assert!(!Stage::Finished.is_pending());
    assert!(!Stage::Aborted.is_pending());
    assert_eq!(Stage::Finished.successor(), Stage::Finished);
    assert_eq!(Stage::Aborted.successor(), Stage::Aborted);
}

#[test]
fn finished_workflow_takes_no_further_report() {
    let (_, _, mut flow) = issue(request(batch(2, 3), 40), "a", "b");
    assert_eq!(flow.stage, Stage::Finished);
    let before = flow.clone();
    assert_eq!(flow.advance(Outcome::Done), Step::Closed);
    assert_eq!(flow.advance(Outcome::Failed), Step::Closed);
    assert_eq!(flow, before);
    assert_eq!(flow.ctx.batch.current_mints, 3);
    assert!(flow.ctx.batch.triggered);
}

#[test]
fn foreign_token_program_is_an_extension_error() {
    let ctx = MintSoulbound { token_program: key(77), ..request(batch(0, 3), 40) };
    let (mut flow, _) = mint_soulbound(ctx, "a".to_string(), "b".to_string()).unwrap();
    assert!(matches!(flow.advance(Outcome::Done), Step::Perform(Action::Allocate { .. })));
    assert_eq!(
        flow.advance(Outcome::Done),
        Step::Failed(IssueError::Code(ErrorCode::ExtensionError))
    );
    assert_eq!(flow.stage, Stage::Aborted);
    assert_eq!(flow.ctx.batch, batch(0, 3));
}

#[test]
fn ledger_action_wraps_or_refuses() {
    let ix = Instruction { program_id: key(5), accounts: vec![], data: vec![1, 2, 3] };
    assert_eq!(ledger_action(Ok(ix.clone())), Ok(Action::Invoke { instruction: ix }));
    assert_eq!(
        ledger_action(Err(ProgramError::IncorrectProgramId)),
        Err(ErrorCode::ExtensionError)
    );
}

#[test]
fn allocation_action_sizes_the_record() {
    let ctx = request(batch(0, 3), 40);
    assert_eq!(
        allocation_action(&ctx, Ok(170)),
        Ok(Action::Allocate {
            funder: key(2),
            account: key(40),
            space: 170,
            owner: token_program()
        })
    );
    assert_eq!(
        allocation_action(&ctx, Err(ProgramError::InvalidArgument)),
        Err(ErrorCode::ExtensionError)
    );
}

#[test]
fn invalid_workflow_is_told_apart() {
    let flow = Workflow {
        ctx: request(batch(3, 3), 40),
        name: String::new(),
        uri: String::new(),
        stage: Stage::Issued,
    };
    assert!(!flow.is_valid());
    let ended = Workflow { stage: Stage::Finished, ..flow.clone() };
    assert!(ended.is_valid());
}

#[test]
fn instruction_parts_are_kept() {
    let meta = AccountMeta::new([4; 32], true, false);
    assert_eq!(meta, AccountMeta { pubkey: key(4), is_signer: true, is_writable: false });
    let ix = Instruction::new([5; 32], vec![meta], vec![9, 8]);
    assert_eq!(
        ix,
        Instruction { program_id: key(5), accounts: vec![meta], data: vec![9, 8] }
    );
}
