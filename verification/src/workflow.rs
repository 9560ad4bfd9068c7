//! The issuance of one certificate: the guards, the ordered steps, and what
//! each outcome of a step leads to.
//!
//! The host performs the steps; the workflow decides them. A request starts
//! with `mint_soulbound`, which names the first step. After each step the host
//! reports its outcome to `Workflow::advance`, which names the next step,
//! finishes the issuance, or aborts it.

use vstd::prelude::*;
use vstd::string::StrSliceExecFns;
use spl_token_2022::solana_program::program_error::ProgramError;
use crate::action::{Action, ActionView, Metadata, MetadataView};
use crate::address::Address;
use crate::batch::Batch;
use crate::error::ErrorCode;
use crate::events::{
    completion_message,
    MintCompleted,
    MintCompletedView,
    WellTriggered,
    WellTriggeredView,
};
use crate::ledger::{
    approved_accounts,
    build_initialize_mint,
    build_mint_to,
    build_non_transferable,
    build_set_authority,
    initialize_mint_data,
    mint_account_len,
    mint_to_data,
    non_transferable_data,
    set_authority_data,
    try_mint_account_len,
    AccountMeta,
    AuthorityKind,
    Instruction,
    InstructionView,
    NON_TRANSFERABLE,
};

verus! {

/// The most characters a certificate's name may have.
pub const MAX_NAME_LEN: usize = 32;

/// The most characters a certificate's display URI may have.
pub const MAX_URI_LEN: usize = 200;

/// The accounts that take part in one issuance.
#[derive(Clone, Copy, Debug, PartialEq, Eq)]
pub struct MintSoulbound {
    /// The identity of the registry.
    pub batch_key: Address,
    /// The registry. Its authority lends the certificate its issuing
    /// authority, and its treasury receives the fee.
    pub batch: Batch,
    /// The fresh identity of the certificate.
    pub mint: Address,
    /// The requester's holding slot for the certificate.
    pub token_account: Address,
    /// Who asks, pays, and will hold the certificate.
    pub payer: Address,
    /// The record for the certificate's descriptive fields.
    pub metadata: Address,
    /// The program that keeps the token ledger.
    pub token_program: Address,
}

/// How far an issuance has come: the steps that the host has performed.
#[derive(Clone, Copy, Debug, PartialEq, Eq, Structural)]
pub enum Stage {
    /// The guards have passed; nothing has been done.
    Started,
    /// The fee is with the treasury.
    FeePaid,
    /// The certificate's record exists.
    Allocated,
    /// The record carries the non-transferability marker.
    MarkerInitialized,
    /// The certificate is initialised, under its temporary issuing authority.
    Initialized,
    /// The requester has a holding slot for the certificate.
    SlotReady,
    /// The one unit is in the requester's holding slot.
    Issued,
    /// Nobody can issue further units.
    AuthorityRevoked,
    /// The descriptive fields are attached and the registry has counted the
    /// certificate.
    Finished,
    /// A step failed; the host undoes what the request did.
    Aborted,
}

/// The states of a certificate.
#[derive(Clone, Copy, Debug, PartialEq, Eq, Structural)]
pub enum Lifecycle {
    NonExistent,
    Allocated,
    MarkerInitialized,
    Initialized,
    Issued,
    AuthorityRevoked,
    MetadataAttached,
}

/// What the host reports of the step it was asked to perform.
#[derive(Clone, Copy, Debug, PartialEq, Eq, Structural)]
pub enum Outcome {
    Done,
    Failed,
}

/// Why an issuance was aborted.
#[derive(Clone, Copy, Debug, PartialEq, Eq, Structural)]
pub enum IssueError {
    /// A guard refused the request, or the token ledger refused a step.
    Code(ErrorCode),
    /// The requester could not pay the fee.
    InsufficientFunds,
    /// The certificate's record could not be created: its identity is
    /// taken, or the requester could not fund it.
    AllocationFailed,
    /// The descriptive fields could not be attached.
    MetadataFailed,
}

/// What the workflow answers to an outcome.
#[derive(Clone, Debug, PartialEq, Eq)]
pub enum Step {
    /// The host performs this next.
    Perform(Action),
    /// The certificate is issued: the notifications to send.
    Finished { issued: MintCompleted, completed: Option<WellTriggered> },
    /// The request is aborted.
    Failed(IssueError),
    /// The issuance had ended before; nothing changed.
    Closed,
}

/// What a `Step` holds.
pub ghost enum StepView {
    Perform(ActionView),
    Finished { issued: MintCompletedView, completed: Option<WellTriggeredView> },
    Failed(IssueError),
    Closed,
}

impl View for Step {
    type V = StepView;

    open spec fn view(&self) -> StepView {
        match *self {
            Step::Perform(action) => StepView::Perform(action@),
            Step::Finished { issued, completed } => StepView::Finished {
                issued: issued@,
                completed: match completed {
                    Some(e) => Some(e@),
                    None => None,
                },
            },
            Step::Failed(e) => StepView::Failed(e),
            Step::Closed => StepView::Closed,
        }
    }
}

/// One issuance under way.
#[derive(Clone, Debug, PartialEq, Eq)]
pub struct Workflow {
    pub ctx: MintSoulbound,
    pub name: String,
    pub uri: String,
    pub stage: Stage,
}

impl Lifecycle {
    /// How many units of the certificate exist.
    pub open spec fn supply(self) -> nat {
        match self {
            Lifecycle::Issued | Lifecycle::AuthorityRevoked | Lifecycle::MetadataAttached => 1,
            _ => 0,
        }
    }

    /// Whether anybody holds the authority to issue units.
    pub open spec fn has_issuing_authority(self) -> bool {
        self == Lifecycle::Initialized || self == Lifecycle::Issued
    }
}

impl Stage {
    /// Whether the issuance waits for the outcome of a step.
    pub open spec fn pending(self) -> bool {
        self != Stage::Finished && self != Stage::Aborted
    }

    /// The stage that one more performed step leads to.
    pub open spec fn next(self) -> Stage {
        match self {
            Stage::Started => Stage::FeePaid,
            Stage::FeePaid => Stage::Allocated,
            Stage::Allocated => Stage::MarkerInitialized,
            Stage::MarkerInitialized => Stage::Initialized,
            Stage::Initialized => Stage::SlotReady,
            Stage::SlotReady => Stage::Issued,
            Stage::Issued => Stage::AuthorityRevoked,
            Stage::AuthorityRevoked => Stage::Finished,
            Stage::Finished => Stage::Finished,
            Stage::Aborted => Stage::Aborted,
        }
    }

    /// Why the issuance is aborted when the step that a stage waits for
    /// fails: the transfer for want of funds, the allocation and the
    /// metadata each for its own reason, a step of the token ledger as an
    /// extension error.
    pub open spec fn failure(self) -> IssueError {
        match self {
            Stage::Started => IssueError::InsufficientFunds,
            Stage::FeePaid => IssueError::AllocationFailed,
            Stage::AuthorityRevoked => IssueError::MetadataFailed,
            _ => IssueError::Code(ErrorCode::ExtensionError),
        }
    }

    /// The state of the certificate at a stage. An aborted request leaves
    /// none behind.
    pub open spec fn certificate(self) -> Lifecycle {
        match self {
            Stage::Started | Stage::FeePaid | Stage::Aborted => Lifecycle::NonExistent,
            Stage::Allocated => Lifecycle::Allocated,
            Stage::MarkerInitialized => Lifecycle::MarkerInitialized,
            Stage::Initialized | Stage::SlotReady => Lifecycle::Initialized,
            Stage::Issued => Lifecycle::Issued,
            Stage::AuthorityRevoked => Lifecycle::AuthorityRevoked,
            Stage::Finished => Lifecycle::MetadataAttached,
        }
    }

    /// Whether the issuance waits for the outcome of a step.
    pub fn is_pending(&self) -> (r: bool)
        ensures
            r == self.pending(),
    {
        match self {
            Stage::Finished | Stage::Aborted => false,
            _ => true,
        }
    }

    /// The stage that one more performed step leads to.
    pub fn successor(&self) -> (s: Stage)
        ensures
            s == self.next(),
    {
        match self {
            Stage::Started => Stage::FeePaid,
            Stage::FeePaid => Stage::Allocated,
            Stage::Allocated => Stage::MarkerInitialized,
            Stage::MarkerInitialized => Stage::Initialized,
            Stage::Initialized => Stage::SlotReady,
            Stage::SlotReady => Stage::Issued,
            Stage::Issued => Stage::AuthorityRevoked,
            Stage::AuthorityRevoked => Stage::Finished,
            Stage::Finished => Stage::Finished,
            Stage::Aborted => Stage::Aborted,
        }
    }

    /// Why the issuance is aborted when the step that this stage waits for
    /// fails.
    pub fn failure_of(&self) -> (e: IssueError)
        ensures
            e == self.failure(),
    {
        match self {
            Stage::Started => IssueError::InsufficientFunds,
            Stage::FeePaid => IssueError::AllocationFailed,
            Stage::AuthorityRevoked => IssueError::MetadataFailed,
            _ => IssueError::Code(ErrorCode::ExtensionError),
        }
    }

    /// The state of the certificate at this stage.
    pub fn certificate_state(&self) -> (c: Lifecycle)
        ensures
            c == self.certificate(),
    {
        match self {
            Stage::Started | Stage::FeePaid | Stage::Aborted => Lifecycle::NonExistent,
            Stage::Allocated => Lifecycle::Allocated,
            Stage::MarkerInitialized => Lifecycle::MarkerInitialized,
            Stage::Initialized | Stage::SlotReady => Lifecycle::Initialized,
            Stage::Issued => Lifecycle::Issued,
            Stage::AuthorityRevoked => Lifecycle::AuthorityRevoked,
            Stage::Finished => Lifecycle::MetadataAttached,
        }
    }
}

/// The symbol that every certificate carries.
pub open spec fn symbol() -> Seq<char> {
    "ULIQS"@
}

/// What the guards say of a request, in their order: a complete batch, a
/// counter at its cap, a name of more than 32 characters, a URI of more than
/// 200.
pub open spec fn guard(batch: Batch, name: Seq<char>, uri: Seq<char>) -> Result<(), ErrorCode> {
    if batch.triggered {
        Err(ErrorCode::BatchTriggered)
    } else if batch.current_mints >= batch.max_mints {
        Err(ErrorCode::MaxMintsReached)
    } else if name.len() > MAX_NAME_LEN {
        Err(ErrorCode::NameTooLong)
    } else if uri.len() > MAX_URI_LEN {
        Err(ErrorCode::UriTooLong)
    } else {
        Ok(())
    }
}

/// Checks a request against the guards.
pub fn check_guards(batch: &Batch, name: &str, uri: &str) -> (r: Result<(), ErrorCode>)
    ensures
        r == guard(*batch, name@, uri@),
{
    match batch.check_open() {
        Err(e) => {
            return Err(e);
        },
        Ok(_) => {},
    }
    if name.unicode_len() > MAX_NAME_LEN {
        return Err(ErrorCode::NameTooLong);
    }
    if uri.unicode_len() > MAX_URI_LEN {
        return Err(ErrorCode::UriTooLong);
    }
    Ok(())
}

/// The step that asks the ledger for an instruction: the instruction is
/// handed to its program, and a refusal to build it is an extension error.
pub fn ledger_action(built: Result<Instruction, ProgramError>) -> (r: Result<Action, ErrorCode>)
    ensures
        match built {
            Ok(ix) => r == Ok::<Action, ErrorCode>(Action::Invoke { instruction: ix }),
            Err(_) => r == Err::<Action, ErrorCode>(ErrorCode::ExtensionError),
        },
{
    match built {
        Ok(ix) => Ok(Action::Invoke { instruction: ix }),
        Err(_) => Err(ErrorCode::ExtensionError),
    }
}

/// The step that creates the certificate's record: `len` bytes, paid by
/// the requester and owned by the token program. A size that could not be
/// computed is an extension error.
pub fn allocation_action(ctx: &MintSoulbound, len: Result<usize, ProgramError>) -> (r: Result<
    Action,
    ErrorCode,
>)
    ensures
        match len {
            Ok(n) => r == Ok::<Action, ErrorCode>(
                Action::Allocate {
                    funder: ctx.payer,
                    account: ctx.mint,
                    space: n as u64,
                    owner: ctx.token_program,
                },
            ),
            Err(_) => r == Err::<Action, ErrorCode>(ErrorCode::ExtensionError),
        },
{
    match len {
        Ok(n) => Ok(
            Action::Allocate {
                funder: ctx.payer,
                account: ctx.mint,
                space: n as u64,
                owner: ctx.token_program,
            },
        ),
        Err(_) => Err(ErrorCode::ExtensionError),
    }
}

/// An instruction for the token ledger, or the extension error where the
/// ledger's crate gave no bytes for it.
pub open spec fn ledger_step(
    program: Address,
    accounts: Seq<AccountMeta>,
    data: Option<Seq<u8>>,
) -> Result<ActionView, ErrorCode> {
    match data {
        Some(data) => Ok(
            ActionView::Invoke {
                instruction: InstructionView { program_id: program, accounts, data },
            },
        ),
        None => Err(ErrorCode::ExtensionError),
    }
}

impl Workflow {
    /// A workflow that waits for a step has a registry with room for one
    /// more certificate.
    pub open spec fn wf(&self) -> bool {
        self.stage.pending() ==> self.ctx.batch.current_mints < self.ctx.batch.max_mints
    }

    /// Whether the workflow is valid.
    pub fn is_valid(&self) -> (r: bool)
        ensures
            r == self.wf(),
    {
        !self.stage.is_pending() || self.ctx.batch.current_mints < self.ctx.batch.max_mints
    }

    /// The step that the workflow waits for at its stage, in the fixed
    /// order: the fee to the registry's treasury; the certificate's record,
    /// sized for the non-transferability marker; the marker; the
    /// certificate itself, with no fractional units, the registry's
    /// authority as issuing authority and nobody to freeze; the requester's
    /// holding slot; one unit into that slot; the issuing authority given
    /// up for good; the descriptive fields, immutable. An extension error
    /// where the ledger's crate does not give the size or the instruction.
    pub open spec fn upcoming(&self) -> Result<ActionView, ErrorCode>
        recommends
            self.stage.pending(),
    {
        let ctx = self.ctx;
        let authority = ctx.batch.authority;
        match self.stage {
            Stage::Started => Ok(
                ActionView::Transfer {
                    from: ctx.payer,
                    to: ctx.batch.treasury,
                    lamports: ctx.batch.mint_price_lamports,
                },
            ),
            Stage::FeePaid => match mint_account_len(seq![NON_TRANSFERABLE]) {
                Some(n) => Ok(
                    ActionView::Allocate {
                        funder: ctx.payer,
                        account: ctx.mint,
                        space: n as u64,
                        owner: ctx.token_program,
                    },
                ),
                None => Err(ErrorCode::ExtensionError),
            },
            Stage::Allocated => ledger_step(
                ctx.token_program,
                seq![AccountMeta::writable(ctx.mint, false)],
                non_transferable_data(ctx.token_program@, ctx.mint@),
            ),
            Stage::MarkerInitialized => ledger_step(
                ctx.token_program,
                seq![AccountMeta::writable(ctx.mint, false)],
                initialize_mint_data(ctx.token_program@, ctx.mint@, authority@, None, 0),
            ),
            Stage::Initialized => Ok(
                ActionView::EnsureHoldingSlot {
                    funder: ctx.payer,
                    holder: ctx.payer,
                    mint: ctx.mint,
                    slot: ctx.token_account,
                    token_program: ctx.token_program,
                },
            ),
            Stage::SlotReady => ledger_step(
                ctx.token_program,
                approved_accounts(
                    seq![
                        AccountMeta::writable(ctx.mint, false),
                        AccountMeta::writable(ctx.token_account, false),
                    ],
                    authority,
                    seq![authority],
                ),
                mint_to_data(
                    ctx.token_program@,
                    ctx.mint@,
                    ctx.token_account@,
                    authority@,
                    authority@,
                    1,
                ),
            ),
            Stage::Issued => ledger_step(
                ctx.token_program,
                approved_accounts(
                    seq![AccountMeta::writable(ctx.mint, false)],
                    authority,
                    seq![authority],
                ),
                set_authority_data(
                    ctx.token_program@,
                    ctx.mint@,
                    None,
                    AuthorityKind::MintTokens,
                    authority@,
                    authority@,
                ),
            ),
            _ => Ok(
                ActionView::AttachMetadata {
                    metadata: MetadataView {
                        account: ctx.metadata,
                        mint: ctx.mint,
                        authority,
                        payer: ctx.payer,
                        name: self.name@,
                        symbol: symbol(),
                        uri: self.uri@,
                        seller_fee_basis_points: 0,
                        creators: None,
                        is_mutable: false,
                    },
                },
            ),
        }
    }

    /// The notification of the certificate that this workflow issues.
    pub open spec fn issued_event(&self) -> MintCompletedView {
        MintCompletedView {
            batch: self.ctx.batch_key,
            minter: self.ctx.payer,
            mint: self.ctx.mint,
            number: self.ctx.batch.recorded().current_mints,
            name: self.name@,
            uri: self.uri@,
        }
    }

    /// The notification that the batch is complete, if this workflow's
    /// certificate is the one that reaches the cap.
    pub open spec fn completed_event(&self) -> Option<WellTriggeredView> {
        if self.ctx.batch.recorded().triggered {
            Some(
                WellTriggeredView {
                    batch: self.ctx.batch_key,
                    total_minted: self.ctx.batch.recorded().current_mints,
                    message: completion_message(),
                },
            )
        } else {
            None
        }
    }

    /// The workflow at another stage.
    pub open spec fn at(self, stage: Stage) -> Workflow {
        Workflow { stage, ..self }
    }

    /// The workflow after the host has reported `outcome`. A workflow that
    /// has ended stays as it is. A failed step aborts. A performed step
    /// leads to the next stage, unless the step after it cannot be built,
    /// which aborts too. The last step finishes the issuance, and only then
    /// does the registry count the certificate.
    pub open spec fn after(self, outcome: Outcome) -> Workflow {
        if !self.stage.pending() {
            self
        } else if outcome == Outcome::Failed {
            self.at(Stage::Aborted)
        } else if self.stage.next() == Stage::Finished {
            Workflow {
                stage: Stage::Finished,
                ctx: MintSoulbound { batch: self.ctx.batch.recorded(), ..self.ctx },
                ..self
            }
        } else if self.at(self.stage.next()).upcoming() is Ok {
            self.at(self.stage.next())
        } else {
            self.at(Stage::Aborted)
        }
    }

    /// What the workflow answers when the host reports `outcome`.
    pub open spec fn reply(self, outcome: Outcome) -> StepView {
        if !self.stage.pending() {
            StepView::Closed
        } else if outcome == Outcome::Failed {
            StepView::Failed(self.stage.failure())
        } else if self.stage.next() == Stage::Finished {
            StepView::Finished { issued: self.issued_event(), completed: self.completed_event() }
        } else {
            match self.at(self.stage.next()).upcoming() {
                Ok(action) => StepView::Perform(action),
                Err(e) => StepView::Failed(IssueError::Code(e)),
            }
        }
    }

    /// Builds the step that the workflow waits for at its stage.
    pub(crate) fn next_action(&self) -> (r: Result<Action, ErrorCode>)
        requires
            self.stage.pending(),
        ensures
            match self.upcoming() {
                Ok(action) => r matches Ok(a) && a@ == action,
                Err(e) => r == Err::<Action, ErrorCode>(e),
            },
    {
        let ctx = &self.ctx;
        let authority = ctx.batch.authority;
        match self.stage {
            Stage::Started => Ok(
                Action::Transfer {
                    from: ctx.payer,
                    to: ctx.batch.treasury,
                    lamports: ctx.batch.mint_price_lamports,
                },
            ),
            Stage::FeePaid => {
                let extensions: Vec<u16> = vec![NON_TRANSFERABLE];
                assert(extensions@ =~= seq![NON_TRANSFERABLE]);
                allocation_action(ctx, try_mint_account_len(&extensions))
            },
            Stage::Allocated => ledger_action(build_non_transferable(&ctx.token_program, &ctx.mint)),
            Stage::MarkerInitialized => ledger_action(
                build_initialize_mint(&ctx.token_program, &ctx.mint, &authority, None, 0),
            ),
            Stage::Initialized => Ok(
                Action::EnsureHoldingSlot {
                    funder: ctx.payer,
                    holder: ctx.payer,
                    mint: ctx.mint,
                    slot: ctx.token_account,
                    token_program: ctx.token_program,
                },
            ),
            Stage::SlotReady => {
                ledger_action(
                    build_mint_to(
                        &ctx.token_program,
                        &ctx.mint,
                        &ctx.token_account,
                        &authority,
                        &authority,
                        1,
                    ),
                )
            },
            Stage::Issued => {
                ledger_action(
                    build_set_authority(
                        &ctx.token_program,
                        &ctx.mint,
                        None,
                        AuthorityKind::MintTokens,
                        &authority,
                        &authority,
                    ),
                )
            },
            _ => Ok(
                Action::AttachMetadata {
                    metadata: Metadata {
                        account: ctx.metadata,
                        mint: ctx.mint,
                        authority,
                        payer: ctx.payer,
                        name: self.name.clone(),
                        symbol: "ULIQS".to_owned(),
                        uri: self.uri.clone(),
                        seller_fee_basis_points: 0,
                        creators: None,
                        is_mutable: false,
                    },
                },
            ),
        }
    }

    /// Takes the outcome of the step that the workflow waited for, and
    /// answers with the next step, the end of the issuance, or its abort.
    /// The registry changes only when the last step is done.
    pub fn advance(&mut self, outcome: Outcome) -> (step: Step)
        requires
            old(self).wf(),
        ensures
            *final(self) == old(self).after(outcome),
            step@ == old(self).reply(outcome),
            final(self).wf(),
            old(self).ctx.batch.wf() ==> final(self).ctx.batch.wf(),
    {
        if !self.stage.is_pending() {
            return Step::Closed;
        }
        match outcome {
            Outcome::Failed => {
                let e = self.stage.failure_of();
                self.stage = Stage::Aborted;
                return Step::Failed(e);
            },
            Outcome::Done => {},
        }
        let next = self.stage.successor();
        match next {
            Stage::Finished => {
                let completed = self.ctx.batch.record_mint();
                self.stage = Stage::Finished;
                let issued = MintCompleted {
                    batch: self.ctx.batch_key,
                    minter: self.ctx.payer,
                    mint: self.ctx.mint,
                    number: self.ctx.batch.current_mints,
                    name: self.name.clone(),
                    uri: self.uri.clone(),
                };
                let announced = if completed {
                    Some(WellTriggered::new(self.ctx.batch_key, self.ctx.batch.current_mints))
                } else {
                    None
                };
                Step::Finished { issued, completed: announced }
            },
            _ => {
                self.stage = next;
                match self.next_action() {
                    Ok(action) => Step::Perform(action),
                    Err(e) => {
                        self.stage = Stage::Aborted;
                        Step::Failed(IssueError::Code(e))
                    },
                }
            },
        }
    }
}

/// Starts the issuance of one certificate. The guards are checked in their
/// order, and a refused request asks nothing of the host. An accepted one
/// gives the workflow at its start and its first step: the fee, from the
/// requester to the registry's treasury.
pub fn mint_soulbound(ctx: MintSoulbound, name: String, uri: String) -> (r: Result<
    (Workflow, Action),
    ErrorCode,
>)
    ensures
        match guard(ctx.batch, name@, uri@) {
            Ok(_) => r matches Ok((flow, action)) && flow == (Workflow {
                ctx,
                name,
                uri,
                stage: Stage::Started,
            }) && flow.wf() && action == (Action::Transfer {
                from: ctx.payer,
                to: ctx.batch.treasury,
                lamports: ctx.batch.mint_price_lamports,
            }),
            Err(e) => r == Err::<(Workflow, Action), ErrorCode>(e),
        },
{
    match check_guards(&ctx.batch, name.as_str(), uri.as_str()) {
        Err(e) => {
            return Err(e);
        },
        Ok(_) => {},
    }
    let action = Action::Transfer {
        from: ctx.payer,
        to: ctx.batch.treasury,
        lamports: ctx.batch.mint_price_lamports,
    };
    Ok((Workflow { ctx, name, uri, stage: Stage::Started }, action))
}

} // verus!
