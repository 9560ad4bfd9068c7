//! What holds of every issuance, whatever the host reports.

use vstd::prelude::*;
use crate::action::ActionView;
use crate::batch::Batch;
use crate::error::ErrorCode;
use crate::ledger::{approved_accounts, set_authority_data, AccountMeta, AuthorityKind};
use crate::workflow::{guard, ledger_step, IssueError, Lifecycle, Outcome, Stage, StepView, Workflow};

verus! {

/// The workflow after the host has reported the outcomes of `outcomes`, one
/// after the other.
pub open spec fn run(flow: Workflow, outcomes: Seq<Outcome>) -> Workflow
    decreases outcomes.len(),
{
    if outcomes.len() == 0 {
        flow
    } else {
        run(flow.after(outcomes[0]), outcomes.skip(1))
    }
}

/// How many steps the host has performed at a stage that has not aborted.
pub open spec fn steps_done(stage: Stage) -> nat {
    match stage {
        Stage::Started => 0,
        Stage::FeePaid => 1,
        Stage::Allocated => 2,
        Stage::MarkerInitialized => 3,
        Stage::Initialized => 4,
        Stage::SlotReady => 5,
        Stage::Issued => 6,
        Stage::AuthorityRevoked => 7,
        _ => 8,
    }
}

/// A complete batch refuses every request, and a batch whose counter is at
/// its cap does too: neither the counter nor the completion can change
/// again.
pub proof fn complete_batch_refuses(batch: Batch, name: Seq<char>, uri: Seq<char>)
    ensures
        batch.triggered ==> guard(batch, name, uri) == Err::<(), ErrorCode>(
            ErrorCode::BatchTriggered,
        ),
        !batch.triggered && batch.current_mints >= batch.max_mints ==> guard(batch, name, uri)
            == Err::<(), ErrorCode>(ErrorCode::MaxMintsReached),
        guard(batch, name, uri) is Ok ==> batch.open_for_issuance(),
{
}

/// A request whose name or URI is too long is refused before anything is
/// asked of the host.
pub proof fn long_text_refused(batch: Batch, name: Seq<char>, uri: Seq<char>)
    requires
        batch.open_for_issuance(),
    ensures
        name.len() > 32 ==> guard(batch, name, uri) == Err::<(), ErrorCode>(
            ErrorCode::NameTooLong,
        ),
        name.len() <= 32 && uri.len() > 200 ==> guard(batch, name, uri) == Err::<(), ErrorCode>(
            ErrorCode::UriTooLong,
        ),
        name.len() <= 32 && uri.len() <= 200 ==> guard(batch, name, uri) is Ok,
{
}

/// A workflow that has ended never changes again, whatever is reported to it.
pub proof fn ended_workflow_stays(flow: Workflow, outcome: Outcome)
    requires
        !flow.stage.pending(),
    ensures
        flow.after(outcome) == flow,
        flow.reply(outcome) == StepView::Closed,
{
}

/// A failed step aborts the request: no certificate is left, the registry
/// is as it was, and nothing more is asked of the host. A failed fee
/// transfer is reported as insufficient funds, and a record that could not
/// be created, as when its identity is taken, as a failed allocation.
pub proof fn failed_step_leaves_nothing(flow: Workflow)
    requires
        flow.stage.pending(),
    ensures
        flow.after(Outcome::Failed).stage == Stage::Aborted,
        flow.after(Outcome::Failed).stage.certificate() == Lifecycle::NonExistent,
        flow.after(Outcome::Failed).ctx.batch == flow.ctx.batch,
        flow.reply(Outcome::Failed) == StepView::Failed(flow.stage.failure()),
        flow.stage == Stage::Started ==> flow.reply(Outcome::Failed) == StepView::Failed(
            IssueError::InsufficientFunds,
        ),
        flow.stage == Stage::FeePaid ==> flow.reply(Outcome::Failed) == StepView::Failed(
            IssueError::AllocationFailed,
        ),
{
}

/// One report moves a workflow to the next stage in the order, or aborts
/// it, and the registry changes only when the report finishes the issuance:
/// then it counts one certificate more.
pub proof fn one_report_one_stage(flow: Workflow, outcome: Outcome)
    requires
        flow.stage.pending(),
    ensures
        flow.after(outcome).stage == flow.stage.next() || flow.after(outcome).stage
            == Stage::Aborted,
        flow.after(outcome).stage == Stage::Finished ==> flow.after(outcome).ctx.batch
            == flow.ctx.batch.recorded(),
        flow.after(outcome).stage != Stage::Finished ==> flow.after(outcome).ctx.batch
            == flow.ctx.batch,
        flow.after(outcome).name == flow.name,
        flow.after(outcome).uri == flow.uri,
        flow.after(outcome).ctx.mint == flow.ctx.mint,
{
}

/// The issuing authority is given up only by the step that follows the
/// issue of the one unit: the instruction that sets the certificate's
/// issuing authority to none.
pub proof fn revocation_follows_issue(flow: Workflow, outcome: Outcome)
    requires
        flow.stage != Stage::AuthorityRevoked,
        flow.after(outcome).stage == Stage::AuthorityRevoked,
    ensures
        flow.stage == Stage::Issued,
        outcome == Outcome::Done,
        flow.stage.certificate().supply() == 1,
        flow.upcoming() == ledger_step(
            flow.ctx.token_program,
            approved_accounts(
                seq![AccountMeta::writable(flow.ctx.mint, false)],
                flow.ctx.batch.authority,
                seq![flow.ctx.batch.authority],
            ),
            set_authority_data(
                flow.ctx.token_program@,
                flow.ctx.mint@,
                None,
                AuthorityKind::MintTokens,
                flow.ctx.batch.authority@,
                flow.ctx.batch.authority@,
            ),
        ),
        !flow.after(outcome).stage.certificate().has_issuing_authority(),
{
}

/// An issuance finishes only by the step that attaches the descriptive
/// fields, which are marked immutable, to a certificate whose issuing
/// authority is given up. The finished certificate has one unit, no issuing
/// authority, and no further state to go to.
pub proof fn finished_certificate_is_final(flow: Workflow, outcome: Outcome)
    requires
        flow.stage != Stage::Finished,
        flow.after(outcome).stage == Stage::Finished,
    ensures
        flow.stage == Stage::AuthorityRevoked,
        outcome == Outcome::Done,
        flow.upcoming() matches Ok(ActionView::AttachMetadata { metadata }) && !metadata.is_mutable
            && metadata.mint == flow.ctx.mint,
        flow.after(outcome).stage.certificate() == Lifecycle::MetadataAttached,
        flow.after(outcome).stage.certificate().supply() == 1,
        !flow.after(outcome).stage.certificate().has_issuing_authority(),
        forall|later: Outcome| #[trigger] flow.after(outcome).after(later) == flow.after(outcome),
{
}

/// A workflow that has ended stays as it is through any further reports.
pub proof fn ended_run_stays(flow: Workflow, outcomes: Seq<Outcome>)
    requires
        !flow.stage.pending(),
    ensures
        run(flow, outcomes) == flow,
    decreases outcomes.len(),
{
    if outcomes.len() > 0 {
        ended_run_stays(flow, outcomes.skip(1));
    }
}

/// Whatever the host reports, and however often, a request changes the
/// registry at most once: a run that ends finished has counted exactly one
/// certificate, and any other run has left the registry as it was.
pub proof fn run_counts_at_most_once(flow: Workflow, outcomes: Seq<Outcome>)
    requires
        flow.stage.pending(),
    ensures
        run(flow, outcomes).stage == Stage::Finished ==> run(flow, outcomes).ctx.batch
            == flow.ctx.batch.recorded(),
        run(flow, outcomes).stage != Stage::Finished ==> run(flow, outcomes).ctx.batch
            == flow.ctx.batch,
    decreases outcomes.len(),
{
    if outcomes.len() > 0 {
        let next = flow.after(outcomes[0]);
        one_report_one_stage(flow, outcomes[0]);
        if next.stage.pending() {
            run_counts_at_most_once(next, outcomes.skip(1));
        } else {
            ended_run_stays(next, outcomes.skip(1));
        }
    }
}

/// A run that ends finished has performed every step that was left, in the
/// order: each of the first reports was a success, each led one stage
/// further, and none was skipped. It starts from a workflow whose pending
/// step could be built, as the fee transfer of a fresh request always can.
pub proof fn finished_run_performed_every_step(flow: Workflow, outcomes: Seq<Outcome>)
    requires
        flow.stage.pending(),
        flow.upcoming() is Ok,
        run(flow, outcomes).stage == Stage::Finished,
    ensures
        outcomes.len() >= 8 - steps_done(flow.stage),
        forall|i: int|
            0 <= i < 8 - steps_done(flow.stage) ==> outcomes[i] == Outcome::Done && steps_done(
                (#[trigger] run(flow, outcomes.take(i))).stage,
            ) == steps_done(flow.stage) + i && run(flow, outcomes.take(i)).stage.pending()
                && run(flow, outcomes.take(i)).upcoming() is Ok,
    decreases outcomes.len(),
{
    if outcomes.len() == 0 {
    } else {
        let first = outcomes[0];
        let rest = outcomes.skip(1);
        let next = flow.after(first);
        if !next.stage.pending() {
            ended_run_stays(next, rest);
        } else {
            finished_run_performed_every_step(next, rest);
        }
        assert(first == Outcome::Done);
        assert forall|i: int| 0 <= i < 8 - steps_done(flow.stage) implies outcomes[i]
            == Outcome::Done && steps_done((#[trigger] run(flow, outcomes.take(i))).stage)
            == steps_done(flow.stage) + i && run(flow, outcomes.take(i)).stage.pending() && run(
            flow,
            outcomes.take(i),
        ).upcoming() is Ok by {
            if i == 0 {
                assert(outcomes.take(0).len() == 0);
            } else {
                assert(outcomes.take(i).skip(1) =~= rest.take(i - 1));
                assert(outcomes.take(i)[0] == first);
                assert(run(flow, outcomes.take(i)) == run(next, rest.take(i - 1)));
                assert(outcomes[i] == rest[i - 1]);
            }
        }
    }
}

} // verus!
