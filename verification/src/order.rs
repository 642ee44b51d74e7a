//! The order-processing workflow: a four-step saga with compensation.
//!
//! Validate, reserve inventory, take payment, create the shipment.  A
//! payment failure releases the reservation; a shipment failure
//! refunds the payment and releases the reservation.  Compensation is
//! ordinary workflow code: sequential compensating activity calls on
//! the failure path, not an engine feature.

use vstd::prelude::*;
use vstd::string::StringExecFns;
use crate::activity::ActivityOptions;
use crate::event::{EventHistory, WorkflowEvent};
use crate::types::WorkflowExecution;
use crate::worker::{ActivityTask, apply_commands, event_records_command, sched_tasks};
use crate::workflow::{
    ActivityResolution, Command, CommandModel, CtxModel, WorkflowContext, spec_execute_activity,
    spec_complete, spec_fail,
};

verus! {

/// The replay state of the order workflow run against state `m0` with
/// the given encoded order as input: every decision the workflow makes
/// is a function of these two alone.
pub open spec fn spec_order_workflow(m0: CtxModel, input: Seq<char>) -> CtxModel {
    let (m1, r1) = spec_execute_activity(m0, "ValidateOrder"@, input, None);
    match r1 {
        ActivityResolution::Pending => m1,
        ActivityResolution::Failed(f) => spec_fail(m1, "Validation failed: "@ + f@),
        ActivityResolution::Completed(_) => {
            let (m2, r2) = spec_execute_activity(m1, "ReserveInventory"@, input, None);
            match r2 {
                ActivityResolution::Pending => m2,
                ActivityResolution::Failed(f) => spec_fail(
                    m2,
                    "Inventory reservation failed: "@ + f@,
                ),
                ActivityResolution::Completed(reservation) => {
                    let (m3, r3) = spec_execute_activity(m2, "ProcessPayment"@, input, None);
                    match r3 {
                        ActivityResolution::Pending => m3,
                        ActivityResolution::Failed(f) => {
                            let (m4, r4) = spec_execute_activity(
                                m3,
                                "ReleaseInventory"@,
                                reservation@,
                                None,
                            );
                            match r4 {
                                ActivityResolution::Pending => m4,
                                _ => spec_fail(m4, "Payment failed: "@ + f@),
                            }
                        },
                        ActivityResolution::Completed(payment) => {
                            let (m5, r5) = spec_execute_activity(
                                m3,
                                "CreateShipment"@,
                                input,
                                None,
                            );
                            match r5 {
                                ActivityResolution::Pending => m5,
                                ActivityResolution::Failed(f) => {
                                    let (m6, r6) = spec_execute_activity(
                                        m5,
                                        "RefundPayment"@,
                                        payment@,
                                        None,
                                    );
                                    match r6 {
                                        ActivityResolution::Pending => m6,
                                        _ => {
                                            let (m7, r7) = spec_execute_activity(
                                                m6,
                                                "ReleaseInventory"@,
                                                reservation@,
                                                None,
                                            );
                                            match r7 {
                                                ActivityResolution::Pending => m7,
                                                _ => spec_fail(m7, "Shipment failed: "@ + f@),
                                            }
                                        },
                                    }
                                },
                                ActivityResolution::Completed(tracking) => spec_complete(
                                    m5,
                                    tracking@,
                                ),
                            }
                        },
                    }
                },
            }
        },
    }
}

/// Run (or replay) the order workflow against the context.  The
/// resulting replay state, decisions included, is exactly
/// `spec_order_workflow` of the starting state and the input.
pub fn run_order_workflow(ctx: &mut WorkflowContext, input: &str)
    requires
        old(ctx).wf(),
    ensures
        final(ctx).wf(),
        final(ctx).spec_execution() == old(ctx).spec_execution(),
        final(ctx).model() == spec_order_workflow(old(ctx).model(), input@),
{
    let opts = ActivityOptions::default();
    let validation = ctx.execute_activity("ValidateOrder", input, &opts);
    match validation {
        ActivityResolution::Pending => {},
        ActivityResolution::Failed(f) => {
            let msg = ("Validation failed: ".to_owned()).concat(f.as_str());
            ctx.fail(msg.as_str());
        },
        ActivityResolution::Completed(_) => {
            let reservation = match ctx.execute_activity("ReserveInventory", input, &opts) {
                ActivityResolution::Pending => {
                    return;
                },
                ActivityResolution::Failed(f) => {
                    let msg = ("Inventory reservation failed: ".to_owned()).concat(f.as_str());
                    ctx.fail(msg.as_str());
                    return;
                },
                ActivityResolution::Completed(reservation) => reservation,
            };
            let payment = match ctx.execute_activity("ProcessPayment", input, &opts) {
                ActivityResolution::Pending => {
                    return;
                },
                ActivityResolution::Failed(f) => {
                    match ctx.execute_activity("ReleaseInventory", reservation.as_str(), &opts) {
                        ActivityResolution::Pending => {
                            return;
                        },
                        _ => {
                            let msg = ("Payment failed: ".to_owned()).concat(f.as_str());
                            ctx.fail(msg.as_str());
                            return;
                        },
                    }
                },
                ActivityResolution::Completed(payment) => payment,
            };
            match ctx.execute_activity("CreateShipment", input, &opts) {
                ActivityResolution::Pending => {},
                ActivityResolution::Failed(f) => {
                    match ctx.execute_activity("RefundPayment", payment.as_str(), &opts) {
                        ActivityResolution::Pending => {
                            return;
                        },
                        _ => {},
                    }
                    match ctx.execute_activity("ReleaseInventory", reservation.as_str(), &opts) {
                        ActivityResolution::Pending => {
                            return;
                        },
                        _ => {},
                    }
                    let msg = ("Shipment failed: ".to_owned()).concat(f.as_str());
                    ctx.fail(msg.as_str());
                },
                ActivityResolution::Completed(tracking) => {
                    ctx.complete(tracking.as_str());
                },
            }
        },
    }
}

/// The replay state a fresh replay of `h` starts from.
pub open spec fn fresh_replay(h: Seq<WorkflowEvent>) -> CtxModel {
    CtxModel { history: h, pos: 0, seq: 0, commands: Seq::empty(), terminal: false }
}

/// A single replay issues at most one new decision: workflow code
/// suspends right after scheduling, so only one command (a schedule or
/// a terminal) can be added per workflow task.
pub proof fn lemma_order_commands_bounded(m: CtxModel, input: Seq<char>)
    ensures
        spec_order_workflow(m, input).commands.len() <= m.commands.len() + 1,
{
}

/// One workflow task for the order workflow: replay the history,
/// persist the decisions this replay produced (each as its event, in
/// order), and hand back the activity tasks to enqueue.
pub fn process_order_workflow_task(
    execution: &WorkflowExecution,
    history: &mut EventHistory,
    input: &str,
    timestamp_ms: i64,
) -> (tasks: Vec<ActivityTask>)
    requires
        old(history).well_formed(),
        old(history)@.len() < u64::MAX,
    ensures
        final(history).well_formed(),
        ({
            let cmds = spec_order_workflow(fresh_replay(old(history)@), input@).commands;
            &&& final(history)@.len() == old(history)@.len() + cmds.len()
            &&& final(history)@.subrange(0, old(history)@.len() as int) == old(history)@
            &&& (forall|k: int| 0 <= k < cmds.len() ==> event_records_command(
                #[trigger] final(history)@[old(history)@.len() + k],
                cmds[k],
                old(history)@.len() + k,
                timestamp_ms,
            ))
            &&& tasks@.map_values(|t: ActivityTask| t@) == sched_tasks(cmds)
        }),
{
    proof {
        lemma_order_commands_bounded(fresh_replay(old(history)@), input@);
    }
    let mut ctx = WorkflowContext::with_history(execution.clone(), history.clone());
    proof {
        assert(ctx.model().commands =~= fresh_replay(old(history)@).commands);
        assert(ctx.model() == fresh_replay(old(history)@));
    }
    run_order_workflow(&mut ctx, input);
    let commands: &Vec<Command> = ctx.commands();
    apply_commands(history, commands, timestamp_ms)
}

/// Replay determinism: the decisions of a replay are a function of the
/// history and input alone — `run_order_workflow` ensures that every
/// replay's command sequence equals
/// `spec_order_workflow(fresh_replay(h), input).commands`, so any two
/// replays of the same workflow against the same history produce
/// identical decision sequences, and (commands being the replay's only
/// output) no new side effects.
pub proof fn lemma_replay_deterministic(
    h: Seq<WorkflowEvent>,
    input: Seq<char>,
    c1: Seq<CommandModel>,
    c2: Seq<CommandModel>,
)
    requires
        c1 == spec_order_workflow(fresh_replay(h), input).commands,
        c2 == spec_order_workflow(fresh_replay(h), input).commands,
    ensures
        c1 == c2,
{
}

} // verus!
