//! What holds of every executor, whatever the host reports.

use vstd::prelude::*;

use crate::executor::error::ExecuteErrorView;
use crate::executor::operation::{
    failure, OperationView, OutcomeView, PayloadView, PROBE_ATTEMPTS, PROBE_DELAY_MILLIS,
};
use crate::executor::{drive_endpoint, ExecutorView};
use crate::models::DriveView;

verus! {

/// The executor after the host has reported `outcomes`, one after another.
pub open spec fn run(executor: ExecutorView, outcomes: Seq<OutcomeView>) -> ExecutorView
    decreases outcomes.len(),
{
    if outcomes.len() == 0 {
        executor
    } else {
        run(executor.resumed(outcomes[0]), outcomes.drop_first())
    }
}

/// Whether every outcome of `outcomes` is a success.
pub open spec fn all_succeeded(outcomes: Seq<OutcomeView>) -> bool {
    forall|i: int| 0 <= i < outcomes.len() ==> (#[trigger] outcomes[i]).succeeded()
}

/// The executor after `count` looks for the socket have, each with
/// `outcome`, not found it.
pub open spec fn after_misses(executor: ExecutorView, outcome: OutcomeView, count: nat) -> ExecutorView
    decreases count,
{
    if count == 0 {
        executor
    } else {
        after_misses(executor, outcome, (count - 1) as nat).resumed(outcome)
    }
}

/// Operations are done strictly in their order: while the host reports
/// successes, exactly the operations that were reported are struck off, and
/// the next one is pending.
pub proof fn lemma_successes_advance(executor: ExecutorView, outcomes: Seq<OutcomeView>)
    requires
        all_succeeded(outcomes),
        outcomes.len() <= executor.remaining.len(),
    ensures
        run(executor, outcomes).remaining == executor.remaining.skip(outcomes.len() as int),
        run(executor, outcomes).misses == if outcomes.len() == 0 {
            executor.misses
        } else {
            0
        },
    decreases outcomes.len(),
{
    if outcomes.len() > 0 {
        let rest = outcomes.drop_first();
        lemma_successes_advance(executor.resumed(outcomes[0]), rest);
        assert(executor.remaining.drop_first().skip(rest.len() as int)
            =~= executor.remaining.skip(outcomes.len() as int));
    }
}

/// The first failure ends the whole: after any number of successes, a failure
/// of the pending operation, be it no look for the socket, is reported as
/// that operation's error, and nothing that was left is tried.
pub proof fn lemma_first_failure_ends(
    executor: ExecutorView,
    outcomes: Seq<OutcomeView>,
    last: OutcomeView,
)
    requires
        all_succeeded(outcomes),
        outcomes.len() < executor.remaining.len(),
        !last.succeeded(),
        !(executor.remaining[outcomes.len() as int] is ProbeSocket),
    ensures
        run(executor, outcomes).reported(last) == Some(
            Err::<(), ExecuteErrorView>(failure(executor.remaining[outcomes.len() as int], last)),
        ),
        run(executor, outcomes).resumed(last).remaining.len() == 0,
{
    lemma_successes_advance(executor, outcomes);
}

/// The handle of a process is only ever taken when the socket has been
/// seen: an executor that holds none holds none after any report but the
/// success of a look for the socket.
pub proof fn lemma_handle_comes_from_the_socket(executor: ExecutorView, outcome: OutcomeView)
    requires
        !executor.running(),
        executor.resumed(outcome).running(),
    ensures
        executor.remaining.len() > 0,
        executor.remaining[0] is ProbeSocket,
        outcome.succeeded(),
{
}

/// Laying operations down takes no handle and gives none up.
pub proof fn lemma_beginning_keeps_the_handle(executor: ExecutorView, plan: Seq<OperationView>)
    ensures
        executor.begun(plan).running() == executor.running(),
        executor.begun(plan).configured() == executor.configured(),
{
}

/// Creating the workspace again changes nothing: if the host reports both
/// times that the directory is there, both times the end is a success, and
/// the executor is afterwards as it was after the first.
pub proof fn lemma_workspace_again(executor: ExecutorView)
    requires
        executor.configured(),
    ensures
        ({
            let first = executor.begun(executor.workspace_plan());
            let once = first.resumed(OutcomeView::Done);
            let second = once.begun(once.workspace_plan());
            &&& first.reported(OutcomeView::Done) == Some(Ok::<(), ExecuteErrorView>(()))
            &&& second.reported(OutcomeView::Done) == Some(Ok::<(), ExecuteErrorView>(()))
            &&& second.remaining == first.remaining
            &&& second.resumed(OutcomeView::Done) == once
        }),
{
}

/// Once the process is killed and the socket removed, the handle is given
/// up: nothing is left to destroy a second time.
pub proof fn lemma_teardown_gives_the_handle_up(executor: ExecutorView)
    requires
        executor.configured(),
    ensures
        ({
            let begun = executor.begun(executor.teardown_plan());
            let killed = begun.resumed(OutcomeView::Done);
            let removed = killed.resumed(OutcomeView::Done);
            &&& begun.reported(OutcomeView::Done) is None
            &&& killed.running() == executor.running()
            &&& killed.reported(OutcomeView::Done) == Some(Ok::<(), ExecuteErrorView>(()))
            &&& !removed.running()
            &&& removed.remaining.len() == 0
        }),
{
}

/// While the socket is not found and looks are left, the look stays pending
/// and nothing else changes: after `count` looks in vain, `count` are
/// counted, and the next look waits `PROBE_DELAY_MILLIS` first.
pub proof fn lemma_socket_looked_for_again(
    executor: ExecutorView,
    outcome: OutcomeView,
    count: nat,
)
    requires
        executor.remaining.len() > 0,
        executor.remaining[0] is ProbeSocket,
        executor.misses == 0,
        !outcome.succeeded(),
        count < PROBE_ATTEMPTS,
    ensures
        ({
            let after = after_misses(executor, outcome, count);
            &&& after.misses == count
            &&& after.socket_process == executor.socket_process
            &&& after.remaining.len() == executor.remaining.len()
            &&& after.remaining[0] == if count == 0 {
                executor.remaining[0]
            } else {
                OperationView::ProbeSocket {
                    path: executor.remaining[0]->ProbeSocket_path,
                    delay_millis: PROBE_DELAY_MILLIS,
                }
            }
            &&& count > 0 ==> after_misses(executor, outcome, (count - 1) as nat).reported(outcome)
                is None
        }),
    decreases count,
{
    if count > 0 {
        lemma_socket_looked_for_again(executor, outcome, (count - 1) as nat);
    }
}

/// The socket is given up after `PROBE_ATTEMPTS` looks: if the last of them
/// does not find it either, the end is `Unhealthy`. No handle is taken, and
/// nothing is done about the supervisor that was started.
pub proof fn lemma_socket_given_up(executor: ExecutorView, outcome: OutcomeView)
    requires
        executor.remaining.len() > 0,
        executor.remaining[0] is ProbeSocket,
        executor.misses == 0,
        !outcome.succeeded(),
    ensures
        ({
            let before = after_misses(executor, outcome, (PROBE_ATTEMPTS - 1) as nat);
            let after = after_misses(executor, outcome, PROBE_ATTEMPTS as nat);
            &&& before.reported(outcome) == Some(
                Err::<(), ExecuteErrorView>(ExecuteErrorView::Unhealthy),
            )
            &&& after.remaining.len() == 0
            &&& after.socket_process == executor.socket_process
        }),
{
    lemma_socket_looked_for_again(executor, outcome, (PROBE_ATTEMPTS - 1) as nat);
    assert(after_misses(executor, outcome, PROBE_ATTEMPTS as nat) == after_misses(
        executor,
        outcome,
        (PROBE_ATTEMPTS - 1) as nat,
    ).resumed(outcome));
}

/// The socket counts as healthy as soon as one look finds it: the handle is
/// taken, and what follows the look is pending.
pub proof fn lemma_socket_found(executor: ExecutorView, outcome: OutcomeView, count: nat)
    requires
        executor.remaining.len() > 0,
        executor.remaining[0] is ProbeSocket,
        executor.misses == 0,
        !outcome.succeeded(),
        count < PROBE_ATTEMPTS,
    ensures
        ({
            let found = after_misses(executor, outcome, count).resumed(OutcomeView::Done);
            &&& found.running()
            &&& found.remaining == executor.remaining.drop_first()
            &&& found.misses == 0
        }),
{
    lemma_socket_looked_for_again(executor, outcome, count);
    lemma_misses_touch_the_look_only(executor, outcome, count);
}

/// Looks in vain leave what follows the look as it was.
pub proof fn lemma_misses_touch_the_look_only(
    executor: ExecutorView,
    outcome: OutcomeView,
    count: nat,
)
    requires
        executor.remaining.len() > 0,
        executor.remaining[0] is ProbeSocket,
        executor.misses == 0,
        !outcome.succeeded(),
        count < PROBE_ATTEMPTS,
    ensures
        after_misses(executor, outcome, count).remaining.drop_first()
            == executor.remaining.drop_first(),
    decreases count,
{
    if count > 0 {
        lemma_misses_touch_the_look_only(executor, outcome, (count - 1) as nat);
        lemma_socket_looked_for_again(executor, outcome, (count - 1) as nat);
    }
}

/// Drives are configured as they come, also two with the same id: each has
/// its own request, to the same address, the later after the earlier.
pub proof fn lemma_drives_with_one_id(
    executor: ExecutorView,
    drives: Seq<DriveView>,
    i: int,
    j: int,
)
    requires
        0 <= i < j < drives.len(),
        drives[i].drive_id == drives[j].drive_id,
    ensures
        executor.drive_plan(drives).len() == drives.len(),
        executor.drive_plan(drives)[i] == executor.put(
            drive_endpoint(drives[i].drive_id),
            PayloadView::Drive(drives[i]),
        ),
        executor.drive_plan(drives)[j] == executor.put(
            drive_endpoint(drives[i].drive_id),
            PayloadView::Drive(drives[j]),
        ),
{
}

} // verus!
