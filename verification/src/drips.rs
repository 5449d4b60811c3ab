//! Reward streams: once a task is verified, its contributor is paid
//! through a stream opened on the Drips contract.
use vstd::prelude::*;

use crate::types::{ContractError, RewardStream, Task};

verus! {

/// The resolution status handed to the Drips contract when a stream opens.
pub const STREAM_RESOLUTION_STATUS: u32 = 1;

/// The answer to a request to open a reward stream for a task whose stored
/// record is `task`, with `stream_exists` telling whether a stream for it
/// is stored already and `lock_held` the state of the reentrancy mutex.
pub open spec fn stream_start_result(task: Option<Task>, stream_exists: bool, lock_held: bool) -> Result<
    (),
    ContractError,
> {
    if lock_held {
        Err(ContractError::Locked)
    } else {
        match task {
            None => Err(ContractError::NotAuthorized),
            Some(t) => if t.is_cancelled {
                Err(ContractError::TaskCancelled)
            } else if !t.is_done {
                Err(ContractError::TaskNotVerified)
            } else if stream_exists {
                Err(ContractError::StreamAlreadyActive)
            } else {
                Ok(())
            },
        }
    }
}

/// How a reward stream opens: the record to store, and the resolution
/// status to hand the Drips contract `record.drips_contract`, which is asked
/// to start a stream for `record.contributor` on `record.task_id`.
#[derive(Clone, Copy, Debug, PartialEq, Eq)]
pub struct StreamStart<A> {
    pub record: RewardStream<A>,
    pub resolution_status: u32,
}

/// The start of a stream for `contributor` on `task_id` through the Drips
/// contract `drips_contract`: an active record and the resolution status.
pub open spec fn stream_start<A>(task_id: u64, drips_contract: A, contributor: A) -> StreamStart<A> {
    StreamStart {
        record: RewardStream { task_id, contributor, drips_contract, active: true },
        resolution_status: STREAM_RESOLUTION_STATUS,
    }
}

/// Decides whether a reward stream may open for `contributor` on the task
/// `task_id`, through the Drips contract `drips_contract`. The task's stored
/// record is `task`; `stream_exists` tells whether a stream for it is stored
/// already, `all_streams` lists the task ids that have streams, and
/// `lock_held` is the state of the reentrancy mutex.
///
/// A held mutex is refused with `Locked`, then an unknown task with
/// `NotAuthorized`, a cancelled one with `TaskCancelled`, an unresolved one
/// with `TaskNotVerified`, and a task that has a stream already with
/// `StreamAlreadyActive`; then `all_streams` is left as it was. Otherwise
/// `task_id` is appended to `all_streams`, and the active stream record and
/// the Drips call's resolution status are returned.
pub fn start_drips_stream<A>(
    task: Option<Task>,
    stream_exists: bool,
    all_streams: &mut Vec<u64>,
    task_id: u64,
    lock_held: bool,
    drips_contract: A,
    contributor: A,
) -> (r: Result<StreamStart<A>, ContractError>)
    ensures
        match stream_start_result(task, stream_exists, lock_held) {
            Err(e) => r == Err::<StreamStart<A>, ContractError>(e),
            Ok(()) => r == Ok::<StreamStart<A>, ContractError>(
                stream_start(task_id, drips_contract, contributor),
            ),
        },
        r is Ok ==> final(all_streams)@ == old(all_streams)@.push(task_id),
        r is Err ==> final(all_streams)@ == old(all_streams)@,
{
    if lock_held {
        return Err(ContractError::Locked);
    }
    let t = match task {
        Some(t) => t,
        None => {
            return Err(ContractError::NotAuthorized);
        },
    };
    if t.is_cancelled {
        return Err(ContractError::TaskCancelled);
    }
    if !t.is_done {
        return Err(ContractError::TaskNotVerified);
    }
    if stream_exists {
        return Err(ContractError::StreamAlreadyActive);
    }
    all_streams.push(task_id);
    Ok(
        StreamStart {
            record: RewardStream { task_id, contributor, drips_contract, active: true },
            resolution_status: STREAM_RESOLUTION_STATUS,
        },
    )
}

/// A reward stream opens only for a task that exists, is resolved and is
/// not cancelled, at most once per task, and never while another entry point
/// holds the mutex.
pub proof fn law_stream_requires_verified_task(task: Option<Task>, stream_exists: bool, lock_held: bool)
    ensures
        stream_start_result(task, stream_exists, lock_held) is Ok ==> {
            &&& !lock_held
            &&& task is Some
            &&& task->0.is_done
            &&& !task->0.is_cancelled
            &&& !stream_exists
        },
{
}

/// A reward stream opens for every task that exists, is resolved and is not
/// cancelled, while no stream for it exists and the mutex is free, whatever
/// the task's weight or vote count; the start carries an active record of
/// the task id, the contributor and the Drips contract, and resolution
/// status 1.
pub proof fn law_stream_opens_for_verified_task<A>(
    task: Option<Task>,
    stream_exists: bool,
    lock_held: bool,
    task_id: u64,
    drips_contract: A,
    contributor: A,
)
    requires
        !lock_held,
        task matches Some(t) && t.is_done && !t.is_cancelled,
        !stream_exists,
    ensures
        stream_start_result(task, stream_exists, lock_held) == Ok::<(), ContractError>(()),
        stream_start(task_id, drips_contract, contributor).record == (RewardStream {
            task_id,
            contributor,
            drips_contract,
            active: true,
        }),
        stream_start(task_id, drips_contract, contributor).resolution_status == 1,
{
}

/// The refusals of a stream start, in order: a held mutex with `Locked`, an
/// unknown task with `NotAuthorized`, a cancelled task with
/// `TaskCancelled`, an unresolved one with `TaskNotVerified`, and a task
/// with a stream already with `StreamAlreadyActive`.
pub proof fn law_stream_refusals(task: Option<Task>, stream_exists: bool, lock_held: bool)
    ensures
        lock_held ==> stream_start_result(task, stream_exists, lock_held) == Err::<(), ContractError>(
            ContractError::Locked,
        ),
        !lock_held && task is None ==> stream_start_result(task, stream_exists, lock_held) == Err::<
            (),
            ContractError,
        >(ContractError::NotAuthorized),
        (!lock_held && task is Some && task->0.is_cancelled) ==> stream_start_result(
            task,
            stream_exists,
            lock_held,
        ) == Err::<(), ContractError>(ContractError::TaskCancelled),
        (!lock_held && task is Some && !task->0.is_cancelled && !task->0.is_done) ==> stream_start_result(
            task,
            stream_exists,
            lock_held,
        ) == Err::<(), ContractError>(ContractError::TaskNotVerified),
        (!lock_held && stream_exists && task is Some && !task->0.is_cancelled && task->0.is_done)
            ==> stream_start_result(task, stream_exists, lock_held) == Err::<(), ContractError>(
            ContractError::StreamAlreadyActive,
        ),
{
}

} // verus!
