//! Task registration and cancellation.
use vstd::prelude::*;

use crate::types::{ContractError, Task};

verus! {

/// The largest batch of task ids that one registration accepts.
pub const MAX_REGISTER_TASK_BATCH_SIZE: usize = 32;

/// A freshly registered task: no votes, no weight, unresolved, not cancelled.
pub open spec fn fresh_task(id: u64) -> Task {
    Task {
        id,
        votes: 0,
        is_done: false,
        resolved_at: 0,
        total_weight_accrued: 0,
        is_cancelled: false,
    }
}

/// Whether every id of the batch `ids` is new: not among the registered ids
/// `registered`, and not repeated within the batch.
pub open spec fn batch_is_new(registered: Seq<u64>, ids: Seq<u64>) -> bool {
    &&& forall|i: int| 0 <= i < ids.len() ==> !registered.contains(#[trigger] ids[i])
    &&& forall|i: int, j: int| 0 <= i < j < ids.len() ==> ids[i] != ids[j]
}

/// Whether `id` occurs among the first `n` elements of `s`.
pub open spec fn occurs_before(s: Seq<u64>, n: int, id: u64) -> bool {
    exists|k: int| 0 <= k < n && s[k] == id
}

/// Creates the task record for a newly registered id.
pub fn new_task(id: u64) -> (t: Task)
    ensures
        t == fresh_task(id),
{
    Task {
        id,
        votes: 0,
        is_done: false,
        resolved_at: 0,
        total_weight_accrued: 0,
        is_cancelled: false,
    }
}

fn contains_id(ids: &Vec<u64>, id: u64) -> (b: bool)
    ensures
        b == ids@.contains(id),
{
    let mut i: usize = 0;
    while i < ids.len()
        invariant
            0 <= i <= ids.len(),
            forall|k: int| 0 <= k < i ==> ids@[k] != id,
        decreases ids.len() - i,
    {
        if ids[i] == id {
            return true;
        }
        i = i + 1;
    }
    false
}

fn occurs_in_prefix(ids: &Vec<u64>, n: usize, id: u64) -> (b: bool)
    requires
        n <= ids.len(),
    ensures
        b == occurs_before(ids@, n as int, id),
{
    let mut i: usize = 0;
    while i < n
        invariant
            0 <= i <= n <= ids.len(),
            forall|k: int| 0 <= k < i ==> ids@[k] != id,
        decreases n - i,
    {
        if ids[i] == id {
            return true;
        }
        i = i + 1;
    }
    false
}

/// Registers the batch `task_ids` against the list `all_tasks` of ids
/// registered so far, with `lock_held` the state of the reentrancy mutex.
///
/// A batch longer than [`MAX_REGISTER_TASK_BATCH_SIZE`] is refused with
/// `BatchTooLarge`, then a held mutex with `Locked`, then a batch holding an
/// id that is registered already or repeated with `NotAuthorized`; in each
/// case `all_tasks` is left as it was. Otherwise the batch is appended to
/// `all_tasks` and a fresh task is returned for each id, in order.
pub fn register_tasks(all_tasks: &mut Vec<u64>, task_ids: &Vec<u64>, lock_held: bool) -> (r:
    Result<Vec<Task>, ContractError>)
    ensures
        task_ids.len() > MAX_REGISTER_TASK_BATCH_SIZE ==> r == Err::<Vec<Task>, ContractError>(
            ContractError::BatchTooLarge,
        ),
        task_ids.len() <= MAX_REGISTER_TASK_BATCH_SIZE && lock_held ==> r == Err::<
            Vec<Task>,
            ContractError,
        >(ContractError::Locked),
        task_ids.len() <= MAX_REGISTER_TASK_BATCH_SIZE && !lock_held && !batch_is_new(
            old(all_tasks)@,
            task_ids@,
        ) ==> r == Err::<Vec<Task>, ContractError>(ContractError::NotAuthorized),
        r is Err ==> final(all_tasks)@ == old(all_tasks)@,
        task_ids.len() <= MAX_REGISTER_TASK_BATCH_SIZE && !lock_held && batch_is_new(
            old(all_tasks)@,
            task_ids@,
        ) ==> r is Ok,
        r matches Ok(tasks) ==> {
            &&& tasks@.len() == task_ids@.len()
            &&& forall|i: int| 0 <= i < tasks@.len() ==> tasks@[i] == fresh_task(task_ids@[i])
            &&& final(all_tasks)@ == old(all_tasks)@ + task_ids@
        },
{
    if task_ids.len() > MAX_REGISTER_TASK_BATCH_SIZE {
        return Err(ContractError::BatchTooLarge);
    }
    if lock_held {
        return Err(ContractError::Locked);
    }
    let mut tasks: Vec<Task> = Vec::new();
    let mut i: usize = 0;
    while i < task_ids.len()
        invariant
            0 <= i <= task_ids.len() <= MAX_REGISTER_TASK_BATCH_SIZE,
            !lock_held,
            all_tasks@ == old(all_tasks)@,
            tasks@.len() == i,
            forall|k: int| 0 <= k < i ==> tasks@[k] == fresh_task(task_ids@[k]),
            forall|k: int| 0 <= k < i ==> !all_tasks@.contains(#[trigger] task_ids@[k]),
            forall|a: int, b: int| 0 <= a < b < i ==> task_ids@[a] != task_ids@[b],
        decreases task_ids.len() - i,
    {
        let id: u64 = task_ids[i];
        if contains_id(all_tasks, id) {
            return Err(ContractError::NotAuthorized);
        }
        if occurs_in_prefix(task_ids, i, id) {
            return Err(ContractError::NotAuthorized);
        }
        tasks.push(new_task(id));
        i = i + 1;
    }
    let mut j: usize = 0;
    let ghost before = all_tasks@;
    while j < task_ids.len()
        invariant
            0 <= j <= task_ids.len(),
            all_tasks@ == before + task_ids@.subrange(0, j as int),
        decreases task_ids.len() - j,
    {
        all_tasks.push(task_ids[j]);
        j = j + 1;
        assert(task_ids@.subrange(0, j as int) == task_ids@.subrange(0, j - 1) + seq![
            task_ids@[j - 1],
        ]);
    }
    assert(task_ids@.subrange(0, task_ids.len() as int) == task_ids@);
    Ok(tasks)
}

/// Cancels the task `task` (the stored record of the id, if any), with
/// `lock_held` the state of the reentrancy mutex: a held mutex is refused
/// with `Locked`, an unknown task with `NotAuthorized`; otherwise the task is
/// returned marked cancelled, all else unchanged.
pub fn cancel_task(task: Option<Task>, lock_held: bool) -> (r: Result<Task, ContractError>)
    ensures
        lock_held ==> r == Err::<Task, ContractError>(ContractError::Locked),
        !lock_held && task is None ==> r == Err::<Task, ContractError>(ContractError::NotAuthorized),
        !lock_held && task is Some ==> r == Ok::<Task, ContractError>(
            Task { is_cancelled: true, ..task->0 },
        ),
{
    if lock_held {
        return Err(ContractError::Locked);
    }
    match task {
        Some(t) => Ok(Task { is_cancelled: true, ..t }),
        None => Err(ContractError::NotAuthorized),
    }
}

/// Whether no id occurs twice in `ids`.
pub open spec fn no_duplicates(ids: Seq<u64>) -> bool {
    forall|i: int, j: int| 0 <= i < j < ids.len() ==> ids[i] != ids[j]
}

/// Task ids stay unique: registering a new batch on a list of distinct ids
/// leaves a list of distinct ids, and no id of the batch can be registered
/// again afterwards.
pub proof fn law_task_ids_stay_unique(registered: Seq<u64>, ids: Seq<u64>, again: u64)
    requires
        no_duplicates(registered),
        batch_is_new(registered, ids),
        ids.contains(again),
    ensures
        no_duplicates(registered + ids),
        !batch_is_new(registered + ids, seq![again]),
{
    let all = registered + ids;
    assert forall|i: int, j: int| 0 <= i < j < all.len() implies all[i] != all[j] by {
        if j >= registered.len() && i < registered.len() {
            assert(registered.contains(all[i]));
            assert(all[j] == ids[j - registered.len()]);
        }
    }
    let k: int = choose|k: int| 0 <= k < ids.len() && ids[k] == again;
    assert(all[registered.len() + k] == again);
    assert(seq![again][0] == again);
}

/// A registered task starts with the id it was registered under, no votes,
/// no weight, unresolved, not cancelled, and resolution time 0.
pub proof fn law_fresh_task_is_empty(id: u64)
    ensures
        fresh_task(id).id == id,
        fresh_task(id).votes == 0,
        fresh_task(id).total_weight_accrued == 0,
        !fresh_task(id).is_done,
        !fresh_task(id).is_cancelled,
        fresh_task(id).resolved_at == 0,
{
}

} // verus!
