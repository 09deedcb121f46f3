use std::collections::hash_map::RandomState;
use std::collections::HashMap;
use std::hash::Hash;
use vstd::prelude::*;
use vstd::std_specs::hash::{builds_valid_hashers, obeys_key_model};

use crate::item::{
    error_step, handle_end_of_stage, next_stage_step, opt_vars, ProgressItem, StageAction, TaskResult,
};

verus! {

/// The progress items of an application, each under its key. An
/// application keeps one holder, behind a lock that the runner of each
/// item takes when a stage ends.
pub struct ProgressHolder<K, T, V> {
    pub progresses: HashMap<K, ProgressItem<T, V>>,
}

impl<K, T, V> Default for ProgressHolder<K, T, V> {
    fn default() -> (holder: Self)
        ensures
            holder.progresses@ == Map::<K, ProgressItem<T, V>>::empty(),
    {
        ProgressHolder { progresses: HashMap::new() }
    }
}

/// Why an item could not be reached in its holder.
#[derive(Debug, Clone, Copy, PartialEq, Eq, Structural)]
pub enum UseProgressError {
    /// The holder's lock was taken.
    LockUnavailable,
    /// No item is stored under the key.
    KeyNotFound,
}

/// The item stored under `key`, for changing it (`HashMap::get_mut` of std).
/// Claimed, where the key type follows the hash-table model of vstd: there
/// is an item exactly when the map holds `key`, and it is the one stored
/// there; the map afterwards holds under `key` the item as it is left
/// through the reference, and is otherwise unchanged. Without an item the
/// map is unchanged.
#[verifier::external_body]
fn item_for_key<'a, K: Eq + Hash, T, V>(
    progresses: &'a mut HashMap<K, ProgressItem<T, V>>,
    key: &K,
) -> (item: Option<&'a mut ProgressItem<T, V>>)
    ensures
        obeys_key_model::<K>() && builds_valid_hashers::<RandomState>() ==> {
            &&& (item is Some <==> old(progresses)@.contains_key(*key))
            &&& (item matches Some(it) ==> *it == old(progresses)@[*key]
                && final(progresses)@ == old(progresses)@.insert(*key, *final(it)))
            &&& (item is None ==> final(progresses)@ == old(progresses)@)
        },
{
    progresses.get_mut(key)
}

/// Hands the item stored under `key` to `ok_cb`, and keeps it under `key`
/// as `ok_cb` leaves it. Where `holder` is `None` (its lock was taken), or no
/// item is stored under `key`, `err_cb` is called with the reason instead
/// and the holder is left as it was.
pub fn use_me_from_progress_holder_or_error<K: Eq + Hash, T, V, F, E>(
    key: &K,
    holder: Option<&mut ProgressHolder<K, T, V>>,
    ok_cb: F,
    err_cb: E,
) where F: FnMut(&mut ProgressItem<T, V>), E: FnMut(UseProgressError)
    requires
        forall|it: &mut ProgressItem<T, V>| call_requires(ok_cb, (it,)),
        forall|e: UseProgressError| call_requires(err_cb, (e,)),
    ensures
        holder is None ==> call_ensures(err_cb, (UseProgressError::LockUnavailable,), ()),
        holder matches Some(h) ==> (obeys_key_model::<K>() && builds_valid_hashers::<
            RandomState,
        >() ==> if h.progresses@.contains_key(*key) {
            exists|it: &mut ProgressItem<T, V>|
                {
                    &&& *it == h.progresses@[*key]
                    &&& #[trigger] call_ensures(ok_cb, (it,), ())
                    &&& final(h).progresses@ == h.progresses@.insert(*key, *final(it))
                }
        } else {
            &&& call_ensures(err_cb, (UseProgressError::KeyNotFound,), ())
            &&& final(h).progresses@ == h.progresses@
        }),
{
    let mut mut_ok_cb = ok_cb;
    let mut mut_err_cb = err_cb;
    match holder {
        None => {
            mut_err_cb(UseProgressError::LockUnavailable);
        },
        Some(h) => match item_for_key(&mut h.progresses, key) {
            None => {
                mut_err_cb(UseProgressError::KeyNotFound);
            },
            Some(me) => {
                mut_ok_cb(me);
            },
        },
    }
}

/// Like `use_me_from_progress_holder_or_error`, with nothing done when the
/// item cannot be reached.
pub fn use_me_from_progress_holder<K: Eq + Hash, T, V, F>(
    key: &K,
    holder: Option<&mut ProgressHolder<K, T, V>>,
    cb: F,
) where F: FnMut(&mut ProgressItem<T, V>)
    requires
        forall|it: &mut ProgressItem<T, V>| call_requires(cb, (it,)),
    ensures
        holder matches Some(h) ==> (obeys_key_model::<K>() && builds_valid_hashers::<
            RandomState,
        >() ==> if h.progresses@.contains_key(*key) {
            exists|it: &mut ProgressItem<T, V>|
                {
                    &&& *it == h.progresses@[*key]
                    &&& #[trigger] call_ensures(cb, (it,), ())
                    &&& final(h).progresses@ == h.progresses@.insert(*key, *final(it))
                }
        } else {
            final(h).progresses@ == h.progresses@
        }),
{
    use_me_from_progress_holder_or_error(key, holder, cb, |_e: UseProgressError| {});
}

/// Reports to the item stored under `key` that the task of stage
/// `stage_index` ended with `task_result` (see `handle_end_of_stage`), and
/// keeps the item under `key` as that leaves it. Every other item of the
/// holder stays as it was; where no item is stored under `key`, nothing
/// changes and nothing is to be run.
pub fn end_stage_in_holder<K: Eq + Hash, T, V>(
    key: &K,
    holder: &mut ProgressHolder<K, T, V>,
    stage_index: usize,
    task_result: TaskResult<V>,
) -> (action: StageAction<T>)
    ensures
        obeys_key_model::<K>() && builds_valid_hashers::<RandomState>() ==> if old(
            holder,
        ).progresses@.contains_key(*key) {
            &&& final(holder).progresses@ == old(holder).progresses@.insert(
                *key,
                final(holder).progresses@[*key],
            )
            &&& match task_result {
                Ok(vars) => (final(holder).progresses@[*key]@, action@) == next_stage_step(
                    old(holder).progresses@[*key]@,
                    stage_index,
                    opt_vars(vars),
                ),
                Err(error_string) => final(holder).progresses@[*key]@ == error_step(
                    old(holder).progresses@[*key]@,
                    stage_index,
                    error_string@,
                ) && action is Idle,
            }
        } else {
            final(holder).progresses@ == old(holder).progresses@ && action is Idle
        },
{
    match item_for_key(&mut holder.progresses, key) {
        None => StageAction::Idle,
        Some(me) => handle_end_of_stage(me, stage_index, task_result),
    }
}

/// How many lock attempts are left after a failed one, when `max_lock_attempts`
/// were left before it: 0 stands for no limit; after the last attempt the
/// runner gives up (`None`).
pub open spec fn next_lock_attempts(max_lock_attempts: usize) -> Option<usize> {
    if max_lock_attempts == 0 {
        Some(0)
    } else if max_lock_attempts == 1 {
        None
    } else {
        Some((max_lock_attempts - 1) as usize)
    }
}

/// How many lock attempts are left after a failed one (see `next_lock_attempts`).
pub fn lock_attempts_after_failure(max_lock_attempts: usize) -> (left: Option<usize>)
    ensures
        left == next_lock_attempts(max_lock_attempts),
{
    if max_lock_attempts == 0 {
        Some(0)
    } else if max_lock_attempts == 1 {
        None
    } else {
        Some(max_lock_attempts - 1)
    }
}

/// The attempts left after `failures` failed attempts in a row, starting
/// from `max_lock_attempts`; `None` once the runner has given up.
pub open spec fn attempts_left_after(max_lock_attempts: usize, failures: nat) -> Option<usize>
    decreases failures,
{
    if failures == 0 {
        Some(max_lock_attempts)
    } else {
        match attempts_left_after(max_lock_attempts, (failures - 1) as nat) {
            Some(left) => next_lock_attempts(left),
            None => None,
        }
    }
}

/// With a limit of `max_lock_attempts` > 0, the runner makes exactly that
/// many attempts to lock the holder: after `failures` < max failed attempts
/// it still tries, after max failed attempts it gives up.
pub proof fn lemma_lock_attempts_are_limited(max_lock_attempts: usize, failures: nat)
    requires
        max_lock_attempts > 0,
        failures <= max_lock_attempts,
    ensures
        attempts_left_after(max_lock_attempts, failures) == if failures < max_lock_attempts {
            Some((max_lock_attempts - failures) as usize)
        } else {
            None::<usize>
        },
    decreases failures,
{
    if failures > 0 {
        lemma_lock_attempts_are_limited(max_lock_attempts, (failures - 1) as nat);
    }
}

/// With no limit (`max_lock_attempts` == 0), the runner never gives up.
pub proof fn lemma_unlimited_lock_attempts(failures: nat)
    ensures
        attempts_left_after(0, failures) == Some(0usize),
    decreases failures,
{
    if failures > 0 {
        lemma_unlimited_lock_attempts((failures - 1) as nat);
    }
}

} // verus!
