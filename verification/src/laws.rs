use vstd::prelude::*;

use crate::item::{
    do_stage_step, error_step, following_stage, next_stage_step, resume_step, stage_view_at, stage_view_count, start_step,
    initial_item, ActionModel, ItemModel,
};
use crate::progress_compute::{clamp_ticks, MAX_PROGRESS_TICKS, TICKS_PER_PERCENT};
use crate::label::decimal;
use crate::stage::stage_label;

verus! {

/// Progress never goes above 100%: whatever is asked for, `set_progress`
/// and `inc_progress` leave at most `MAX_PROGRESS_TICKS` ticks.
pub proof fn lemma_progress_is_at_most_full(requested: u32, current: u32)
    requires
        current <= MAX_PROGRESS_TICKS,
    ensures
        clamp_ticks(requested) <= MAX_PROGRESS_TICKS,
        (if requested > current { clamp_ticks(requested) } else { current }) <= MAX_PROGRESS_TICKS,
{
}

/// Starting an item with no stages leaves it done, with nothing to run.
pub proof fn lemma_start_without_stages_is_done<T, V>(m: ItemModel<T, V>)
    requires
        !m.started,
        m.stages.len() == 0,
    ensures
        start_step(m).0.done,
        start_step(m).0.started,
        start_step(m).1 == ActionModel::<T>::Idle,
{
}

/// Starting runs the first registered stage, from 0% progress, and leaves
/// the others queued in the order they were registered.
pub proof fn lemma_start_runs_first_stage<T, V>(m: ItemModel<T, V>)
    requires
        !m.started,
        0 < m.stages.len() <= usize::MAX,
        m.stages[0].task is Some,
    ensures
        start_step(m).1 == (ActionModel::Run {
            stage_index: 0,
            task: m.stages[0].task.unwrap(),
            max_lock_attempts: m.max_lock_attempts,
            lock_attempt_wait: m.lock_attempt_wait,
        }),
        start_step(m).0.stages == m.stages.drop_first(),
        start_step(m).0.numstages == m.stages.len(),
        start_step(m).0.current_stage == Some((0usize, m.stages[0].name)),
        start_step(m).0.progress == 0,
        start_step(m).0.processing_stage,
{
}

/// Starting twice is starting once: the second start changes nothing.
pub proof fn lemma_start_is_idempotent<T, V>(m: ItemModel<T, V>)
    ensures
        start_step(start_step(m).0) == (start_step(m).0, ActionModel::<T>::Idle),
{
}

/// When a stage ends well and the item is not paused, the progress goes
/// back to 0 and the next queued stage runs, as stage `stage_index + 1`.
pub proof fn lemma_next_stage_runs_from_zero<T, V>(
    m: ItemModel<T, V>,
    stage_index: usize,
    vars: Option<Map<Seq<char>, V>>,
)
    requires
        !m.paused,
        stage_index + 1 < m.numstages,
        m.stages.len() > 0,
        m.stages[0].task is Some,
    ensures
        next_stage_step(m, stage_index, vars).0.progress == 0,
        next_stage_step(m, stage_index, vars).0.stages == m.stages.drop_first(),
        next_stage_step(m, stage_index, vars).0.current_stage == Some(
            ((stage_index + 1) as usize, m.stages[0].name),
        ),
        next_stage_step(m, stage_index, vars).1 == (ActionModel::Run {
            stage_index: (stage_index + 1) as usize,
            task: m.stages[0].task.unwrap(),
            max_lock_attempts: m.max_lock_attempts,
            lock_attempt_wait: m.lock_attempt_wait,
        }),
{
}

/// After the last stage ends well, the item is done and runs nothing more.
pub proof fn lemma_last_stage_ends_item<T, V>(
    m: ItemModel<T, V>,
    stage_index: usize,
    vars: Option<Map<Seq<char>, V>>,
)
    requires
        !m.paused,
        stage_index + 1 >= m.numstages,
    ensures
        next_stage_step(m, stage_index, vars).0.done,
        next_stage_step(m, stage_index, vars).1 == ActionModel::<T>::Idle,
{
}

/// The variables a stage ends with are seen by the stages after it: each
/// of them is in the item, with the value the stage gave it, and every
/// other variable of the item stays as it was.
pub proof fn lemma_stage_vars_are_handed_on<T, V>(
    m: ItemModel<T, V>,
    stage_index: usize,
    vars: Map<Seq<char>, V>,
)
    ensures
        forall|k: Seq<char>|
            vars.contains_key(k) ==> {
                &&& #[trigger] next_stage_step(m, stage_index, Some(vars)).0.vars.contains_key(k)
                &&& next_stage_step(m, stage_index, Some(vars)).0.vars[k] == vars[k]
            },
        forall|k: Seq<char>|
            !vars.contains_key(k) && m.vars.contains_key(k) ==> {
                &&& #[trigger] next_stage_step(m, stage_index, Some(vars)).0.vars.contains_key(k)
                &&& next_stage_step(m, stage_index, Some(vars)).0.vars[k] == m.vars[k]
            },
{
}

/// A paused item does not run its next stage when a stage ends; resuming
/// it hands that stage back to be run.
pub proof fn lemma_pause_holds_next_stage<T, V>(
    m: ItemModel<T, V>,
    stage_index: usize,
    vars: Option<Map<Seq<char>, V>>,
)
    requires
        m.paused,
        m.pause_resume.len() == 0,
    ensures
        next_stage_step(m, stage_index, vars).1 == ActionModel::<T>::Idle,
        next_stage_step(m, stage_index, vars).0.stages == m.stages,
        resume_step(next_stage_step(m, stage_index, vars).0).1 == Some(following_stage(stage_index)),
        !resume_step(next_stage_step(m, stage_index, vars).0).0.paused,
        resume_step(next_stage_step(m, stage_index, vars).0).0.pause_resume.len() == 0,
{
}

/// Pausing and then resuming an item that keeps no stage for later gives
/// back the item as it was, with nothing to run.
pub proof fn lemma_pause_then_resume_restores<T, V>(m: ItemModel<T, V>)
    requires
        !m.paused,
        m.pause_resume.len() == 0,
    ensures
        resume_step(ItemModel { paused: true, ..m }) == (m, None::<usize>),
{
}

/// Resuming while a stage runs only lifts the pause: nothing is run, and
/// the stage's end will run the next one.
pub proof fn lemma_resume_during_stage_only_lifts_pause<T, V>(m: ItemModel<T, V>)
    requires
        m.paused,
        m.processing_stage,
    ensures
        resume_step(m) == (ItemModel { paused: false, ..m }, None::<usize>),
{
}

/// Resuming an item that is not paused changes nothing.
pub proof fn lemma_resume_unpaused_is_noop<T, V>(m: ItemModel<T, V>)
    requires
        !m.paused,
    ensures
        resume_step(m) == (m, None::<usize>),
{
}

/// A stage that ends with an error leaves the item errored, with the
/// stage's index and message, and no longer processing.
pub proof fn lemma_error_is_recorded<T, V>(m: ItemModel<T, V>, stage_index: usize, error_string: Seq<char>)
    ensures
        error_step(m, stage_index, error_string).errored is Some,
        error_step(m, stage_index, error_string).errored.unwrap().progress_index == stage_index,
        error_step(m, stage_index, error_string).errored.unwrap().error_string == error_string,
        !error_step(m, stage_index, error_string).processing_stage,
        error_step(m, stage_index, error_string).stages == m.stages,
{
}

/// An errored item makes no further progress on its own. Recording the
/// error keeps its current stage, its queue, its progress and whether it is
/// done; it then hands nothing to run: starting it again does nothing, and
/// resuming it (paused or not) only lifts the pause, with no stage handed back.
/// (Where a stage had been kept for later before the error, resuming still
/// hands that stage back; such items are left out.)
pub proof fn lemma_errored_item_makes_no_progress<T, V>(
    m: ItemModel<T, V>,
    stage_index: usize,
    error_string: Seq<char>,
)
    requires
        m.started,
        m.pause_resume.len() == 0,
    ensures
        error_step(m, stage_index, error_string).current_stage == m.current_stage,
        error_step(m, stage_index, error_string).stages == m.stages,
        error_step(m, stage_index, error_string).progress == m.progress,
        error_step(m, stage_index, error_string).done == m.done,
        start_step(error_step(m, stage_index, error_string)) == (
            error_step(m, stage_index, error_string),
            ActionModel::<T>::Idle,
        ),
        resume_step(error_step(m, stage_index, error_string)) == (
            ItemModel { paused: false, ..error_step(m, stage_index, error_string) },
            None::<usize>,
        ),
        resume_step(ItemModel { paused: true, ..error_step(m, stage_index, error_string) }) == (
            ItemModel { paused: false, ..error_step(m, stage_index, error_string) },
            None::<usize>,
        ),
{
}

/// Moving to a stage past the last one only marks the item done.
pub proof fn lemma_past_last_stage_is_done<T, V>(m: ItemModel<T, V>, stage_index: usize)
    requires
        stage_index >= m.numstages,
    ensures
        do_stage_step(m, stage_index) == (ItemModel { done: true, ..m }, ActionModel::<T>::Idle),
{
}

/// What is inserted under a name is what is found and extracted under it
/// afterwards; extracting it leaves the other variables as they were, and
/// the name no longer exists.
pub proof fn lemma_vars_read_back_what_was_inserted<V>(
    vars: Map<Seq<char>, V>,
    key: Seq<char>,
    value: V,
)
    ensures
        vars.insert(key, value).contains_key(key),
        vars.insert(key, value)[key] == value,
        !vars.insert(key, value).remove(key).contains_key(key),
        vars.insert(key, value).remove(key) == vars.remove(key),
{
    assert(vars.insert(key, value).remove(key) =~= vars.remove(key));
}

/// The snapshots of an item are numbered by their position: the `i`-th
/// has index `i`.
pub proof fn lemma_stage_views_are_numbered<T, V>(m: ItemModel<T, V>)
    requires
        stage_view_count(m) <= usize::MAX,
    ensures
        forall|i: int| 0 <= i < stage_view_count(m) ==> #[trigger] stage_view_at(m, i).index == i,
{
}


/// 100% is 100,000 ticks, and 1% is 1000 ticks.
pub proof fn lemma_tick_scale()
    ensures
        MAX_PROGRESS_TICKS == 100_000,
        TICKS_PER_PERCENT == 1000,
{
}

/// A requested progress within 0..=100% is kept exactly as asked; only a
/// request above 100% is cut down, to exactly 100%.
pub proof fn lemma_progress_is_kept_as_asked(requested: u32)
    ensures
        requested <= 100_000 ==> clamp_ticks(requested) == requested,
        requested > 100_000 ==> clamp_ticks(requested) == 100_000,
{
}

/// Raising the progress gives the larger of the old progress and the
/// requested one (cut to 100%).
pub proof fn lemma_raise_is_the_larger(requested: u32, current: u32)
    requires
        current <= 100_000,
    ensures
        (if requested > current { clamp_ticks(requested) } else { current }) == if requested
            <= current {
            current
        } else if requested <= 100_000 {
            requested
        } else {
            100_000
        },
{
}

/// Moving to a stage marks the item done exactly when the index is past
/// the last stage (or it was done already); running a stage never marks
/// it done. Nothing else of the item's settings, pause, error or variables
/// changes.
pub proof fn lemma_do_stage_done_only_past_the_end<T, V>(m: ItemModel<T, V>, stage_index: usize)
    ensures
        do_stage_step(m, stage_index).0.done == (m.done || stage_index >= m.numstages),
        do_stage_step(m, stage_index).1 is Run ==> do_stage_step(m, stage_index).0.done == m.done,
        do_stage_step(m, stage_index).1 is Run ==> stage_index < m.numstages,
        stage_index >= m.numstages <==> do_stage_step(m, stage_index).1 is Idle,
        do_stage_step(m, stage_index).0.started == m.started,
        do_stage_step(m, stage_index).0.numstages == m.numstages,
        do_stage_step(m, stage_index).0.paused == m.paused,
        do_stage_step(m, stage_index).0.errored == m.errored,
        do_stage_step(m, stage_index).0.vars == m.vars,
        do_stage_step(m, stage_index).0.pause_resume == m.pause_resume,
        do_stage_step(m, stage_index).0.max_lock_attempts == m.max_lock_attempts,
        do_stage_step(m, stage_index).0.lock_attempt_wait == m.lock_attempt_wait,
{
}

/// Moving to a stage within range takes exactly one stage off the front
/// of the queue (if there is one), and counts the stage that ran last as
/// past: the past names grow by its label. A stage runs exactly when the
/// front stage has a task, and then it is that task, from 0% progress;
/// otherwise the stage fails with "Failed to run stage" and the progress,
/// the current stage and whether a stage runs stay as they were.
pub proof fn lemma_do_stage_takes_the_front_stage<T, V>(m: ItemModel<T, V>, stage_index: usize)
    requires
        stage_index < m.numstages,
    ensures
        m.stages.len() > 0 ==> do_stage_step(m, stage_index).0.stages =~= m.stages.subrange(
            1,
            m.stages.len() as int,
        ),
        m.stages.len() == 0 ==> do_stage_step(m, stage_index).0.stages == m.stages,
        m.current_stage matches Some((i, n)) ==> do_stage_step(m, stage_index).0.past_stage_names
            =~= m.past_stage_names + seq![stage_label(i, n)],
        m.current_stage is None ==> do_stage_step(m, stage_index).0.past_stage_names
            == m.past_stage_names,
        (do_stage_step(m, stage_index).1 is Run) <==> (m.stages.len() > 0 && m.stages[0].task is Some),
        do_stage_step(m, stage_index).1 matches ActionModel::Run { stage_index: s, task, .. } ==> s
            == stage_index && Some(task) == m.stages[0].task && do_stage_step(m, stage_index).0.progress
            == 0 && do_stage_step(m, stage_index).0.processing_stage && do_stage_step(
            m,
            stage_index,
        ).0.current_stage == Some((stage_index, m.stages[0].name)),
        do_stage_step(m, stage_index).1 matches ActionModel::Fail { stage_index: s, error_string, .. }
            ==> s == stage_index && error_string == "Failed to run stage"@ && do_stage_step(
            m,
            stage_index,
        ).0.progress == m.progress && do_stage_step(m, stage_index).0.current_stage
            == m.current_stage && do_stage_step(m, stage_index).0.processing_stage
            == m.processing_stage,
{
}

/// Starting fixes the number of stages to the number registered, and
/// marks the item done only when there are none.
pub proof fn lemma_start_counts_registered_stages<T, V>(m: ItemModel<T, V>)
    requires
        !m.started,
        m.stages.len() <= usize::MAX,
        !m.done,
    ensures
        start_step(m).0.started,
        start_step(m).0.numstages == m.stages.len(),
        start_step(m).0.done == (m.stages.len() == 0),
{
}

/// When a stage ends with no variables, the item's variables stay exactly
/// as they were; when it ends with variables, each of them is in the item
/// with the stage's value, the item's other variables stay, and no other
/// name appears.
pub proof fn lemma_stage_end_keeps_or_merges_vars<T, V>(
    m: ItemModel<T, V>,
    stage_index: usize,
    vars: Map<Seq<char>, V>,
)
    ensures
        next_stage_step(m, stage_index, None).0.vars == m.vars,
        forall|k: Seq<char>|
            #[trigger] next_stage_step(m, stage_index, Some(vars)).0.vars.contains_key(k) <==> (
            vars.contains_key(k) || m.vars.contains_key(k)),
        forall|k: Seq<char>|
            vars.contains_key(k) ==> #[trigger] next_stage_step(m, stage_index, Some(vars)).0.vars[k]
                == vars[k],
        forall|k: Seq<char>|
            !vars.contains_key(k) && m.vars.contains_key(k) ==> #[trigger] next_stage_step(
                m,
                stage_index,
                Some(vars),
            ).0.vars[k] == m.vars[k],
{
}

/// A stage's end leaves nothing running before the next stage is taken
/// up: a paused item keeps its current stage, progress, queue and `done`,
/// and keeps the following stage for later; an item that is not paused
/// moves to the following stage. The error and settings stay.
pub proof fn lemma_stage_end_moves_on_or_waits<T, V>(
    m: ItemModel<T, V>,
    stage_index: usize,
    vars: Option<Map<Seq<char>, V>>,
)
    ensures
        next_stage_step(m, stage_index, vars).0.errored == m.errored,
        next_stage_step(m, stage_index, vars).0.paused == m.paused,
        m.paused ==> {
            &&& next_stage_step(m, stage_index, vars).1 is Idle
            &&& next_stage_step(m, stage_index, vars).0.current_stage == m.current_stage
            &&& next_stage_step(m, stage_index, vars).0.progress == m.progress
            &&& next_stage_step(m, stage_index, vars).0.stages == m.stages
            &&& next_stage_step(m, stage_index, vars).0.done == m.done
            &&& !next_stage_step(m, stage_index, vars).0.processing_stage
            &&& next_stage_step(m, stage_index, vars).0.pause_resume =~= m.pause_resume
                + seq![following_stage(stage_index)]
        },
        !m.paused ==> next_stage_step(m, stage_index, vars).0.done == (m.done || following_stage(
            stage_index,
        ) >= m.numstages),
        !m.paused ==> next_stage_step(m, stage_index, vars).0.pause_resume == m.pause_resume,
        !m.paused ==> (next_stage_step(m, stage_index, vars).1 is Run
            <==> next_stage_step(m, stage_index, vars).0.processing_stage),
{
}

/// The stage after `stage_index` is the next index, except at the very
/// top of the range, which is past every stage anyway.
pub proof fn lemma_following_stage_is_next(stage_index: usize, numstages: usize)
    ensures
        stage_index < usize::MAX ==> following_stage(stage_index) == stage_index + 1,
        following_stage(stage_index) >= numstages <==> stage_index + 1 >= numstages,
{
}

/// An error is recorded with the stage's index, the message, and the name
/// of the stage that ran last (none before the first stage); nothing else
/// but `processing_stage` (now false) changes.
pub proof fn lemma_error_names_the_last_stage<T, V>(
    m: ItemModel<T, V>,
    stage_index: usize,
    error_string: Seq<char>,
)
    ensures
        error_step(m, stage_index, error_string).errored matches Some(e) && e.progress_index
            == stage_index && e.error_string == error_string && (m.current_stage matches Some(
            (_, n),
        ) ==> e.name == n) && (m.current_stage is None ==> e.name is None),
        error_step(m, stage_index, error_string) == (ItemModel {
            processing_stage: false,
            errored: error_step(m, stage_index, error_string).errored,
            ..m
        }),
{
}

/// Resuming always leaves the item unpaused; it hands back a stage only
/// when the item was paused between stages with a stage kept for later,
/// and then it is the oldest kept stage, which leaves the queue of kept
/// stages. Nothing else changes.
pub proof fn lemma_resume_hands_back_oldest_kept<T, V>(m: ItemModel<T, V>)
    ensures
        !resume_step(m).0.paused,
        resume_step(m).1 is Some <==> (m.paused && !m.processing_stage && m.pause_resume.len()
            > 0),
        resume_step(m).1 matches Some(i) ==> i == m.pause_resume[0]
            && resume_step(m).0.pause_resume =~= m.pause_resume.subrange(
            1,
            m.pause_resume.len() as int,
        ),
        resume_step(m).1 is None ==> resume_step(m).0.pause_resume == m.pause_resume,
        resume_step(m).0 == (ItemModel {
            paused: false,
            pause_resume: resume_step(m).0.pause_resume,
            ..m
        }),
{
}

/// In the snapshots, every past stage is shown at 100%, without error and
/// not running; every stage still to run at 0%, without error and not
/// running; the current stage shows the item's error, whether a stage
/// runs, and its progress (100% once all stages are over).
pub proof fn lemma_stage_views_show_errors_only_on_current<T, V>(m: ItemModel<T, V>)
    ensures
        forall|i: int|
            0 <= i < m.past_stage_names.len() ==> {
                &&& (#[trigger] stage_view_at(m, i)).errored is None
                &&& stage_view_at(m, i).progress_ticks == 100_000
                &&& !stage_view_at(m, i).currently_processing
                &&& stage_view_at(m, i).name == m.past_stage_names[i]
            },
        forall|i: int|
            m.past_stage_names.len() < i < stage_view_count(m) ==> {
                &&& (#[trigger] stage_view_at(m, i)).errored is None
                &&& stage_view_at(m, i).progress_ticks == 0
                &&& !stage_view_at(m, i).currently_processing
            },
        stage_view_at(m, m.past_stage_names.len() as int).errored == m.errored,
        stage_view_at(m, m.past_stage_names.len() as int).currently_processing
            == m.processing_stage,
        stage_view_at(m, m.past_stage_names.len() as int).name == match m.current_stage {
            Some((index, name)) => stage_label(index, name),
            None => Seq::<char>::empty(),
        },
        stage_view_at(m, m.past_stage_names.len() as int).progress_ticks == if m.stages.len() == 0
            && !m.processing_stage {
            100_000
        } else {
            m.progress
        },
        stage_view_count(m) == m.past_stage_names.len() + 1 + if m.stages.len() == 0
            && !m.processing_stage {
            0
        } else {
            m.stages.len()
        },
{
}

/// A stage is called by its name where it has one, otherwise by the
/// decimal text of its index.
pub proof fn lemma_stage_label_is_name_or_index(index: usize, name: Seq<char>)
    ensures
        stage_label(index, Some(name)) == name,
        stage_label(index, None) == decimal(index as nat),
{
}

/// A new item has no stages and no variables, has not started, is not done,
/// paused or errored, is at 0%, and tries three times to lock its holder,
/// 1000 ms apart.
pub proof fn lemma_new_item_is_blank<T, V>()
    ensures
        initial_item::<T, V>().stages.len() == 0,
        initial_item::<T, V>().past_stage_names.len() == 0,
        initial_item::<T, V>().current_stage is None,
        !initial_item::<T, V>().started,
        !initial_item::<T, V>().done,
        !initial_item::<T, V>().paused,
        !initial_item::<T, V>().processing_stage,
        initial_item::<T, V>().errored is None,
        initial_item::<T, V>().progress == 0,
        initial_item::<T, V>().numstages == 0,
        initial_item::<T, V>().pause_resume.len() == 0,
        initial_item::<T, V>().vars.dom().len() == 0,
        initial_item::<T, V>().max_lock_attempts == 3,
        initial_item::<T, V>().lock_attempt_wait == 1000,
{
}
} // verus!
