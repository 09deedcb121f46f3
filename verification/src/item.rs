use std::collections::VecDeque;
use vstd::prelude::*;

use crate::label::decimal_string;
use crate::progress_compute::{clamp_ticks, ProgressCompute, MAX_PROGRESS_TICKS};
use crate::progress_vars::{entries_map, ProgressVars};
use crate::stage::{
    copy_opt_text, opt_error, opt_text, stage_label, ErrorModel, ProgressError, Stage, StageModel,
};

verus! {

/// What a stage's task ends with: variables for the stages after it, or an error message.
pub type TaskResult<V> = Result<Option<ProgressVars<V>>, String>;

/// What the runner of a progress item has to do next.
pub enum StageAction<T> {
    /// Nothing: the item is finished, paused, errored or waiting on a task.
    Idle,
    /// Run `task`; when it ends, report its result for `stage_index`.
    Run { stage_index: usize, task: T, max_lock_attempts: usize, lock_attempt_wait: u64 },
    /// The stage could not be run; report `error_string` as its result.
    Fail {
        stage_index: usize,
        error_string: String,
        max_lock_attempts: usize,
        lock_attempt_wait: u64,
    },
}

/// What an action is seen as.
pub enum ActionModel<T> {
    Idle,
    Run { stage_index: usize, task: T, max_lock_attempts: usize, lock_attempt_wait: u64 },
    Fail {
        stage_index: usize,
        error_string: Seq<char>,
        max_lock_attempts: usize,
        lock_attempt_wait: u64,
    },
}

impl<T> View for StageAction<T> {
    type V = ActionModel<T>;

    open spec fn view(&self) -> ActionModel<T> {
        match self {
            StageAction::Idle => ActionModel::Idle,
            StageAction::Run { stage_index, task, max_lock_attempts, lock_attempt_wait } =>
                ActionModel::Run {
                stage_index: *stage_index,
                task: *task,
                max_lock_attempts: *max_lock_attempts,
                lock_attempt_wait: *lock_attempt_wait,
            },
            StageAction::Fail { stage_index, error_string, max_lock_attempts, lock_attempt_wait } =>
                ActionModel::Fail {
                stage_index: *stage_index,
                error_string: error_string@,
                max_lock_attempts: *max_lock_attempts,
                lock_attempt_wait: *lock_attempt_wait,
            },
        }
    }
}

/// The message a stage without a task fails with.
pub open spec fn failed_stage_message() -> Seq<char> {
    "Failed to run stage"@
}

/// What a progress item is seen as.
pub struct ItemModel<T, V> {
    /// Names of the stages that are over, oldest first.
    pub past_stage_names: Seq<Seq<char>>,
    /// The stages still to run, next first.
    pub stages: Seq<StageModel<T>>,
    pub started: bool,
    /// How many stages there were when the item started.
    pub numstages: usize,
    /// Index and name of the stage that ran last.
    pub current_stage: Option<(usize, Option<Seq<char>>)>,
    /// Progress of the current stage, in ticks.
    pub progress: u32,
    pub errored: Option<ErrorModel>,
    pub done: bool,
    pub max_lock_attempts: usize,
    pub lock_attempt_wait: u64,
    pub paused: bool,
    /// Indices of the stages to run when the item is resumed, first first.
    pub pause_resume: Seq<usize>,
    pub processing_stage: bool,
    pub vars: Map<Seq<char>, V>,
}

/// A new progress item: nothing registered, not started, three lock
/// attempts with 1000 ms between them.
pub open spec fn initial_item<T, V>() -> ItemModel<T, V> {
    ItemModel {
        past_stage_names: Seq::empty(),
        stages: Seq::empty(),
        started: false,
        numstages: 0,
        current_stage: None,
        progress: 0,
        errored: None,
        done: false,
        max_lock_attempts: 3,
        lock_attempt_wait: 1000,
        paused: false,
        pause_resume: Seq::empty(),
        processing_stage: false,
        vars: Map::empty(),
    }
}

/// The past stage names once the stage that ran last is counted as past.
pub open spec fn archived_names<T, V>(m: ItemModel<T, V>) -> Seq<Seq<char>> {
    match m.current_stage {
        Some((index, name)) => m.past_stage_names.push(stage_label(index, name)),
        None => m.past_stage_names,
    }
}

/// Moving to stage `stage_index`: past the last stage the item is done;
/// otherwise the next registered stage is taken off the queue and its
/// task is run from 0% progress, or, where it has no task, the stage fails.
pub open spec fn do_stage_step<T, V>(m: ItemModel<T, V>, stage_index: usize) -> (
    ItemModel<T, V>,
    ActionModel<T>,
) {
    if stage_index >= m.numstages {
        (ItemModel { done: true, ..m }, ActionModel::Idle)
    } else if m.stages.len() > 0 && m.stages[0].task is Some {
        (
            ItemModel {
                past_stage_names: archived_names(m),
                stages: m.stages.drop_first(),
                current_stage: Some((stage_index, m.stages[0].name)),
                progress: 0,
                processing_stage: true,
                ..m
            },
            ActionModel::Run {
                stage_index,
                task: m.stages[0].task.unwrap(),
                max_lock_attempts: m.max_lock_attempts,
                lock_attempt_wait: m.lock_attempt_wait,
            },
        )
    } else {
        (
            ItemModel {
                past_stage_names: archived_names(m),
                stages: if m.stages.len() > 0 {
                    m.stages.drop_first()
                } else {
                    m.stages
                },
                ..m
            },
            ActionModel::Fail {
                stage_index,
                error_string: failed_stage_message(),
                max_lock_attempts: m.max_lock_attempts,
                lock_attempt_wait: m.lock_attempt_wait,
            },
        )
    }
}

/// Starting: only the first call does anything; it fixes the number of
/// stages and moves to stage 0.
pub open spec fn start_step<T, V>(m: ItemModel<T, V>) -> (ItemModel<T, V>, ActionModel<T>) {
    if m.started {
        (m, ActionModel::Idle)
    } else {
        do_stage_step(ItemModel { started: true, numstages: m.stages.len() as usize, ..m }, 0)
    }
}

/// The index of the stage after `stage_index`. No item has more than
/// `usize::MAX` stages, so an index at the top of the range is past the last
/// stage already; there the index stays, and moving to it ends the item just
/// as moving to any index past the last stage does.
pub open spec fn following_stage(stage_index: usize) -> usize {
    if stage_index < usize::MAX {
        (stage_index + 1) as usize
    } else {
        usize::MAX
    }
}

/// A stage that ended well: its variables are merged in (its own win),
/// and the next stage is run, or kept for later if the item is paused.
pub open spec fn next_stage_step<T, V>(
    m: ItemModel<T, V>,
    stage_index: usize,
    vars: Option<Map<Seq<char>, V>>,
) -> (ItemModel<T, V>, ActionModel<T>) {
    let merged = match vars {
        Some(v) => m.vars.union_prefer_right(v),
        None => m.vars,
    };
    let m1 = ItemModel { vars: merged, processing_stage: false, ..m };
    let next = following_stage(stage_index);
    if !m.paused {
        do_stage_step(m1, next)
    } else {
        (ItemModel { pause_resume: m1.pause_resume.push(next), ..m1 }, ActionModel::Idle)
    }
}

/// A stage that ended with an error: the item records it, with the name
/// of the stage that ran last.
pub open spec fn error_step<T, V>(m: ItemModel<T, V>, stage_index: usize, error_string: Seq<
    char,
>) -> ItemModel<T, V> {
    ItemModel {
        processing_stage: false,
        errored: Some(
            ErrorModel {
                name: match m.current_stage {
                    Some((_, name)) => name,
                    None => None,
                },
                progress_index: stage_index,
                error_string,
            },
        ),
        ..m
    }
}

/// Resuming: a paused item that is between stages hands back the first
/// stage it kept for later.
pub open spec fn resume_step<T, V>(m: ItemModel<T, V>) -> (ItemModel<T, V>, Option<usize>) {
    if !m.paused {
        (m, None)
    } else if m.processing_stage {
        (ItemModel { paused: false, ..m }, None)
    } else if m.pause_resume.len() > 0 {
        (
            ItemModel { paused: false, pause_resume: m.pause_resume.drop_first(), ..m },
            Some(m.pause_resume[0]),
        )
    } else {
        (ItemModel { paused: false, ..m }, None)
    }
}

/// How far an item has got through its stages, and the name of the stage
/// that ran last. The index of that stage is always below the number of stages.
struct StagePosition {
    started: bool,
    numstages: usize,
    current: Option<(usize, Option<String>)>,
}

impl StagePosition {
    #[verifier::type_invariant]
    spec fn current_is_a_stage(self) -> bool {
        &&& match self.current {
            Some((index, _)) => index < self.numstages,
            None => true,
        }
        &&& !self.started ==> self.numstages == 0
    }
}

/// A queue of stages, run one after the other, with the progress of the
/// current one, whether it is paused or errored, and variables that stages
/// hand on. The item decides; its runner performs the `StageAction`s it
/// returns and reports back how each task ended.
pub struct ProgressItem<T, V> {
    past_stage_names: Vec<String>,
    stages: VecDeque<Stage<T>>,
    position: StagePosition,
    progress: ProgressCompute,
    errored: Option<ProgressError>,
    done: bool,
    max_lock_attempts: usize,
    lock_attempt_wait: u64,
    paused: bool,
    pause_resume: VecDeque<usize>,
    processing_stage: bool,
    vars: ProgressVars<V>,
}

impl<T, V> View for ProgressItem<T, V> {
    type V = ItemModel<T, V>;

    closed spec fn view(&self) -> ItemModel<T, V> {
        ItemModel {
            past_stage_names: self.past_stage_names@.map_values(|s: String| s@),
            stages: self.stages@.map_values(|s: Stage<T>| s@),
            started: self.position.started,
            numstages: self.position.numstages,
            current_stage: match self.position.current {
                Some((index, name)) => Some((index, opt_text(name))),
                None => None,
            },
            progress: self.progress@,
            errored: opt_error(self.errored),
            done: self.done,
            max_lock_attempts: self.max_lock_attempts,
            lock_attempt_wait: self.lock_attempt_wait,
            paused: self.paused,
            pause_resume: self.pause_resume@,
            processing_stage: self.processing_stage,
            vars: self.vars@,
        }
    }
}

impl<T, V> ProgressItem<T, V> {
    /// A new item with no stages.
    pub fn new() -> (item: Self)
        ensures
            item@ == initial_item::<T, V>(),
    {
        let item = ProgressItem {
            past_stage_names: Vec::new(),
            stages: VecDeque::new(),
            position: StagePosition { started: false, numstages: 0, current: None },
            progress: ProgressCompute::new(),
            errored: None,
            done: false,
            max_lock_attempts: 3,
            lock_attempt_wait: 1000,
            paused: false,
            pause_resume: VecDeque::new(),
            processing_stage: false,
            vars: ProgressVars::new(),
        };
        assert(item@.past_stage_names =~= Seq::<Seq<char>>::empty());
        assert(item@.stages =~= Seq::<StageModel<T>>::empty());
        item
    }

    /// The same item with `max` attempts to lock its holder when a stage
    /// ends (3 by default). 0 means trying for ever.
    pub fn set_max_lock_attempts(self, max: usize) -> (item: Self)
        ensures
            item@ == (ItemModel { max_lock_attempts: max, ..self@ }),
    {
        let mut item = self;
        item.max_lock_attempts = max;
        item
    }

    /// The same item waiting `duration` milliseconds before each attempt
    /// to lock its holder (1000 by default).
    pub fn set_lock_attempt_duration(self, duration: u64) -> (item: Self)
        ensures
            item@ == (ItemModel { lock_attempt_wait: duration, ..self@ }),
    {
        let mut item = self;
        item.lock_attempt_wait = duration;
        item
    }

    /// The error the item ended with, if any.
    pub fn get_progress_error(&self) -> (error: &Option<ProgressError>)
        ensures
            opt_error(*error) == self@.errored,
    {
        &self.errored
    }

    pub fn has_started(&self) -> (started: bool)
        ensures
            started == self@.started,
    {
        self.position.started
    }

    pub fn is_done(&self) -> (done: bool)
        ensures
            done == self@.done,
    {
        self.done
    }

    pub fn is_paused(&self) -> (paused: bool)
        ensures
            paused == self@.paused,
    {
        self.paused
    }

    /// The number of the current stage (counting from 1) and the number
    /// of stages: (1, 1) while the only stage runs and after it is done.
    /// (0, 0) before the item starts, and after an error.
    pub fn get_stage_progress(&self) -> (progress: (usize, usize))
        ensures
            progress == (if !self@.started || self@.errored is Some {
                (0usize, 0usize)
            } else {
                match self@.current_stage {
                    Some((index, _)) => ((index + 1) as usize, self@.numstages),
                    None => (0usize, 0usize),
                }
            }),
            progress.0 <= progress.1,
            !self@.started ==> progress == (0usize, 0usize),
            self@.errored is Some ==> progress == (0usize, 0usize),
            self@.started && self@.errored is None ==> (self@.current_stage matches Some((index, _))
                ==> progress.0 == index + 1 && progress.1 == self@.numstages),
    {
        proof {
            use_type_invariant(&self.position);
        }
        if !self.position.started || self.errored.is_some() {
            return (0, 0);
        }
        match &self.position.current {
            None => (0, 0),
            Some((index, _)) => (*index + 1, self.position.numstages),
        }
    }

    /// The name of the stage that runs (or ran last): its `Debug` name,
    /// or its index where it has none; empty before the first stage.
    pub fn get_stage_name(&self) -> (name: String)
        ensures
            name@ == match self@.current_stage {
                Some((index, name)) => stage_label(index, name),
                None => Seq::<char>::empty(),
            },
    {
        match &self.position.current {
            None => String::new(),
            Some((index, name)) => match name {
                Some(n) => n.clone(),
                None => decimal_string(*index),
            },
        }
    }

    /// Keeps the item from running its next stage once the current one
    /// ends. A running stage itself cannot be stopped.
    pub fn pause(&mut self)
        ensures
            final(self)@ == (ItemModel { paused: true, ..old(self)@ }),
    {
        self.paused = true;
    }

    /// Lifts a pause. Where a stage ended while the item was paused, the
    /// stage it would have run next is handed back: the runner runs it
    /// with `do_stage`.
    pub fn resume(&mut self) -> (next: Option<usize>)
        ensures
            (final(self)@, next) == resume_step(old(self)@),
    {
        if !self.paused {
            return None;
        }
        if self.processing_stage {
            self.paused = false;
            return None;
        }
        let mut pending = VecDeque::new();
        std::mem::swap(&mut pending, &mut self.pause_resume);
        let next = pending.pop_front();
        self.pause_resume = pending;
        self.paused = false;
        next
    }

    /// Pauses a running item, resumes a paused one.
    pub fn toggle_pause(&mut self) -> (next: Option<usize>)
        ensures
            old(self)@.paused ==> (final(self)@, next) == resume_step(old(self)@),
            !old(self)@.paused ==> final(self)@ == (ItemModel { paused: true, ..old(self)@ })
                && next is None,
    {
        if self.paused {
            self.resume()
        } else {
            self.pause();
            None
        }
    }

    /// Adds a stage to the end of the queue; once the item has started,
    /// stages can no longer be added and the call does nothing.
    pub fn register_stage(&mut self, stage: Stage<T>)
        ensures
            final(self)@ == if old(self)@.started {
                old(self)@
            } else {
                ItemModel { stages: old(self)@.stages.push(stage@), ..old(self)@ }
            },
            !old(self)@.started ==> final(self)@.stages.len() == old(self)@.stages.len() + 1
                && final(self)@.stages[old(self)@.stages.len() as int] == stage@
                && final(self)@.stages.subrange(0, old(self)@.stages.len() as int)
                =~= old(self)@.stages,
    {
        if !self.position.started {
            let ghost model = stage@;
            self.stages.push_back(stage);
            assert(self@.stages =~= old(self)@.stages.push(model));
        }
    }

    /// Starts the item: the first call fixes the number of stages and
    /// moves to stage 0; later calls do nothing.
    pub fn start(&mut self) -> (action: StageAction<T>)
        ensures
            (final(self)@, action@) == start_step(old(self)@),
    {
        proof {
            use_type_invariant(&self.position);
        }
        if self.position.started {
            return StageAction::Idle;
        }
        self.position = StagePosition { started: true, numstages: self.stages.len(), current: None };
        assert(self@ == (ItemModel { started: true, numstages: old(self)@.stages.len() as usize, ..old(self)@ }));
        self.do_stage(0)
    }

    /// Moves to stage `stage_index` (see `do_stage_step`).
    pub fn do_stage(&mut self, stage_index: usize) -> (action: StageAction<T>)
        ensures
            (final(self)@, action@) == do_stage_step(old(self)@, stage_index),
    {
        proof {
            use_type_invariant(&self.position);
        }
        if stage_index >= self.position.numstages {
            self.done = true;
            return StageAction::Idle;
        }
        let max_lock_attempts = self.max_lock_attempts;
        let lock_attempt_wait = self.lock_attempt_wait;
        let ghost m = self@;

        if let Some((index, name)) = &self.position.current {
            let past_stage_name = match name {
                Some(n) => n.clone(),
                None => decimal_string(*index),
            };
            self.past_stage_names.push(past_stage_name);
        }
        assert(self@.past_stage_names =~= archived_names(m));

        if let Some(stage) = self.stages.pop_front() {
            assert(self@.stages =~= m.stages.drop_first());
            let (name, task) = stage.into_parts();
            if let Some(task) = task {
                self.position = StagePosition {
                    started: self.position.started,
                    numstages: self.position.numstages,
                    current: Some((stage_index, name)),
                };
                self.progress = ProgressCompute::new();
                self.processing_stage = true;
                return StageAction::Run {
                    stage_index,
                    task,
                    max_lock_attempts,
                    lock_attempt_wait,
                };
            }
        }
        StageAction::Fail {
            stage_index,
            error_string: "Failed to run stage".to_owned(),
            max_lock_attempts,
            lock_attempt_wait,
        }
    }

    /// Sets the progress of the current stage, in ticks (clamped to 100%).
    pub fn set_progress(&mut self, new_progress: u32)
        ensures
            final(self)@ == (ItemModel { progress: clamp_ticks(new_progress), ..old(self)@ }),
            new_progress <= 100_000 ==> final(self)@.progress == new_progress,
            new_progress > 100_000 ==> final(self)@.progress == 100_000,
    {
        let mut progress = ProgressCompute::new();
        std::mem::swap(&mut progress, &mut self.progress);
        progress.set_progress(new_progress);
        self.progress = progress;
    }

    /// Raises the progress of the current stage, in ticks; never lowers it.
    pub fn inc_progress(&mut self, new_progress: u32)
        ensures
            final(self)@ == (ItemModel {
                progress: if new_progress > old(self)@.progress {
                    clamp_ticks(new_progress)
                } else {
                    old(self)@.progress
                },
                ..old(self)@
            }),
            old(self)@.progress <= 100_000 ==> final(self)@.progress == if new_progress <= old(
                self,
            )@.progress {
                old(self)@.progress
            } else if new_progress <= 100_000 {
                new_progress
            } else {
                100_000
            },
    {
        let mut progress = ProgressCompute::new();
        std::mem::swap(&mut progress, &mut self.progress);
        progress.inc_progress(new_progress);
        self.progress = progress;
    }

    /// The progress of the current stage, in ticks.
    pub fn get_progress(&self) -> (ticks: u32)
        ensures
            ticks == self@.progress,
            ticks <= crate::progress_compute::MAX_PROGRESS_TICKS,
    {
        self.progress.get_progress()
    }

    /// Removes the variable named `key` and hands it back, if there is one.
    pub fn extract_var(&mut self, key: &str) -> (value: Option<V>)
        ensures
            final(self)@ == (ItemModel { vars: old(self)@.vars.remove(key@), ..old(self)@ }),
            match value {
                Some(v) => old(self)@.vars.contains_key(key@) && v == old(self)@.vars[key@],
                None => !old(self)@.vars.contains_key(key@),
            },
    {
        let mut vars = ProgressVars::new();
        std::mem::swap(&mut vars, &mut self.vars);
        let value = vars.extract_var(key);
        self.vars = vars;
        value
    }

    /// Stores `boxed` under the name `key`, replacing what was there.
    pub fn insert_var(&mut self, key: &str, boxed: V)
        ensures
            final(self)@ == (ItemModel { vars: old(self)@.vars.insert(key@, boxed), ..old(self)@ }),
    {
        let mut vars = ProgressVars::new();
        std::mem::swap(&mut vars, &mut self.vars);
        vars.insert_var(key, boxed);
        self.vars = vars;
    }

    /// Whether a variable named `key` is stored.
    pub fn var_exists(&self, key: &str) -> (exists: bool)
        ensures
            exists == self@.vars.contains_key(key@),
    {
        self.vars.var_exists(key)
    }

    /// Takes out every variable, leaving none behind.
    pub fn drain_vars(&mut self) -> (drained: Vec<(String, V)>)
        ensures
            final(self)@ == (ItemModel { vars: Map::empty(), ..old(self)@ }),
            entries_map(drained@) == old(self)@.vars,
            crate::progress_vars::distinct_names(drained@),
    {
        let mut vars = ProgressVars::new();
        std::mem::swap(&mut vars, &mut self.vars);
        let drained = vars.drain_vars();
        self.vars = vars;
        drained
    }

    /// Calls `ok_cb` with the variable named `key`, if there is one.
    pub fn peak_var<F: FnMut(&V)>(&self, key: &str, ok_cb: F)
        requires
            self@.vars.contains_key(key@) ==> call_requires(ok_cb, (&self@.vars[key@],)),
        ensures
            self@.vars.contains_key(key@) ==> call_ensures(ok_cb, (&self@.vars[key@],), ()),
    {
        self.vars.peak_var(key, ok_cb)
    }

    /// A clone of the variable named `key`, if there is one.
    pub fn clone_var(&self, key: &str) -> (value: Option<V>) where V: Clone
        ensures
            value is Some <==> self@.vars.contains_key(key@),
            value matches Some(v) ==> cloned(self@.vars[key@], v),
    {
        self.vars.clone_var(key)
    }
}


impl<T, V> Default for ProgressItem<T, V> {
    fn default() -> (item: Self)
        ensures
            item@ == initial_item::<T, V>(),
    {
        ProgressItem::new()
    }
}

/// The view of optional variables.
pub open spec fn opt_vars<V>(vars: Option<ProgressVars<V>>) -> Option<Map<Seq<char>, V>> {
    match vars {
        Some(v) => Some(v@),
        None => None,
    }
}

proof fn lemma_merge_one_more<V>(base: Map<Seq<char>, V>, entries: Seq<(String, V)>, i: int)
    requires
        0 <= i < entries.len(),
    ensures
        base.union_prefer_right(entries_map(entries.take(i + 1))) == base.union_prefer_right(
            entries_map(entries.take(i)),
        ).insert(entries[i].0@, entries[i].1),
{
    assert(entries.take(i + 1).drop_last() =~= entries.take(i));
    assert(entries.take(i + 1).last() == entries[i]);
    assert(base.union_prefer_right(entries_map(entries.take(i + 1))) =~= base.union_prefer_right(
        entries_map(entries.take(i)),
    ).insert(entries[i].0@, entries[i].1));
}

/// A stage ended well, with `vars_option` for the stages after it: they
/// are merged into the item's variables, and the next stage is run, or
/// kept for `resume` if the item is paused.
pub fn me_do_next_stage<T, V>(
    me: &mut ProgressItem<T, V>,
    stage_index: usize,
    vars_option: Option<ProgressVars<V>>,
) -> (action: StageAction<T>)
    ensures
        (final(me)@, action@) == next_stage_step(old(me)@, stage_index, opt_vars(vars_option)),
{
    let ghost start = me@;
    if let Some(mut vars) = vars_option {
        let mut drained = vars.drain_vars();
        let ghost entries = drained@;
        let mut taken: usize = 0;
        assert(entries.len() == drained.len());
        assert(entries.take(0) =~= Seq::<(String, V)>::empty());
        assert(start.vars.union_prefer_right(entries_map(entries.take(0))) =~= start.vars);
        while drained.len() > 0
            invariant
                taken <= entries.len(),
                entries.len() <= usize::MAX,
                drained@ == entries.skip(taken as int),
                me@ == (ItemModel {
                    vars: start.vars.union_prefer_right(entries_map(entries.take(taken as int))),
                    ..start
                }),
            decreases drained@.len(),
        {
            let (key, value) = drained.remove(0);
            assert(entries[taken as int] == (key, value));
            proof {
                lemma_merge_one_more(start.vars, entries, taken as int);
            }
            me.insert_var(key.as_str(), value);
            assert(drained@ =~= entries.skip(taken + 1));
            taken = taken + 1;
        }
        assert(entries.take(taken as int) =~= entries);
    }
    me.processing_stage = false;
    let next = if stage_index < usize::MAX {
        stage_index + 1
    } else {
        usize::MAX
    };
    if !me.paused {
        me.do_stage(next)
    } else {
        let mut pending = VecDeque::new();
        std::mem::swap(&mut pending, &mut me.pause_resume);
        pending.push_back(next);
        me.pause_resume = pending;
        StageAction::Idle
    }
}

/// A stage ended with `error_string`: the item records the error, with the
/// index of the stage and the name of the stage that ran last.
pub fn me_set_error<T, V>(me: &mut ProgressItem<T, V>, stage_index: usize, error_string: String)
    ensures
        final(me)@ == error_step(old(me)@, stage_index, error_string@),
{
    me.processing_stage = false;
    let name = match &me.position.current {
        None => None,
        Some((_, name)) => copy_opt_text(name),
    };
    me.errored = Some(ProgressError { name, progress_index: stage_index, error_string });
}

/// The task of stage `stage_index` ended with `task_result`: on success the
/// item goes on to the next stage, on error it records the error and stops.
pub fn handle_end_of_stage<T, V>(
    me: &mut ProgressItem<T, V>,
    stage_index: usize,
    task_result: TaskResult<V>,
) -> (action: StageAction<T>)
    ensures
        match task_result {
            Ok(vars) => (final(me)@, action@) == next_stage_step(
                old(me)@,
                stage_index,
                opt_vars(vars),
            ),
            Err(error_string) => final(me)@ == error_step(old(me)@, stage_index, error_string@)
                && action is Idle,
        },
{
    match task_result {
        Ok(vars_option) => me_do_next_stage(me, stage_index, vars_option),
        Err(error_string) => {
            me_set_error(me, stage_index, error_string);
            StageAction::Idle
        },
    }
}


/// A snapshot of one stage of a progress item, for showing it.
/// Progress is in ticks: `MAX_PROGRESS_TICKS` is 100%.
pub struct StageView {
    pub progress_ticks: u32,
    pub name: String,
    pub index: usize,
    pub errored: Option<ProgressError>,
    pub currently_processing: bool,
}

/// What a stage snapshot is seen as.
pub struct StageViewModel {
    pub progress_ticks: u32,
    pub name: Seq<char>,
    pub index: usize,
    pub errored: Option<ErrorModel>,
    pub currently_processing: bool,
}

impl View for StageView {
    type V = StageViewModel;

    open spec fn view(&self) -> StageViewModel {
        StageViewModel {
            progress_ticks: self.progress_ticks,
            name: self.name@,
            index: self.index,
            errored: opt_error(self.errored),
            currently_processing: self.currently_processing,
        }
    }
}

/// No stage is left to run and none is running: the current stage is over too.
pub open spec fn all_stages_over<T, V>(m: ItemModel<T, V>) -> bool {
    m.stages.len() == 0 && !m.processing_stage
}

/// The name of the stage that runs or ran last; empty before the first.
pub open spec fn current_stage_name<T, V>(m: ItemModel<T, V>) -> Seq<char> {
    match m.current_stage {
        Some((index, name)) => stage_label(index, name),
        None => Seq::empty(),
    }
}

/// How many snapshots an item gives: its past stages, the current one, and,
/// unless all stages are over, the stages still to run.
pub open spec fn stage_view_count<T, V>(m: ItemModel<T, V>) -> nat {
    m.past_stage_names.len() + 1 + if all_stages_over(m) {
        0
    } else {
        m.stages.len()
    }
}

/// The `i`-th snapshot: past stages are at 100%, the current stage shows
/// the item's progress (100% once all stages are over), its error and
/// whether it runs; stages still to run are at 0%, named by their name or
/// their position among the snapshots.
pub open spec fn stage_view_at<T, V>(m: ItemModel<T, V>, i: int) -> StageViewModel {
    let past = m.past_stage_names.len() as int;
    if i < past {
        StageViewModel {
            progress_ticks: MAX_PROGRESS_TICKS,
            name: m.past_stage_names[i],
            index: i as usize,
            errored: None,
            currently_processing: false,
        }
    } else if i == past {
        StageViewModel {
            progress_ticks: if all_stages_over(m) {
                MAX_PROGRESS_TICKS
            } else {
                m.progress
            },
            name: current_stage_name(m),
            index: i as usize,
            errored: m.errored,
            currently_processing: m.processing_stage,
        }
    } else {
        StageViewModel {
            progress_ticks: 0,
            name: stage_label(i as usize, m.stages[i - past - 1].name),
            index: i as usize,
            errored: None,
            currently_processing: false,
        }
    }
}

impl<T, V> ProgressItem<T, V> {
    /// How many stages are over, and how many are still queued.
    pub fn stage_counts(&self) -> (counts: (usize, usize))
        ensures
            counts.0 == self@.past_stage_names.len(),
            counts.1 == self@.stages.len(),
    {
        (self.past_stage_names.len(), self.stages.len())
    }

    /// Snapshots of all stages: the past ones, the current one, and those
    /// still to run.
    pub fn stage_views(&self) -> (views: Vec<StageView>)
        requires
            self@.past_stage_names.len() + self@.stages.len() < usize::MAX,
        ensures
            views@.len() == stage_view_count(self@),
            forall|i: int| 0 <= i < views@.len() ==> (#[trigger] views@[i])@ == stage_view_at(self@, i),
    {
        let ghost m = self@;
        let mut views: Vec<StageView> = Vec::new();
        let past_len = self.past_stage_names.len();
        let mut i: usize = 0;
        while i < past_len
            invariant
                m == self@,
                past_len == m.past_stage_names.len(),
                i <= past_len,
                views@.len() == i,
                forall|j: int| 0 <= j < i ==> (#[trigger] views@[j])@ == stage_view_at(m, j),
            decreases past_len - i,
        {
            views.push(StageView {
                progress_ticks: MAX_PROGRESS_TICKS,
                name: self.past_stage_names[i].clone(),
                index: i,
                errored: None,
                currently_processing: false,
            });
            i = i + 1;
        }
        let over = self.stages.len() == 0 && !self.processing_stage;
        let errored = match &self.errored {
            Some(e) => Some(e.clone()),
            None => None,
        };
        views.push(StageView {
            progress_ticks: if over {
                MAX_PROGRESS_TICKS
            } else {
                self.progress.get_progress()
            },
            name: self.get_stage_name(),
            index: past_len,
            errored,
            currently_processing: self.processing_stage,
        });
        if !over {
            let stages_len = self.stages.len();
            let mut k: usize = 0;
            while k < stages_len
                invariant
                    m == self@,
                    past_len == m.past_stage_names.len(),
                    stages_len == m.stages.len(),
                    past_len + stages_len < usize::MAX,
                    !all_stages_over(m),
                    k <= stages_len,
                    views@.len() == past_len + 1 + k,
                    forall|j: int| 0 <= j < views@.len() ==> (#[trigger] views@[j])@ == stage_view_at(m, j),
                decreases stages_len - k,
            {
                let index = past_len + 1 + k;
                let name = match self.stages[k].copy_name() {
                    Some(n) => n.clone(),
                    None => decimal_string(index),
                };
                assert(m.stages[k as int] == self.stages@[k as int]@);
                views.push(StageView {
                    progress_ticks: 0,
                    name,
                    index,
                    errored: None,
                    currently_processing: false,
                });
                k = k + 1;
            }
        }
        views
    }
}

} // verus!
