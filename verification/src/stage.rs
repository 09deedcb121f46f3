use std::fmt::Debug;
use vstd::prelude::*;

use crate::label::decimal;

verus! {

/// The text of an optional string.
pub open spec fn opt_text(text: Option<String>) -> Option<Seq<char>> {
    match text {
        Some(t) => Some(t@),
        None => None,
    }
}

/// How a stage is called in views and errors: its name where it has one,
/// otherwise the decimal text of its index.
pub open spec fn stage_label(index: usize, name: Option<Seq<char>>) -> Seq<char> {
    match name {
        Some(n) => n,
        None => decimal(index as nat),
    }
}

/// The text that `Debug` prints for `value` (`format!("{:?}", value)`).
/// What that text is depends on the `Debug` impl of the value's type, so
/// nothing is claimed of it.
#[verifier::external_body]
fn debug_text<N: Debug + ?Sized>(value: &N) -> String {
    format!("{:?}", value)
}

/// What a stage is seen as: its name and the task it runs, if any.
pub struct StageModel<T> {
    pub name: Option<Seq<char>>,
    pub task: Option<T>,
}

/// A stage of a progress item: a name and the task that does its work.
/// The task is optional only so that a stage can be built in steps; a
/// progress item fails a stage that has none.
pub struct Stage<T> {
    /// The `Debug` text of the name the stage was made with.
    pub name: Option<String>,
    task: Option<T>,
}

impl<T> View for Stage<T> {
    type V = StageModel<T>;

    closed spec fn view(&self) -> StageModel<T> {
        StageModel { name: opt_text(self.name), task: self.task }
    }
}

impl<T> Stage<T> {
    /// A stage named by the `Debug` text of `name`, with no task yet.
    pub fn new<N: Debug + Send + 'static>(name: N) -> (stage: Self)
        ensures
            stage@.name is Some,
            stage@.task is None,
    {
        Stage { name: Some(debug_text(&name)), task: None }
    }

    /// The same stage, now running `future` as its task.
    pub fn set_task_from_future(self, future: T) -> (stage: Self)
        ensures
            stage@ == (StageModel { task: Some(future), ..self@ }),
    {
        let mut stage = self;
        stage.task = Some(future);
        stage
    }

    /// A stage named by the `Debug` text of `name` that runs `future`.
    pub fn make<N: Debug + Send + 'static>(name: N, future: T) -> (stage: Self)
        ensures
            stage@.name is Some,
            stage@.task == Some(future),
    {
        Stage::new(name).set_task_from_future(future)
    }

    /// A copy of the stage's name.
    pub fn copy_name(&self) -> (name: Option<String>)
        ensures
            opt_text(name) == self@.name,
    {
        copy_opt_text(&self.name)
    }

    /// The stage's name and task, taken apart.
    pub(crate) fn into_parts(self) -> (parts: (Option<String>, Option<T>))
        ensures
            opt_text(parts.0) == self@.name,
            parts.1 == self@.task,
    {
        (self.name, self.task)
    }
}

/// What an error is seen as.
pub struct ErrorModel {
    pub name: Option<Seq<char>>,
    pub progress_index: usize,
    pub error_string: Seq<char>,
}

/// The error that a stage ended with.
#[derive(Debug)]
pub struct ProgressError {
    /// The name of the stage that failed, if it has one.
    pub name: Option<String>,
    /// The index of the stage that failed.
    pub progress_index: usize,
    /// What went wrong.
    pub error_string: String,
}

impl View for ProgressError {
    type V = ErrorModel;

    open spec fn view(&self) -> ErrorModel {
        ErrorModel {
            name: opt_text(self.name),
            progress_index: self.progress_index,
            error_string: self.error_string@,
        }
    }
}

/// The view of an optional error.
pub open spec fn opt_error(error: Option<ProgressError>) -> Option<ErrorModel> {
    match error {
        Some(e) => Some(e@),
        None => None,
    }
}

/// A copy of an optional string.
pub(crate) fn copy_opt_text(text: &Option<String>) -> (copy: Option<String>)
    ensures
        opt_text(copy) == opt_text(*text),
{
    match text {
        Some(t) => Some(t.clone()),
        None => None,
    }
}

impl Clone for ProgressError {
    fn clone(&self) -> (copy: Self)
        ensures
            copy@ == self@,
    {
        ProgressError {
            name: copy_opt_text(&self.name),
            progress_index: self.progress_index,
            error_string: self.error_string.clone(),
        }
    }
}

} // verus!
