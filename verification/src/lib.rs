pub mod holder;
pub mod item;
pub mod label;
pub mod laws;
pub mod progress_compute;
pub mod progress_vars;
pub mod stage;

pub use holder::{
    end_stage_in_holder, lock_attempts_after_failure, use_me_from_progress_holder, use_me_from_progress_holder_or_error,
    ProgressHolder, UseProgressError,
};
pub use item::{
    handle_end_of_stage, me_do_next_stage, me_set_error, ProgressItem, StageAction, StageView,
    TaskResult,
};
pub use label::decimal_string;
pub use progress_compute::{ProgressCompute, MAX_PROGRESS_TICKS, TICKS_PER_PERCENT};
pub use progress_vars::ProgressVars;
pub use stage::{ProgressError, Stage};
