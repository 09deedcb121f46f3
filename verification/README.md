# progresslib2

Keeps track of the progress of work that runs as a queue of stages.
Each stage runs a task; within a stage the task may report a progress value
from 0 to 100% (kept as ticks, 100,000 for 100%); when a stage ends the
progress goes back to 0 and the next stage is taken off the queue. Stages can
hand named variables on to the stages after them, and an item can be paused
between stages.

Layout:

- `src/` is the verified library (Verus). A `ProgressItem` decides what
  happens next and returns a `StageAction` for its runner to perform;
  `handle_end_of_stage` reports how a task ended. `ProgressCompute` holds the
  progress ticks, `ProgressVars` the variables, `ProgressHolder` the items of
  an application. `laws.rs` states properties that span several calls.
- `app/` is the tokio runtime around it: it runs tasks, takes the lock
  around the global holder (with the retry limit the library decides), and
  offers progress as floating-point percentages.
- `tests/` holds the tests.
