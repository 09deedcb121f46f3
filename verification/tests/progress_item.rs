use progresslib2::{
    decimal_string, end_stage_in_holder, handle_end_of_stage, lock_attempts_after_failure, me_do_next_stage,
    me_set_error, use_me_from_progress_holder, use_me_from_progress_holder_or_error,
    ProgressHolder, ProgressItem, ProgressVars, Stage, StageAction, StageView, TaskResult,
    UseProgressError, MAX_PROGRESS_TICKS,
};
use std::any::Any;
use std::future::Future;
use std::pin::Pin;
use std::sync::Mutex;
use std::time::Duration;

type Var = Box<dyn Any + Send>;
type TaskRes = TaskResult<Var>;
type PinBoxFuture = Pin<Box<dyn Future<Output = TaskRes> + Send>>;
type Item = ProgressItem<PinBoxFuture, Var>;

async fn download_something(secs: u64) -> TaskRes {
    delay_millis(secs * 1000).await;
    Ok(None)
}

async fn delay_millis(millis: u64) {
    tokio::time::sleep(Duration::from_millis(millis)).await;
}

async fn task_no_args() {}

fn boxed<F: Future<Output = TaskRes> + Send + 'static>(future: F) -> PinBoxFuture {
    Box::pin(future)
}

fn simple<F: Future<Output = ()> + Send + 'static>(future: F) -> PinBoxFuture {
    Box::pin(async move {
        future.await;
        Ok(None)
    })
}

fn make_simple_progress_item(wait1: u64, wait2: u64, wait3: u64) -> Item {
    let mystage1 = Stage::make("wait1", boxed(download_something(wait1)));
    let mystage2 = Stage::make("wait2", boxed(download_something(wait2)));
    let mystage3 = Stage::make("wait3", boxed(download_something(wait3)));
    let mut prog = ProgressItem::new();
    prog.register_stage(mystage1);
    prog.register_stage(mystage2);
    prog.register_stage(mystage3);
    prog
}

fn make_advanced_progress_item(names: &[&'static str]) -> Item {
    let mut prog = ProgressItem::new();
    for name in names {
        prog.register_stage(Stage::make(*name, simple(delay_millis(10))));
    }
    prog
}

fn run_index<T>(action: &StageAction<T>) -> Option<usize> {
    match action {
        StageAction::Run { stage_index, .. } => Some(*stage_index),
        _ => None,
    }
}

#[test]
fn should_auto_done_if_no_stages_provided() {
    let mut myprog: Item = ProgressItem::new();
    assert!(!myprog.is_done());
    let action = myprog.start();
    assert!(myprog.is_done());
    assert!(matches!(action, StageAction::Idle));
}

#[test]
fn can_call_start() {
    let future = download_something(3);
    let mystage = Stage::make("download_something", future);
    let mut myprogitem: ProgressItem<_, Var> = ProgressItem::new();
    myprogitem.register_stage(mystage);
    let action = myprogitem.start();
    assert_eq!(run_index(&action), Some(0));
    assert!(myprogitem.has_started());
}

#[test]
fn can_easily_create_a_stage() {
    let future = download_something(3);
    let _ = Stage::make("download_something", future);
}

#[test]
fn can_easily_create_a_stage_and_add_register_to_progress() {
    let future = download_something(3);
    let mystage = Stage::make("download_something", future);
    let mut myprogitem: ProgressItem<_, Var> = ProgressItem::new();
    myprogitem.register_stage(mystage);
}

#[test]
fn can_make_a_stage_from_enum() {
    #[derive(Debug)]
    pub enum ThisEnum {
        Download3,
        Download6,
    }
    let future3 = download_something(3);
    let future6 = download_something(6);
    let done = async {};
    let mystage3 = Stage::make(ThisEnum::Download3, boxed(future3));
    let mystage6 = Stage::make(ThisEnum::Download6, boxed(future6));
    let mystagedone = Stage::make("DONE!", simple(done));
    assert_eq!(mystage3.name.as_deref(), Some("Download3"));
    assert_eq!(mystage6.name.as_deref(), Some("Download6"));
    let mut myprogitem: Item = ProgressItem::new();
    myprogitem.register_stage(mystage3);
    myprogitem.register_stage(mystage6);
    myprogitem.register_stage(mystagedone);
}

#[test]
fn make_stage_macros_work() {
    let mystage1 = Stage::make("download_something", download_something(2));
    match mystage1.name {
        None => assert!(false),
        Some(name) => {
            let name_string = format!("{:?}", name);
            assert!(name_string.contains("download_something"));
        }
    }

    let mystage2 = Stage::make("delay_millis", simple(delay_millis(2)));
    match mystage2.name {
        None => assert!(false),
        Some(name) => {
            let name_string = format!("{:?}", name);
            assert!(name_string.contains("delay_millis"));
        }
    }

    let mystage3 = Stage::make("task_no_args", simple(task_no_args()));
    match mystage3.name {
        None => assert!(false),
        Some(name) => {
            let name_string = format!("{:?}", name);
            assert!(name_string.contains("task_no_args"));
        }
    }
}

#[test]
fn progress_can_set_and_view_vars() {
    let stage1 = Stage::make("wait1", boxed(async {
        delay_millis(10).await;
        let mut vars: ProgressVars<Var> = ProgressVars::default();
        vars.insert_var("testkey1", Box::new("testvalue"));
        vars.insert_var("testkey2", Box::new(100));
        Ok(Some(vars))
    }));
    let stage2 = Stage::make("wait2", boxed(async { Ok(None) }));
    let mut myprog: Item = ProgressItem::new();
    myprog.register_stage(stage1);
    myprog.register_stage(stage2);
    let mut myprog = myprog.set_lock_attempt_duration(0);
    let action = myprog.start();

    // stage1 has not finished yet
    assert!(!myprog.var_exists("testkey1"));
    assert!(!myprog.var_exists("testkey2"));

    let task = match action {
        StageAction::Run { stage_index: 0, task, lock_attempt_wait: 0, .. } => task,
        _ => panic!("stage 1 should run"),
    };
    let result = tokio::runtime::Runtime::new().unwrap().block_on(task);
    let action = handle_end_of_stage(&mut myprog, 0, result);
    assert_eq!(run_index(&action), Some(1));

    // what stage 2 sees
    assert!(myprog.var_exists("testkey1"));
    assert!(myprog.var_exists("testkey2"));
    let boxstr = myprog.extract_var("testkey1").unwrap();
    let boxstr = boxstr.downcast::<&str>().unwrap();
    assert_eq!(*boxstr, "testvalue");
    let boxint = myprog.extract_var("testkey2").unwrap();
    let boxint = boxint.downcast::<i32>().unwrap();
    assert_eq!(*boxint, 100);
}

#[test]
fn can_get_stage_view_vec() {
    let prog = make_advanced_progress_item(&["wait1", "wait2", "wait3", "wait4"]);
    let mut prog = prog.set_lock_attempt_duration(0);
    assert_eq!(run_index(&prog.start()), Some(0));
    prog.set_progress(75_000);
    assert_eq!(run_index(&handle_end_of_stage(&mut prog, 0, Ok(None))), Some(1));
    // somewhere in the middle of stage 2
    prog.set_progress(50_000);
    let progress_name = prog.get_stage_name();
    assert!(progress_name.contains("wait2"));
    let stage_view_vec: Vec<StageView> = prog.stage_views();
    assert_eq!(stage_view_vec.len(), 4);
    let first = &stage_view_vec[0];
    let second = &stage_view_vec[1];
    let third = &stage_view_vec[2];

    assert_eq!(first.index, 0);
    assert_eq!(first.progress_ticks, MAX_PROGRESS_TICKS);
    assert!(first.name.contains("wait1"));
    assert!(!first.currently_processing);

    assert!(second.progress_ticks > 0);
    assert!(second.progress_ticks < MAX_PROGRESS_TICKS);
    assert!(second.currently_processing);
    assert_eq!(second.index, 1);

    assert_eq!(third.progress_ticks, 0);
    assert!(third.name.contains("wait3"));
    assert_eq!(third.index, 2);
    assert!(!third.currently_processing);

    // the first three stages are done; the last one runs at 0%
    assert_eq!(run_index(&handle_end_of_stage(&mut prog, 1, Ok(None))), Some(2));
    assert_eq!(run_index(&handle_end_of_stage(&mut prog, 2, Ok(None))), Some(3));
    let stage_view_vec = prog.stage_views();
    let last = &stage_view_vec[3];
    assert_eq!(last.progress_ticks, 0);
    assert!(last.name.contains("wait4"));
    assert_eq!(last.index, 3);
    assert!(last.currently_processing);

    // once the last stage is over it counts as 100%
    assert!(matches!(handle_end_of_stage(&mut prog, 3, Ok(None)), StageAction::Idle));
    assert!(prog.is_done());
    let stage_view_vec = prog.stage_views();
    assert_eq!(stage_view_vec.len(), 4);
    let last = &stage_view_vec[3];
    assert_eq!(last.progress_ticks, MAX_PROGRESS_TICKS);
    assert!(last.name.contains("wait4"));
    assert_eq!(last.index, 3);
    assert!(!last.currently_processing);
}

#[test]
fn can_pause_progress() {
    let myprog = make_advanced_progress_item(&["wait1", "wait2"]);
    let mut myprog = myprog.set_lock_attempt_duration(0);
    assert_eq!(run_index(&myprog.start()), Some(0));

    // still on the first stage; pause it
    assert!(myprog.get_stage_name().contains("wait1"));
    myprog.pause();
    assert!(myprog.is_paused());

    // the first stage ends, but the second does not start
    assert!(matches!(handle_end_of_stage(&mut myprog, 0, Ok(None)), StageAction::Idle));
    assert!(myprog.get_stage_name().contains("wait1"));

    // resuming hands back the second stage
    let next = myprog.resume();
    assert_eq!(next, Some(1));
    assert!(!myprog.is_paused());
    assert_eq!(run_index(&myprog.do_stage(next.unwrap())), Some(1));
    assert!(myprog.get_stage_name().contains("wait2"));
}

#[test]
fn using_from_callback_works() {
    let key = String::from("key");
    let myprog = make_advanced_progress_item(&["wait1", "wait2"]);
    let myprog = myprog.set_lock_attempt_duration(0);
    let holder: Mutex<ProgressHolder<String, PinBoxFuture, Var>> =
        Mutex::new(ProgressHolder::default());
    let mut guard = holder.lock().unwrap();
    guard.progresses.insert(key.clone(), myprog);
    drop(guard);

    {
        let mut guard = holder.try_lock().ok();
        use_me_from_progress_holder(&key, guard.as_deref_mut(), |me| {
            assert_eq!(me.get_progress(), 0);
            me.set_progress(55);
        });
    }

    match holder.lock() {
        Err(_) => assert!(false),
        Ok(mut guard) => match guard.progresses.get_mut(&key) {
            None => assert!(false),
            Some(me) => assert_eq!(me.get_progress(), 55),
        },
    };
}

#[test]
fn can_update_progress_value() {
    let myprog = make_advanced_progress_item(&["wait1", "wait2"]);
    let mut myprog = myprog.set_lock_attempt_duration(0);
    let _ = myprog.start();

    // we should start at 0%
    assert_eq!(myprog.get_progress(), 0);

    // the stage reports progress; still in stage 1
    myprog.set_progress(25_000);
    assert!(myprog.get_progress() > 0);
    assert!(myprog.get_stage_name().contains("wait1"));

    // next stage, which reports progress too
    let _ = handle_end_of_stage(&mut myprog, 0, Ok(None));
    myprog.set_progress(25_000);
    assert!(myprog.get_progress() > 0);
    assert!(myprog.get_stage_name().contains("wait2"));
}

#[test]
fn should_error_if_cant_get_task_in_stage() {
    let myprog: Item = ProgressItem::new();
    let mut myprog = myprog.set_lock_attempt_duration(0);
    let mystage = Stage::new("a"); // no task here. should error
    myprog.register_stage(mystage);
    assert!(!myprog.is_done());

    let action = myprog.start();
    let (stage_index, error_string) = match action {
        StageAction::Fail { stage_index, error_string, .. } => (stage_index, error_string),
        _ => panic!("a stage without a task must fail"),
    };
    assert_eq!(stage_index, 0);
    let _ = handle_end_of_stage(&mut myprog, stage_index, Err(error_string));
    match myprog.get_progress_error() {
        None => assert!(false),
        Some(err) => {
            assert!(err.error_string.contains("Failed to run stage"));
            assert_eq!(err.progress_index, 0);
            assert_eq!(err.name, None);
        }
    }
}

#[test]
fn get_stage_name_works() {
    let myprog = make_simple_progress_item(1, 1, 1);
    let mut myprog = myprog.set_lock_attempt_duration(0);
    let _ = myprog.start();
    assert!(myprog.get_stage_name().contains("wait1"));
    let _ = handle_end_of_stage(&mut myprog, 0, Ok(None));
    assert!(myprog.get_stage_name().contains("wait2"));
    let _ = handle_end_of_stage(&mut myprog, 1, Ok(None));
    assert!(myprog.get_stage_name().contains("wait3"));
}

#[test]
fn stage_name_is_debug_text() {
    let stage: Stage<()> = Stage::new("wait1");
    assert_eq!(stage.name.as_deref(), Some("\"wait1\""));
    let stage: Stage<()> = Stage::new(42u8);
    assert_eq!(stage.name.as_deref(), Some("42"));
}

#[test]
fn unnamed_stage_is_named_by_its_index() {
    let mut prog: ProgressItem<u8, u8> = ProgressItem::new();
    assert_eq!(prog.get_stage_name(), "");
    let mut first = Stage::new("x").set_task_from_future(1u8);
    first.name = None;
    let mut second = Stage::new("y").set_task_from_future(2u8);
    second.name = None;
    prog.register_stage(first);
    prog.register_stage(second);
    let _ = prog.start();
    assert_eq!(prog.get_stage_name(), "0");
    let _ = handle_end_of_stage(&mut prog, 0, Ok(None));
    assert_eq!(prog.get_stage_name(), "1");
    let views = prog.stage_views();
    assert_eq!(views[0].name, "0");
    assert_eq!(views[1].name, "1");
}

#[test]
fn views_name_unnamed_waiting_stages_by_position() {
    let mut prog: ProgressItem<u8, u8> = ProgressItem::new();
    let mut first = Stage::new("x").set_task_from_future(1u8);
    first.name = None;
    let mut second = Stage::new("y").set_task_from_future(2u8);
    second.name = None;
    prog.register_stage(first);
    prog.register_stage(second);
    let views = prog.stage_views();
    // before start: no current stage, both stages waiting
    assert_eq!(views.len(), 3);
    assert_eq!(views[0].name, "");
    assert_eq!(views[1].name, "1");
    assert_eq!(views[2].name, "2");
    assert_eq!(views[2].index, 2);
}

#[test]
fn decimal_string_prints_numbers() {
    assert_eq!(decimal_string(0), "0");
    assert_eq!(decimal_string(7), "7");
    assert_eq!(decimal_string(10), "10");
    assert_eq!(decimal_string(12345), "12345");
    assert_eq!(decimal_string(usize::MAX), usize::MAX.to_string());
}

#[test]
fn stage_progress_counts_from_one() {
    let mut prog: ProgressItem<u8, u8> = ProgressItem::new();
    prog.register_stage(Stage::make("only", 1u8));
    assert_eq!(prog.get_stage_progress(), (0, 0));
    let _ = prog.start();
    assert_eq!(prog.get_stage_progress(), (1, 1));
    let _ = handle_end_of_stage(&mut prog, 0, Ok(None));
    assert!(prog.is_done());
    assert_eq!(prog.get_stage_progress(), (1, 1));
}

#[test]
fn stage_progress_is_zero_after_error() {
    let mut prog: ProgressItem<u8, u8> = ProgressItem::new();
    prog.register_stage(Stage::make("one", 1u8));
    prog.register_stage(Stage::make("two", 2u8));
    let _ = prog.start();
    assert_eq!(prog.get_stage_progress(), (1, 2));
    let action = handle_end_of_stage(&mut prog, 0, Err(String::from("broken")));
    assert!(matches!(action, StageAction::Idle));
    assert_eq!(prog.get_stage_progress(), (0, 0));
    let err = prog.get_progress_error().clone().unwrap();
    assert_eq!(err.error_string, "broken");
    assert_eq!(err.name.as_deref(), Some("\"one\""));
    let views = prog.stage_views();
    assert_eq!(views.len(), 2);
    assert!(views[1].name.contains("two"));
    assert!(views[0].errored.is_some());
    assert!(!views[0].currently_processing);
}

#[test]
fn register_after_start_is_ignored() {
    let mut prog: ProgressItem<u8, u8> = ProgressItem::new();
    prog.register_stage(Stage::make("one", 1u8));
    let _ = prog.start();
    prog.register_stage(Stage::make("two", 2u8));
    assert!(matches!(handle_end_of_stage(&mut prog, 0, Ok(None)), StageAction::Idle));
    assert!(prog.is_done());
}

#[test]
fn start_twice_does_nothing_more() {
    let mut prog: ProgressItem<u8, u8> = ProgressItem::new();
    prog.register_stage(Stage::make("one", 1u8));
    prog.register_stage(Stage::make("two", 2u8));
    match prog.start() {
        StageAction::Run { stage_index, task, max_lock_attempts, lock_attempt_wait } => {
            assert_eq!((stage_index, task, max_lock_attempts, lock_attempt_wait), (0, 1, 3, 1000));
        }
        _ => panic!("first stage should run"),
    }
    assert!(matches!(prog.start(), StageAction::Idle));
    assert_eq!(prog.get_stage_progress(), (1, 2));
}

#[test]
fn lock_settings_are_handed_to_the_runner() {
    let prog: ProgressItem<u8, u8> = ProgressItem::new();
    let mut prog = prog.set_max_lock_attempts(7).set_lock_attempt_duration(25);
    prog.register_stage(Stage::make("one", 9u8));
    match prog.start() {
        StageAction::Run { task, max_lock_attempts, lock_attempt_wait, .. } => {
            assert_eq!((task, max_lock_attempts, lock_attempt_wait), (9, 7, 25));
        }
        _ => panic!("first stage should run"),
    }
}

#[test]
fn toggle_pause_flips() {
    let mut prog: ProgressItem<u8, u8> = ProgressItem::new();
    assert!(!prog.is_paused());
    assert_eq!(prog.toggle_pause(), None);
    assert!(prog.is_paused());
    assert_eq!(prog.toggle_pause(), None);
    assert!(!prog.is_paused());
    assert_eq!(prog.resume(), None);
}

#[test]
fn resume_while_stage_runs_only_lifts_pause() {
    let mut prog: ProgressItem<u8, u8> = ProgressItem::new();
    prog.register_stage(Stage::make("one", 1u8));
    prog.register_stage(Stage::make("two", 2u8));
    let _ = prog.start();
    prog.pause();
    assert_eq!(prog.resume(), None);
    assert!(!prog.is_paused());
    assert_eq!(run_index(&handle_end_of_stage(&mut prog, 0, Ok(None))), Some(1));
}

#[test]
fn paused_item_keeps_next_stage() {
    let mut prog: ProgressItem<u8, u8> = ProgressItem::new();
    prog.register_stage(Stage::make("one", 1u8));
    prog.register_stage(Stage::make("two", 2u8));
    let _ = prog.start();
    prog.pause();
    let mut vars = ProgressVars::new();
    vars.insert_var("k", 5u8);
    assert!(matches!(me_do_next_stage(&mut prog, 0, Some(vars)), StageAction::Idle));
    assert_eq!(prog.clone_var("k"), Some(5));
    assert_eq!(prog.toggle_pause(), Some(1));
    match prog.do_stage(1) {
        StageAction::Run { stage_index, task, .. } => assert_eq!((stage_index, task), (1, 2)),
        _ => panic!("second stage should run"),
    }
}

#[test]
fn me_set_error_records_current_stage() {
    let mut prog: ProgressItem<u8, u8> = ProgressItem::new();
    me_set_error(&mut prog, 4, String::from("no stage yet"));
    let err = prog.get_progress_error().clone().unwrap();
    assert_eq!((err.name, err.progress_index, err.error_string.as_str()), (None, 4, "no stage yet"));

    let mut prog: ProgressItem<u8, u8> = ProgressItem::new();
    prog.register_stage(Stage::make("named", 1u8));
    let _ = prog.start();
    me_set_error(&mut prog, 0, String::from("oops"));
    let err = prog.get_progress_error().clone().unwrap();
    assert_eq!(err.name.as_deref(), Some("\"named\""));
}

#[test]
fn stage_vars_replace_older_ones() {
    let mut prog: ProgressItem<u8, u8> = ProgressItem::new();
    prog.register_stage(Stage::make("one", 1u8));
    prog.register_stage(Stage::make("two", 2u8));
    let _ = prog.start();
    prog.insert_var("a", 1);
    prog.insert_var("b", 2);
    let mut vars = ProgressVars::new();
    vars.insert_var("a", 10u8);
    vars.insert_var("c", 30u8);
    let _ = handle_end_of_stage(&mut prog, 0, Ok(Some(vars)));
    assert_eq!(prog.clone_var("a"), Some(10));
    assert_eq!(prog.clone_var("b"), Some(2));
    assert_eq!(prog.clone_var("c"), Some(30));
    let mut seen = 0;
    prog.peak_var("c", |v| seen = *v);
    assert_eq!(seen, 30);
    let mut drained = prog.drain_vars();
    drained.sort();
    assert_eq!(drained.len(), 3);
    assert!(!prog.var_exists("a"));
}

#[test]
fn item_progress_clamps_and_only_rises_with_inc() {
    let mut prog: ProgressItem<u8, u8> = ProgressItem::new();
    prog.set_progress(MAX_PROGRESS_TICKS + 5);
    assert_eq!(prog.get_progress(), MAX_PROGRESS_TICKS);
    prog.set_progress(100);
    prog.inc_progress(50);
    assert_eq!(prog.get_progress(), 100);
    prog.inc_progress(150);
    assert_eq!(prog.get_progress(), 150);
}

#[test]
fn lock_attempts_run_out() {
    assert_eq!(lock_attempts_after_failure(3), Some(2));
    assert_eq!(lock_attempts_after_failure(2), Some(1));
    assert_eq!(lock_attempts_after_failure(1), None);
    assert_eq!(lock_attempts_after_failure(0), Some(0));
}

#[test]
fn use_me_reports_lock_unavailable() {
    let mut reported = None;
    use_me_from_progress_holder_or_error::<String, u8, u8, _, _>(
        &String::from("key"),
        None,
        |_| assert!(false),
        |e| reported = Some(e),
    );
    assert_eq!(reported, Some(UseProgressError::LockUnavailable));
}

#[test]
fn use_me_reports_key_not_found() {
    let mut holder: ProgressHolder<String, u8, u8> = ProgressHolder::default();
    holder.progresses.insert(String::from("other"), ProgressItem::new());
    let mut reported = None;
    use_me_from_progress_holder_or_error(
        &String::from("key"),
        Some(&mut holder),
        |_| assert!(false),
        |e| reported = Some(e),
    );
    assert_eq!(reported, Some(UseProgressError::KeyNotFound));
    let mut found = false;
    use_me_from_progress_holder_or_error(
        &String::from("other"),
        Some(&mut holder),
        |me| found = !me.has_started(),
        |_| assert!(false),
    );
    assert!(found);
}

#[test]
fn stage_counts_follow_the_queue() {
    let mut prog: ProgressItem<u8, u8> = ProgressItem::new();
    assert_eq!(prog.stage_counts(), (0, 0));
    prog.register_stage(Stage::make("one", 1u8));
    prog.register_stage(Stage::make("two", 2u8));
    assert_eq!(prog.stage_counts(), (0, 2));
    let _ = prog.start();
    assert_eq!(prog.stage_counts(), (0, 1));
    let _ = handle_end_of_stage(&mut prog, 0, Ok(None));
    assert_eq!(prog.stage_counts(), (1, 0));
}

#[test]
fn end_stage_in_holder_changes_only_that_item() {
    let mut holder: ProgressHolder<String, u8, u8> = ProgressHolder::default();
    let mut a: ProgressItem<u8, u8> = ProgressItem::new();
    a.register_stage(Stage::make("one", 1u8));
    a.register_stage(Stage::make("two", 2u8));
    let _ = a.start();
    let mut b: ProgressItem<u8, u8> = ProgressItem::new();
    b.set_progress(7);
    holder.progresses.insert(String::from("a"), a);
    holder.progresses.insert(String::from("b"), b);

    let action = end_stage_in_holder(&String::from("a"), &mut holder, 0, Ok(None));
    match action {
        StageAction::Run { stage_index, task, .. } => assert_eq!((stage_index, task), (1, 2)),
        _ => panic!("the second stage should run"),
    }
    assert_eq!(holder.progresses.len(), 2);
    assert!(holder.progresses[&String::from("a")].get_stage_name().contains("two"));
    assert_eq!(holder.progresses[&String::from("b")].get_progress(), 7);

    let action = end_stage_in_holder(&String::from("a"), &mut holder, 1, Err(String::from("bad")));
    assert!(matches!(action, StageAction::Idle));
    assert!(holder.progresses[&String::from("a")].get_progress_error().is_some());

    let action = end_stage_in_holder(&String::from("missing"), &mut holder, 0, Ok(None));
    assert!(matches!(action, StageAction::Idle));
    assert_eq!(holder.progresses.len(), 2);
}

#[test]
fn stage_at_top_of_range_ends_item() {
    let mut prog: ProgressItem<u8, u8> = ProgressItem::new();
    prog.register_stage(Stage::make("one", 1u8));
    let _ = prog.start();
    assert!(matches!(me_do_next_stage(&mut prog, usize::MAX, None), StageAction::Idle));
    assert!(prog.is_done());

    let mut prog: ProgressItem<u8, u8> = ProgressItem::new();
    prog.pause();
    assert!(matches!(handle_end_of_stage(&mut prog, usize::MAX, Ok(None)), StageAction::Idle));
    assert_eq!(prog.resume(), Some(usize::MAX));
    assert!(matches!(prog.do_stage(usize::MAX), StageAction::Idle));
    assert!(prog.is_done());
}

#[test]
fn errored_item_does_not_restart() {
    let mut prog: ProgressItem<u8, u8> = ProgressItem::new();
    prog.register_stage(Stage::make("one", 1u8));
    prog.register_stage(Stage::make("two", 2u8));
    let _ = prog.start();
    let _ = handle_end_of_stage(&mut prog, 0, Err(String::from("bad")));
    assert!(matches!(prog.start(), StageAction::Idle));
    assert_eq!(prog.resume(), None);
    prog.pause();
    assert_eq!(prog.resume(), None);
    assert!(!prog.is_done());
    assert!(prog.get_stage_name().contains("one"));
    assert_eq!(prog.stage_counts(), (0, 1));
    assert_eq!(prog.get_progress_error().clone().unwrap().error_string, "bad");
}
