use progresslib2::ProgressVars;
use std::any::Any;

type Var = Box<dyn Any + Send>;

#[test]
fn can_use_progress_vars() {
    let mut progvars: ProgressVars<Var> = ProgressVars::default();
    let key = "key";
    progvars.insert_var(&String::from(key), Box::new(String::from("some value")));
    let boxed = progvars.extract_var(key).unwrap();
    if let Ok(x) = boxed.downcast::<String>() {
        assert_eq!(x.as_str(), "some value");
    } else {
        assert!(false);
    }
}

#[test]
fn can_peak_var() {
    let mut progvars: ProgressVars<Var> = ProgressVars::default();
    let key = "key";
    progvars.insert_var(&String::from(key), Box::new(String::from("aaaaa")));
    let mut cb_called = false;
    progvars.peak_var("key", |boxed| {
        let mystring = boxed.downcast_ref::<String>().unwrap();
        assert_eq!(mystring, "aaaaa");
        cb_called = true;
    });
    assert!(cb_called)
}

#[test]
fn can_clone_var() {
    let mut progvars: ProgressVars<String> = ProgressVars::default();
    let key = "key";
    progvars.insert_var(&String::from(key), String::from("aaaaa"));
    let mystring = progvars.clone_var("key").unwrap();
    assert_eq!(mystring, "aaaaa");
}

#[test]
fn extract_removes_the_var() {
    let mut progvars: ProgressVars<u32> = ProgressVars::new();
    progvars.insert_var("a", 1);
    assert!(progvars.var_exists("a"));
    assert_eq!(progvars.extract_var("a"), Some(1));
    assert!(!progvars.var_exists("a"));
    assert_eq!(progvars.extract_var("a"), None);
}

#[test]
fn missing_var_is_not_found() {
    let progvars: ProgressVars<u32> = ProgressVars::new();
    assert!(!progvars.var_exists("nothing"));
    assert_eq!(progvars.clone_var("nothing"), None);
    let mut called = false;
    progvars.peak_var("nothing", |_| called = true);
    assert!(!called);
}

#[test]
fn insert_replaces_previous_value() {
    let mut progvars: ProgressVars<u32> = ProgressVars::new();
    progvars.insert_var("a", 1);
    progvars.insert_var("b", 2);
    progvars.insert_var("a", 3);
    assert_eq!(progvars.clone_var("a"), Some(3));
    assert_eq!(progvars.clone_var("b"), Some(2));
    let mut drained = progvars.drain_vars();
    drained.sort();
    assert_eq!(drained, vec![(String::from("a"), 3), (String::from("b"), 2)]);
}

#[test]
fn drain_empties_the_vars() {
    let mut progvars: ProgressVars<u32> = ProgressVars::new();
    progvars.insert_var("x", 10);
    progvars.insert_var("y", 20);
    let drained = progvars.drain_vars();
    assert_eq!(drained.len(), 2);
    assert!(!progvars.var_exists("x"));
    assert!(!progvars.var_exists("y"));
    assert_eq!(progvars.drain_vars().len(), 0);
}
