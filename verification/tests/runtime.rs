use deno_rider::error::{Error, ErrorKind};
use deno_rider::runtime::{apply_reply, eval, start_runtime, stop_runtime};
use deno_rider::runtimes::Registry;

fn dead_instance() -> Error {
    Error { message: None, name: ErrorKind::DeadRuntimeError, value: None }
}

#[test]
fn a_started_instance_keeps_its_id() {
    let mut registry = Registry::new();
    let id = registry.insert(9);
    assert_eq!(start_runtime(&mut registry, id, None), Ok(id));
    assert_eq!(registry.get(id), Some(9));
}

#[test]
fn a_failed_bootstrap_is_an_execution_error_and_leaves_no_instance() {
    let mut registry = Registry::new();
    let other = registry.insert(8);
    let id = registry.insert(9);
    let reply = start_runtime(&mut registry, id, Some(String::from("Module not found")));
    assert_eq!(
        reply,
        Err(Error {
            message: Some(String::from("Module not found")),
            name: ErrorKind::ExecutionError,
            value: None,
        })
    );
    assert_eq!(registry.get(id), None);
    assert_eq!(registry.get(other), Some(8));
    assert_eq!(registry.insert(10), id);
}

#[test]
fn eval_passes_the_answer_on() {
    assert_eq!(eval(true, Some(Ok(String::from("2")))), Ok(String::from("2")));
    let rejection = Error {
        message: None,
        name: ErrorKind::PromiseRejection,
        value: Some(String::from("1")),
    };
    assert_eq!(eval(true, Some(Err(rejection.clone()))), Err(rejection));
}

#[test]
fn eval_on_a_closed_queue_is_a_dead_runtime_error() {
    assert_eq!(eval(false, None), Err(dead_instance()));
    assert_eq!(eval(false, Some(Ok(String::from("2")))), Err(dead_instance()));
}

#[test]
fn eval_without_an_answer_is_an_execution_error() {
    assert_eq!(
        eval(true, None),
        Err(Error { message: None, name: ErrorKind::ExecutionError, value: None })
    );
}

#[test]
fn stop_passes_the_answer_on() {
    assert_eq!(stop_runtime(true, Some(Ok(()))), Ok(()));
    assert_eq!(stop_runtime(true, Some(Err(dead_instance()))), Err(dead_instance()));
}

#[test]
fn stop_of_a_dead_instance_is_a_dead_runtime_error() {
    assert_eq!(stop_runtime(false, None), Err(dead_instance()));
    assert_eq!(stop_runtime(false, Some(Ok(()))), Err(dead_instance()));
    assert_eq!(stop_runtime(true, None), Err(dead_instance()));
}

#[test]
fn apply_reply_is_done_once_it_is_sent() {
    assert_eq!(apply_reply(true), Ok(()));
    assert_eq!(apply_reply(false), Err(dead_instance()));
}
