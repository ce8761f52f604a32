use panic_handler::{PanicHandler, PanicInfo};
use std::sync::{Arc, Mutex};

fn boom() -> PanicInfo {
    PanicInfo { location: Some("file.rs:10".to_string()), message: Some("boom".to_string()) }
}

fn recording(name: &'static str, log: &Arc<Mutex<Vec<String>>>) -> PanicHandler {
    let (title_log, body_log, hook_log) = (log.clone(), log.clone(), log.clone());
    PanicHandler::new()
        .set_title_func(move |_| {
            title_log.lock().unwrap().push(format!("{name} title"));
            name.to_string()
        })
        .set_body_func(move |info| {
            body_log.lock().unwrap().push(format!("{name} body"));
            info.message.clone().unwrap_or_default()
        })
        .set_call_func(move |_| hook_log.lock().unwrap().push(format!("{name} hook")))
        .build()
}

#[test]
fn only_the_handler_installed_last_runs() {
    let log = Arc::new(Mutex::new(Vec::new()));
    let mut installed: Option<PanicHandler> = None;
    assert!(installed.is_none());
    installed = Some(recording("first", &log).clone());
    assert!(installed.is_some());
    installed = Some(recording("second", &log).clone());

    let handler = installed.as_ref().unwrap();
    let report = handler.report(&boom());
    assert_eq!(report.log_line(), "second\nboom");
    assert!(handler.finish(&boom()).is_none());
    assert_eq!(*log.lock().unwrap(), vec!["second title", "second body", "second hook"]);
}

#[test]
fn a_handler_that_took_the_earlier_one_runs_it_last() {
    let log = Arc::new(Mutex::new(Vec::new()));
    let first = recording("first", &log);
    let title_log = log.clone();
    let second = PanicHandler::new_take_old(first)
        .set_title_func(move |_| {
            title_log.lock().unwrap().push("second title".to_string());
            "second".to_string()
        })
        .build();

    let report = second.report(&boom());
    assert_eq!(report.log_line(), "second\nUnhandled panic at file.rs:10:\nboom");
    let earlier = second.finish(&boom()).expect("the handler that was installed before");
    let earlier_report = earlier.report(&boom());
    assert_eq!(earlier_report.log_line(), "first\nboom");
    assert!(earlier.finish(&boom()).is_none());
    assert_eq!(
        *log.lock().unwrap(),
        vec!["second title", "first title", "first body", "first hook"]
    );
}

#[test]
fn the_formatters_run_title_first() {
    let log = Arc::new(Mutex::new(Vec::new()));
    let handler = recording("only", &log);
    handler.report(&boom());
    handler.report(&boom());
    assert_eq!(*log.lock().unwrap(), vec!["only title", "only body", "only title", "only body"]);
}
