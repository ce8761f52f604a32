use panic_handler::{PanicHandler, PanicInfo, PanicReport};

fn boom() -> PanicInfo {
    PanicInfo { location: Some("file.rs:10".to_string()), message: Some("boom".to_string()) }
}

#[test]
fn report_of_the_default_handler() {
    let handler: PanicHandler = PanicHandler::new().build();
    let report = handler.report(&boom());
    assert_eq!(report.title, "Fatal Error");
    assert_eq!(report.body, "Unhandled panic at file.rs:10:\nboom");
    assert_eq!(report.log_line(), "Fatal Error\nUnhandled panic at file.rs:10:\nboom");
}

#[test]
fn report_uses_the_formatters_that_were_set() {
    let handler: PanicHandler = PanicHandler::new()
        .set_title_func(|info| format!("[{}]", info.location.clone().unwrap_or_default()))
        .set_body_func(|info| info.message.clone().unwrap_or_default().to_uppercase())
        .build();
    let report = handler.report(&boom());
    assert_eq!(report.title, "[file.rs:10]");
    assert_eq!(report.body, "BOOM");
    assert_eq!(report.log_line(), "[file.rs:10]\nBOOM");
}

#[test]
fn report_does_not_run_the_hook() {
    let handler: PanicHandler =
        PanicHandler::new().set_call_func(|_| panic!("the hook ran")).build();
    let report = handler.report(&boom());
    assert_eq!(report.title, "Fatal Error");
}

#[test]
fn log_line_is_title_line_break_body() {
    let report = PanicReport { title: "T".to_string(), body: "B".to_string() };
    assert_eq!(report.log_line(), "T\nB");
    let empty = PanicReport { title: String::new(), body: String::new() };
    assert_eq!(empty.log_line(), "\n");
    let lines = PanicReport { title: "a\nb".to_string(), body: "c\nd".to_string() };
    assert_eq!(lines.log_line(), "a\nb\nc\nd");
}

#[test]
fn from_outcomes_keeps_what_the_formatters_returned() {
    let report = PanicReport::from_outcomes(Some("T".to_string()), Some("B".to_string()));
    assert_eq!(report.title, "T");
    assert_eq!(report.body, "B");
    let empty = PanicReport::from_outcomes(Some(String::new()), Some(String::new()));
    assert_eq!(empty.title, "");
    assert_eq!(empty.body, "");
}

#[test]
fn from_outcomes_replaces_a_failed_title() {
    let report = PanicReport::from_outcomes(None, Some("B".to_string()));
    assert_eq!(report.title, "Fatal Error");
    assert_eq!(report.body, "B");
    assert_eq!(report.log_line(), "Fatal Error\nB");
}

#[test]
fn from_outcomes_replaces_a_failed_body() {
    let report = PanicReport::from_outcomes(Some("T".to_string()), None);
    assert_eq!(report.title, "T");
    assert_eq!(report.body, "Unhandled panic at Unknown Location:\nNo panic message available");
}

#[test]
fn from_outcomes_reports_when_both_formatters_failed() {
    let report = PanicReport::from_outcomes(None, None);
    assert_eq!(
        report.log_line(),
        "Fatal Error\nUnhandled panic at Unknown Location:\nNo panic message available"
    );
}
