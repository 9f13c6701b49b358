use buck2_logic::commands::{
    should_stop_reading, HydrationCommand, HydrationPageOutCommand, LogValue, SetLogFilterCommand,
    SetLogFilterRequest, SystemTimeError, Timestamp, WhatUpAction, WhatUpCommand,
};

fn ts(secs: i64, nanos: u32) -> Timestamp {
    Timestamp { secs, nanos }
}

#[test]
fn set_log_filter_request() {
    let cmd = SetLogFilterCommand { log_filter: "debug".to_owned(), no_daemon: true, no_forkserver: false };
    assert_eq!(
        cmd.request(),
        SetLogFilterRequest { log_filter: "debug".to_owned(), daemon: false, forkserver: true }
    );
}

#[test]
fn hydration_runs_page_out() {
    assert_eq!(HydrationCommand::PageOut(HydrationPageOutCommand {}).exec(), HydrationPageOutCommand {});
    assert!(HydrationPageOutCommand::existing_only());
}

#[test]
fn stop_reading_after_cutoff() {
    let first = ts(100, 0);
    assert_eq!(should_stop_reading(1_000_000_000, ts(101, 0), first), Ok(false));
    assert_eq!(should_stop_reading(1_000_000_000, ts(101, 1), first), Ok(true));
    assert_eq!(should_stop_reading(0, first, first), Ok(false));
}

#[test]
fn event_before_first_is_an_error() {
    assert_eq!(
        should_stop_reading(5, ts(99, 999_999_000), ts(100, 0)),
        Err(SystemTimeError { behind_nanos: 1_000 })
    );
    assert_eq!(
        should_stop_reading(5, ts(-2, 500), ts(1, 0)),
        Err(SystemTimeError { behind_nanos: 2_999_999_500 })
    );
}

#[test]
fn what_up_without_cutoff_observes_all_events() {
    let mut reader = WhatUpCommand { after: None }.reader();
    assert_eq!(reader.step(LogValue::Event(ts(5, 0))), WhatUpAction::Observe);
    assert_eq!(reader.step(LogValue::Event(ts(500, 0))), WhatUpAction::Observe);
    assert_eq!(reader.step(LogValue::PartialResult), WhatUpAction::Skip);
    assert_eq!(reader.step(LogValue::Result), WhatUpAction::FinishWithResult);
    assert_eq!(reader.first_timestamp, None);
}

#[test]
fn what_up_stops_after_cutoff() {
    let mut reader = WhatUpCommand { after: Some(1500) }.reader();
    assert_eq!(reader.cutoff_nanos, Some(1_500_000_000));
    assert_eq!(reader.step(LogValue::Event(ts(10, 0))), WhatUpAction::Observe);
    assert_eq!(reader.first_timestamp, Some(ts(10, 0)));
    assert_eq!(reader.step(LogValue::Event(ts(11, 500_000_000))), WhatUpAction::Observe);
    assert_eq!(reader.step(LogValue::Event(ts(11, 500_000_001))), WhatUpAction::Stop);
    assert_eq!(
        reader.step(LogValue::Event(ts(9, 0))),
        WhatUpAction::Failed(SystemTimeError { behind_nanos: 1_000_000_000 })
    );
}

#[test]
fn set_log_filter_needs_a_running_daemon() {
    assert!(SetLogFilterCommand::existing_only());
}

#[test]
fn what_up_result_message() {
    assert_eq!(buck2_logic::commands::no_open_spans_message(), "No open spans to render when log ended");
}
