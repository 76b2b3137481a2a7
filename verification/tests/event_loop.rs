use kbot::gateway::Directive;
use kbot::gateway::GatewayError;
use kbot::gateway::GatewayEvent;
use kbot::gateway::Message;
use kbot::gateway::run_event_loop;
use kbot::gateway::step;

#[test]
fn step_continues_on_events_and_plain_errors() {
    assert!(matches!(step(&Ok(GatewayEvent::Other)), Directive::Continue));
    assert!(matches!(
        step(&Ok(GatewayEvent::MessageCreate(Message { channel_id: 9 }))),
        Directive::Continue
    ));
    assert!(matches!(
        step(&Err(GatewayError::Other("transient".to_string()))),
        Directive::Continue
    ));
}

#[test]
fn step_stops_only_on_close() {
    assert!(matches!(
        step(&Err(GatewayError::Closed(Some(1000), "bye".to_string()))),
        Directive::Stop
    ));
}

#[test]
fn loop_stops_at_first_close() {
    let outcomes = vec![
        Ok(GatewayEvent::Other),
        Err(GatewayError::Other("transient".to_string())),
        Ok(GatewayEvent::MessageCreate(Message { channel_id: 1 })),
        Err(GatewayError::Closed(Some(4000), "bye".to_string())),
        Ok(GatewayEvent::Other),
    ];
    let report = run_event_loop(&outcomes);
    assert!(report.closed);
    assert_eq!(report.processed, 4);
    assert_eq!(report.actions_invoked, 0);
}

#[test]
fn loop_survives_arbitrary_non_close_outcomes() {
    let mut outcomes = Vec::new();
    for i in 0..100u64 {
        match i % 3 {
            0 => outcomes.push(Ok(GatewayEvent::MessageCreate(Message { channel_id: i }))),
            1 => outcomes.push(Ok(GatewayEvent::Other)),
            _ => outcomes.push(Err(GatewayError::Other(format!("error {}", i)))),
        }
    }
    let report = run_event_loop(&outcomes);
    assert!(!report.closed);
    assert_eq!(report.processed, 100);
    assert_eq!(report.actions_invoked, 0);
}

#[test]
fn loop_over_empty_input_processes_nothing() {
    let report = run_event_loop(&Vec::new());
    assert!(!report.closed);
    assert_eq!(report.processed, 0);
    assert_eq!(report.actions_invoked, 0);
}

#[test]
fn close_without_code_stops_immediately() {
    let outcomes = vec![Err(GatewayError::Closed(None, String::new()))];
    let report = run_event_loop(&outcomes);
    assert!(report.closed);
    assert_eq!(report.processed, 1);
    assert_eq!(report.actions_invoked, 0);
}
