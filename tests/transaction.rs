use movine::error::Error;
use movine::transaction::{TxAction, TxDriver, TxEvent};

#[test]
fn all_steps_succeed_then_commit() {
    let (mut d, first) = TxDriver::start(2);
    assert!(matches!(first, TxAction::Begin));
    assert!(matches!(d.step(TxEvent::Done), TxAction::Run(0)));
    assert!(matches!(d.step(TxEvent::Done), TxAction::Run(1)));
    assert!(matches!(d.step(TxEvent::Done), TxAction::Commit));
    assert!(matches!(d.step(TxEvent::Done), TxAction::Finish(Ok(()))));
    assert!(d.over);
}

#[test]
fn failing_up_sql_never_commits() {
    let (mut d, _) = TxDriver::start(2);
    assert!(matches!(d.step(TxEvent::Done), TxAction::Run(0)));
    match d.step(TxEvent::Failed("syntax error".to_string())) {
        TxAction::Finish(Err(Error::DatabaseError(msg))) => assert_eq!(msg, "syntax error"),
        other => panic!("expected a failed finish, got {:?}", other),
    }
    assert!(d.over);
}

#[test]
fn failing_commit_is_reported() {
    let (mut d, _) = TxDriver::start(0);
    assert!(matches!(d.step(TxEvent::Done), TxAction::Commit));
    assert!(matches!(
        d.step(TxEvent::Failed("lost".to_string())),
        TxAction::Finish(Err(Error::DatabaseError(_)))
    ));
}

#[test]
fn failing_begin_stops_at_once() {
    let (mut d, _) = TxDriver::start(2);
    assert!(matches!(
        d.step(TxEvent::Failed("down".to_string())),
        TxAction::Finish(Err(Error::DatabaseError(_)))
    ));
}
