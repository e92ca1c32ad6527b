use cbar::error::LuaError;
use cbar::luaapi::worker::{join, join_step, terminal, Join, JoinError, Outbound, WorkerEvent};

fn boom() -> LuaError {
    LuaError::RuntimeError("[string \"worker\"]:1: boom".to_string())
}

#[test]
fn join_step_passes_over_values() {
    assert_eq!(join_step(Some(WorkerEvent::UserData(1))), Join::Pending);
    assert_eq!(join_step(Some(WorkerEvent::<i32>::Done)), Join::Finished);
    assert_eq!(
        join_step(Some(WorkerEvent::<i32>::Error(boom()))),
        Join::Failed(JoinError::Script(boom()))
    );
    assert_eq!(join_step::<i32>(None), Join::Failed(JoinError::Disconnected));
}

#[test]
fn join_succeeds_on_done() {
    assert_eq!(join(vec![WorkerEvent::<i32>::Done]), Ok(()));
    assert_eq!(
        join(vec![WorkerEvent::UserData(1), WorkerEvent::UserData(2), WorkerEvent::Done]),
        Ok(())
    );
}

#[test]
fn join_propagates_the_script_error() {
    let result = join(vec![WorkerEvent::UserData(1), WorkerEvent::Error(boom())]);
    assert_eq!(result, Err(JoinError::Script(boom())));
    match result {
        Err(JoinError::Script(error)) => {
            assert!(cbar::error::format_lua_error(&error).contains("boom"))
        }
        other => panic!("expected the script's error, got {:?}", other),
    }
}

#[test]
fn join_without_last_message_is_a_disconnect() {
    assert_eq!(join(Vec::<WorkerEvent<i32>>::new()), Err(JoinError::Disconnected));
    assert_eq!(
        join(vec![WorkerEvent::UserData(1), WorkerEvent::UserData(2)]),
        Err(JoinError::Disconnected)
    );
}

#[test]
fn terminal_message_follows_the_script() {
    assert_eq!(terminal::<i32>(Ok(())), WorkerEvent::Done);
    assert_eq!(terminal::<i32>(Err(boom())), WorkerEvent::Error(boom()));
}

#[test]
fn outbound_lets_values_through_until_the_last_message() {
    let mut out = Outbound::new();
    assert!(!out.closed());
    assert_eq!(out.emit(1), Some(WorkerEvent::UserData(1)));
    assert_eq!(out.emit(2), Some(WorkerEvent::UserData(2)));
    assert!(!out.closed());
    assert_eq!(out.finish(Ok(())), Some(WorkerEvent::Done));
    assert!(out.closed());
    assert_eq!(out.emit(3), None);
    assert_eq!(out.finish(Err(boom())), None);
    assert_eq!(out.finish(Ok(())), None);
    assert!(out.closed());
}

#[test]
fn outbound_sends_one_error_and_nothing_after() {
    let mut out = Outbound::<i32>::new();
    assert_eq!(out.finish(Err(boom())), Some(WorkerEvent::Error(boom())));
    assert!(out.closed());
    assert_eq!(out.emit(1), None);
    assert_eq!(out.finish(Ok(())), None);
}

#[test]
fn what_outbound_lets_through_can_be_joined() {
    let mut out = Outbound::new();
    let mut sent = Vec::new();
    for value in 0..5 {
        sent.extend(out.emit(value));
    }
    sent.extend(out.finish(Ok(())));
    sent.extend(out.emit(9));
    assert_eq!(sent.len(), 6);
    assert_eq!(join(sent), Ok(()));
}
