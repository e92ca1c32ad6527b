use cbar::hyprland::error::{Error, IoError, IoErrorKind};
use cbar::hyprland::event_loop::{
    EventLoop, Polled, StreamState, DEFAULT_BACKLOG, MAX_BACKLOG,
};
use cbar::hyprland::events::Event;
use tokio::sync::broadcast::error::TryRecvError;

fn line(s: &str) -> Result<String, IoError> {
    Ok(s.to_string())
}

fn reset() -> IoError {
    IoError { kind: IoErrorKind::Other, message: "Connection reset by peer".to_string() }
}

fn workspace(name: &str) -> Event {
    Event::Workspace { name: name.to_string() }
}

#[test]
fn connect_gives_a_connected_stream() {
    assert_eq!(DEFAULT_BACKLOG, 8);
    assert_eq!(EventLoop::connect().state(), StreamState::Connected);
    assert_eq!(EventLoop::connect().backlog(), 8);
}

#[test]
fn backlog_has_to_be_possible() {
    assert!(EventLoop::with_backlog(0).is_none());
    assert!(EventLoop::with_backlog(usize::MAX).is_none());
    assert!(EventLoop::with_backlog(usize::MAX / 2 + 1).is_none());
    assert_eq!(EventLoop::with_backlog(1).unwrap().state(), StreamState::Connected);
    assert_eq!(EventLoop::with_backlog(16).unwrap().state(), StreamState::Connected);
    assert_eq!(EventLoop::with_backlog(16).unwrap().backlog(), 16);
    assert_eq!(EventLoop::with_backlog(MAX_BACKLOG).unwrap().backlog(), 65536);
    assert!(EventLoop::with_backlog(MAX_BACKLOG + 1).is_none());
}

#[test]
fn next_trims_the_line_end() {
    let mut stream = EventLoop::connect();
    assert_eq!(stream.next(line("workspace>>3\n")), Ok(workspace("3")));
    assert_eq!(stream.next(line("workspace>>3\r\n")), Ok(workspace("3")));
    assert_eq!(stream.next(line("workspace>>3 \t\n")), Ok(workspace("3")));
    assert_eq!(stream.next(line("workspace>> 3\n")), Ok(workspace(" 3")));
    assert_eq!(stream.state(), StreamState::Connected);
}

#[test]
fn next_goes_on_after_a_decode_error() {
    let mut stream = EventLoop::connect();
    assert_eq!(stream.next(line("bogus>>1\n")), Err(Error::UnknownEvent("bogus".to_string())));
    assert_eq!(stream.state(), StreamState::Connected);
    assert_eq!(stream.next(line("\n")), Err(Error::MissingSeparator));
    assert_eq!(stream.next(line("")), Err(Error::MissingSeparator));
    assert_eq!(stream.state(), StreamState::Connected);
    assert_eq!(stream.next(line("workspace>>1\n")), Ok(workspace("1")));
}

#[test]
fn next_closes_on_a_read_failure() {
    let mut stream = EventLoop::connect();
    assert_eq!(stream.next(Err(reset())), Err(Error::Io(reset())));
    assert_eq!(stream.state(), StreamState::Closed);
}

#[test]
fn a_closed_stream_refuses_to_go_on() {
    let mut stream = EventLoop::connect();
    let mut subscriber = stream.receiver();
    assert_eq!(stream.next(Err(reset())), Err(Error::Io(reset())));
    assert_eq!(stream.next(line("workspace>>1\n")), Err(Error::StreamClosed));
    assert_eq!(stream.next(Err(reset())), Err(Error::StreamClosed));
    assert_eq!(stream.run(line("workspace>>1\n")), Err(Error::StreamClosed));
    assert_eq!(stream.state(), StreamState::Closed);
    assert_eq!(subscriber.try_recv(), Err(TryRecvError::Empty));
}

#[test]
fn run_streams_and_closes_on_any_error() {
    let mut stream = EventLoop::connect();
    assert_eq!(stream.run(line("workspace>>1\n")), Ok(()));
    assert_eq!(stream.state(), StreamState::Streaming);
    assert_eq!(stream.run(line("bogus>>1\n")), Err(Error::UnknownEvent("bogus".to_string())));
    assert_eq!(stream.state(), StreamState::Closed);
    assert_eq!(stream.run(line("workspace>>1\n")), Err(Error::StreamClosed));
    assert_eq!(stream.state(), StreamState::Closed);

    let mut stream = EventLoop::connect();
    assert_eq!(stream.run(Err(reset())), Err(Error::Io(reset())));
    assert_eq!(stream.state(), StreamState::Closed);
}

#[test]
fn subscribers_see_events_in_wire_order() {
    let mut stream = EventLoop::connect();
    let mut first = stream.receiver();
    let mut second = stream.receiver();
    for name in ["1", "2", "3"] {
        assert_eq!(stream.run(line(&format!("workspace>>{}\n", name))), Ok(()));
    }
    for subscriber in [&mut first, &mut second] {
        assert_eq!(subscriber.try_recv(), Ok(workspace("1")));
        assert_eq!(subscriber.try_recv(), Ok(workspace("2")));
        assert_eq!(subscriber.try_recv(), Ok(workspace("3")));
        assert_eq!(subscriber.try_recv(), Err(TryRecvError::Empty));
    }
}

#[test]
fn late_subscriber_sees_nothing_from_before() {
    let mut stream = EventLoop::connect();
    let mut early = stream.receiver();
    assert_eq!(stream.run(line("workspace>>1\n")), Ok(()));
    let mut late = stream.receiver();
    assert_eq!(stream.run(line("workspace>>2\n")), Ok(()));
    assert_eq!(stream.run(line("workspace>>3\n")), Ok(()));
    assert_eq!(early.try_recv(), Ok(workspace("1")));
    assert_eq!(early.try_recv(), Ok(workspace("2")));
    assert_eq!(late.try_recv(), Ok(workspace("2")));
    assert_eq!(late.try_recv(), Ok(workspace("3")));
    assert_eq!(late.try_recv(), Err(TryRecvError::Empty));
    assert_eq!(early.try_recv(), Ok(workspace("3")));
}

#[test]
fn publishing_without_subscribers_is_no_error() {
    let mut stream = EventLoop::connect();
    for _ in 0..20 {
        assert_eq!(stream.run(line("workspace>>1\n")), Ok(()));
    }
    assert_eq!(stream.state(), StreamState::Streaming);
}

#[test]
fn slow_subscriber_loses_the_oldest_events_only() {
    let mut stream = EventLoop::with_backlog(2).unwrap();
    let mut slow = stream.receiver();
    let mut quick = stream.receiver();
    assert_eq!(stream.run(line("workspace>>1\n")), Ok(()));
    assert_eq!(quick.try_recv(), Ok(workspace("1")));
    assert_eq!(stream.run(line("workspace>>2\n")), Ok(()));
    assert_eq!(quick.try_recv(), Ok(workspace("2")));
    assert_eq!(stream.run(line("workspace>>3\n")), Ok(()));
    assert_eq!(quick.try_recv(), Ok(workspace("3")));
    assert_eq!(slow.try_recv(), Err(TryRecvError::Lagged(1)));
    assert_eq!(slow.try_recv(), Ok(workspace("2")));
    assert_eq!(slow.try_recv(), Ok(workspace("3")));
    assert_eq!(slow.try_recv(), Err(TryRecvError::Empty));
}

#[test]
fn undecodable_lines_are_not_published() {
    let mut stream = EventLoop::connect();
    let mut subscriber = stream.receiver();
    assert!(stream.run(line("bogus>>1\n")).is_err());
    assert_eq!(subscriber.try_recv(), Err(TryRecvError::Empty));
}

#[test]
fn polled_subscriptions_see_events_in_wire_order() {
    let mut stream = EventLoop::connect();
    let mut first = stream.receiver();
    let mut second = stream.receiver();
    assert_eq!(stream.poll(&mut first), Polled::Empty);
    for name in ["1", "2", "3"] {
        assert_eq!(stream.run(line(&format!("workspace>>{}\n", name))), Ok(()));
    }
    for subscriber in [&mut first, &mut second] {
        assert_eq!(stream.poll(subscriber), Polled::Event(workspace("1")));
        assert_eq!(stream.poll(subscriber), Polled::Event(workspace("2")));
        assert_eq!(stream.poll(subscriber), Polled::Event(workspace("3")));
        assert_eq!(stream.poll(subscriber), Polled::Empty);
        assert_eq!(stream.poll(subscriber), Polled::Empty);
    }
}

#[test]
fn polled_late_subscription_starts_after_what_was_published() {
    let mut stream = EventLoop::connect();
    assert_eq!(stream.run(line("workspace>>1\n")), Ok(()));
    let mut late = stream.receiver();
    assert_eq!(stream.poll(&mut late), Polled::Empty);
    assert_eq!(stream.run(line("workspace>>2\n")), Ok(()));
    assert_eq!(stream.run(line("workspace>>3\n")), Ok(()));
    assert_eq!(stream.poll(&mut late), Polled::Event(workspace("2")));
    assert_eq!(stream.poll(&mut late), Polled::Event(workspace("3")));
    assert_eq!(stream.poll(&mut late), Polled::Empty);
}

#[test]
fn polled_subscription_is_told_what_it_lost() {
    let mut stream = EventLoop::with_backlog(2).unwrap();
    let mut slow = stream.receiver();
    for name in ["1", "2", "3", "4", "5"] {
        assert_eq!(stream.run(line(&format!("workspace>>{}\n", name))), Ok(()));
    }
    assert_eq!(stream.poll(&mut slow), Polled::Lagged(3));
    assert_eq!(stream.poll(&mut slow), Polled::Event(workspace("4")));
    assert_eq!(stream.poll(&mut slow), Polled::Event(workspace("5")));
    assert_eq!(stream.poll(&mut slow), Polled::Empty);
}

#[test]
fn a_full_backlog_loses_nothing() {
    let mut stream = EventLoop::connect();
    let mut subscriber = stream.receiver();
    for number in 0..8 {
        assert_eq!(stream.run(line(&format!("workspace>>{}\n", number))), Ok(()));
    }
    for number in 0..8 {
        assert_eq!(stream.poll(&mut subscriber), Polled::Event(workspace(&number.to_string())));
    }
    assert_eq!(stream.poll(&mut subscriber), Polled::Empty);
}

#[test]
fn the_sender_always_has_a_subscription() {
    let mut stream = EventLoop::connect();
    for _ in 0..3 {
        assert_eq!(stream.run(line("workspace>>1\n")), Ok(()));
    }
    let mut late = stream.receiver();
    assert_eq!(stream.run(line("workspace>>2\n")), Ok(()));
    assert_eq!(stream.poll(&mut late), Polled::Event(workspace("2")));
}
