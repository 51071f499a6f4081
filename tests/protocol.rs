use linsplit::commands::{CommandError, CommandResult, Event, EventError, Response, State};
use linsplit::protocol::{Delivery, Frame, Inbox, ReplyStatus};

#[test]
fn event_in_flight_is_queued_not_taken_as_reply() {
    let mut inbox = Inbox::new();
    assert_eq!(inbox.route(Frame::Event(Event::Splitted)), Delivery::ToEvents);
    assert_eq!(inbox.poll_reply(false), ReplyStatus::Pending);
    assert_eq!(inbox.take_reply(), None);
    assert_eq!(inbox.route(Frame::Reply(CommandResult::Success(Response::Empty))), Delivery::ToReplies);
    assert_eq!(inbox.poll_reply(false), ReplyStatus::Ready(CommandResult::Success(Response::Empty)));
    assert_eq!(inbox.take_event(), Some(Event::Splitted));
    assert_eq!(inbox.take_event(), None);
}

#[test]
fn malformed_frame_is_dropped_and_fails() {
    let mut inbox = Inbox::new();
    assert_eq!(inbox.route(Frame::Malformed), Delivery::Dropped);
    assert_eq!(inbox.poll_reply(true), ReplyStatus::Failed);
    assert_eq!(inbox.take_reply(), None);
    assert_eq!(inbox.take_event(), None);
}

#[test]
fn classification_by_shape() {
    let reply = CommandResult::Error(CommandError::Timer { code: EventError::Busy });
    assert_eq!(Frame::classify(Some(reply.clone()), None), Frame::Reply(reply.clone()));
    assert_eq!(Frame::classify(None, Some(Event::Reset)), Frame::Event(Event::Reset));
    assert_eq!(Frame::classify(None, None), Frame::Malformed);
    let state = CommandResult::Success(Response::State(State::Running(2)));
    assert_eq!(Frame::classify(Some(state.clone()), Some(Event::Unknown)), Frame::Reply(state));
}

#[test]
fn queues_keep_arrival_order() {
    let mut inbox = Inbox::new();
    inbox.route(Frame::Event(Event::Started));
    inbox.route(Frame::Reply(CommandResult::Success(Response::String("a".to_string()))));
    inbox.route(Frame::Event(Event::Finished));
    inbox.route(Frame::Reply(CommandResult::Error(CommandError::InvalidIndex)));
    assert_eq!(inbox.take_event(), Some(Event::Started));
    assert_eq!(inbox.take_event(), Some(Event::Finished));
    assert_eq!(inbox.take_reply(), Some(CommandResult::Success(Response::String("a".to_string()))));
    assert_eq!(inbox.take_reply(), Some(CommandResult::Error(CommandError::InvalidIndex)));
}

#[test]
fn queued_reply_wins_over_failure() {
    let mut inbox = Inbox::new();
    inbox.route(Frame::Reply(CommandResult::Error(CommandError::InvalidIndex)));
    assert_eq!(inbox.poll_reply(true), ReplyStatus::Ready(CommandResult::Error(CommandError::InvalidIndex)));
    assert_eq!(inbox.poll_reply(true), ReplyStatus::Failed);
}

#[test]
fn several_events_before_reply_are_all_queued() {
    let mut inbox = Inbox::new();
    for ev in [Event::Splitted, Event::GameTimeSet, Event::Unknown] {
        assert_eq!(inbox.route(Frame::Event(ev)), Delivery::ToEvents);
        assert_eq!(inbox.poll_reply(false), ReplyStatus::Pending);
    }
    inbox.route(Frame::Reply(CommandResult::Success(Response::Empty)));
    assert_eq!(inbox.poll_reply(false), ReplyStatus::Ready(CommandResult::Success(Response::Empty)));
    assert_eq!(inbox.take_event(), Some(Event::Splitted));
    assert_eq!(inbox.take_event(), Some(Event::GameTimeSet));
    assert_eq!(inbox.take_event(), Some(Event::Unknown));
    assert_eq!(inbox.take_event(), None);
}
