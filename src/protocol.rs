use vstd::prelude::*;
use std::collections::VecDeque;
use crate::commands::{CommandResult, Event};

verus! {

/// One inbound frame, classified by its shape.
#[derive(Clone, Debug, PartialEq, Eq)]
pub enum Frame {
    /// The reply to the command in flight.
    Reply(CommandResult),
    /// A notification from the timer.
    Event(Event),
    /// A frame of neither shape.
    Malformed,
}

/// The classification of a frame from what it reads as: a reply if it has the shape of
/// one, else an event if it has the shape of one, else malformed.
pub open spec fn classify_spec(reply: Option<CommandResult>, event: Option<Event>) -> Frame {
    match reply {
        Some(r) => Frame::Reply(r),
        None => match event {
            Some(e) => Frame::Event(e),
            None => Frame::Malformed,
        },
    }
}

impl Frame {
    /// Classifies a frame by its shape; `reply` and `event` are what the frame reads
    /// as under each of the two shapes, `None` where it does not have that shape.
    pub fn classify(reply: Option<CommandResult>, event: Option<Event>) -> (r: Frame)
        ensures
            r == classify_spec(reply, event),
    {
        match reply {
            Some(r) => Frame::Reply(r),
            None => match event {
                Some(e) => Frame::Event(e),
                None => Frame::Malformed,
            },
        }
    }
}

/// Where `Inbox::route` put a frame.
#[derive(Clone, Copy, Debug, PartialEq, Eq, Structural)]
pub enum Delivery {
    /// Queued for the caller of the command in flight.
    ToReplies,
    /// Queued for the event relay.
    ToEvents,
    /// Dropped as malformed; the command in flight fails.
    Dropped,
}

/// The state of the command in flight, as `Inbox::poll_reply` finds it.
#[derive(Clone, Debug, PartialEq, Eq)]
pub enum ReplyStatus {
    /// Its reply has come.
    Ready(CommandResult),
    /// No reply has come and none can: the connection failed.
    Failed,
    /// No reply yet: wait for the listener's next signal.
    Pending,
}

/// The two queues that inbound frames are routed to: replies for the caller of the
/// command in flight, and events for the event relay, each first in, first out.
pub struct Inbox {
    replies: VecDeque<CommandResult>,
    events: VecDeque<Event>,
}

/// The queues after routing `f` into `v` (replies, events); a malformed frame is dropped.
pub open spec fn route_spec(v: (Seq<CommandResult>, Seq<Event>), f: Frame) -> (
    Seq<CommandResult>,
    Seq<Event>,
) {
    match f {
        Frame::Reply(r) => (v.0.push(r), v.1),
        Frame::Event(e) => (v.0, v.1.push(e)),
        Frame::Malformed => v,
    }
}

impl View for Inbox {
    type V = (Seq<CommandResult>, Seq<Event>);

    closed spec fn view(&self) -> (Seq<CommandResult>, Seq<Event>) {
        (self.replies@, self.events@)
    }
}

impl Inbox {
    pub fn new() -> (r: Inbox)
        ensures
            r@.0 == Seq::<CommandResult>::empty(),
            r@.1 == Seq::<Event>::empty(),
    {
        Inbox { replies: VecDeque::new(), events: VecDeque::new() }
    }

    /// Routes one inbound frame to its queue; a malformed frame is dropped.
    pub fn route(&mut self, f: Frame) -> (r: Delivery)
        ensures
            final(self)@ == route_spec(old(self)@, f),
            r == (match f {
                Frame::Reply(_) => Delivery::ToReplies,
                Frame::Event(_) => Delivery::ToEvents,
                Frame::Malformed => Delivery::Dropped,
            }),
    {
        match f {
            Frame::Reply(c) => {
                self.replies.push_back(c);
                Delivery::ToReplies
            },
            Frame::Event(e) => {
                self.events.push_back(e);
                Delivery::ToEvents
            },
            Frame::Malformed => Delivery::Dropped,
        }
    }

    /// One look at the command in flight: its reply if one is queued (taken from the
    /// queue), else failure if the connection failed, else pending.
    pub fn poll_reply(&mut self, connection_failed: bool) -> (r: ReplyStatus)
        ensures
            old(self)@.0.len() > 0 ==> r == ReplyStatus::Ready(old(self)@.0[0]) && final(self)@ == (
                old(self)@.0.drop_first(),
                old(self)@.1,
            ),
            old(self)@.0.len() == 0 ==> final(self)@ == old(self)@ && r == (if connection_failed {
                ReplyStatus::Failed
            } else {
                ReplyStatus::Pending
            }),
    {
        match self.replies.pop_front() {
            Some(c) => ReplyStatus::Ready(c),
            None => if connection_failed {
                ReplyStatus::Failed
            } else {
                ReplyStatus::Pending
            },
        }
    }

    /// Takes the oldest reply, if any.
    pub fn take_reply(&mut self) -> (r: Option<CommandResult>)
        ensures
            old(self)@.0.len() == 0 ==> r is None && final(self)@ == old(self)@,
            old(self)@.0.len() > 0 ==> r == Some(old(self)@.0[0]) && final(self)@ == (
                old(self)@.0.drop_first(),
                old(self)@.1,
            ),
    {
        self.replies.pop_front()
    }

    /// Takes the oldest event, if any.
    pub fn take_event(&mut self) -> (r: Option<Event>)
        ensures
            old(self)@.1.len() == 0 ==> r is None && final(self)@ == old(self)@,
            old(self)@.1.len() > 0 ==> r == Some(old(self)@.1[0]) && final(self)@ == (
                old(self)@.0,
                old(self)@.1.drop_first(),
            ),
    {
        self.events.pop_front()
    }
}

/// An event frame that arrives while a command is in flight goes to the event queue,
/// and the reply that the caller then takes is the oldest reply, not that event.
pub proof fn lemma_event_not_taken_as_reply(
    v: (Seq<CommandResult>, Seq<Event>),
    e: Event,
)
    ensures
        route_spec(v, Frame::Event(e)).0 == v.0,
        route_spec(v, Frame::Event(e)).1 == v.1.push(e),
{
}

/// Whatever reads as a reply is routed as a reply, and whatever reads only as an event
/// is routed as an event: a frame's shape, not its arrival time, decides its queue.
pub proof fn lemma_route_by_shape(
    v: (Seq<CommandResult>, Seq<Event>),
    reply: Option<CommandResult>,
    event: Option<Event>,
)
    ensures
        reply is None ==> (event matches Some(e) ==> route_spec(v, classify_spec(reply, event))
            == (v.0, v.1.push(e))),
        reply matches Some(c) ==> route_spec(v, classify_spec(reply, event)) == (
            v.0.push(c),
            v.1,
        ),
{
}

/// The queues after routing the frames `fs` into `v`, in order.
pub open spec fn route_all_spec(v: (Seq<CommandResult>, Seq<Event>), fs: Seq<Frame>) -> (
    Seq<CommandResult>,
    Seq<Event>,
)
    decreases fs.len(),
{
    if fs.len() == 0 {
        v
    } else {
        route_spec(route_all_spec(v, fs.drop_last()), fs.last())
    }
}

/// The event frames of the events `es`, in order.
pub open spec fn event_frames(es: Seq<Event>) -> Seq<Frame> {
    es.map_values(|e: Event| Frame::Event(e))
}

proof fn lemma_event_frames_queue(v: (Seq<CommandResult>, Seq<Event>), es: Seq<Event>)
    ensures
        route_all_spec(v, event_frames(es)) == (v.0, v.1 + es),
    decreases es.len(),
{
    if es.len() == 0 {
        assert(event_frames(es) =~= Seq::<Frame>::empty());
        assert(v.1 + es =~= v.1);
    } else {
        let init = es.drop_last();
        lemma_event_frames_queue(v, init);
        assert(event_frames(es).drop_last() =~= event_frames(init));
        assert(event_frames(es).last() == Frame::Event(es.last()));
        assert((v.1 + init).push(es.last()) =~= v.1 + es);
    }
}

/// However many event frames arrive while a command is in flight before its reply,
/// each is queued for the event relay, in order, and none is taken as the reply: with
/// no earlier reply queued, the reply that the caller takes is the reply frame's.
pub proof fn lemma_events_before_reply_are_queued(
    v: (Seq<CommandResult>, Seq<Event>),
    es: Seq<Event>,
    r: CommandResult,
)
    ensures
        route_all_spec(v, event_frames(es).push(Frame::Reply(r))) == (v.0.push(r), v.1 + es),
        v.0.len() == 0 ==> route_all_spec(v, event_frames(es).push(Frame::Reply(r))).0[0] == r,
{
    lemma_event_frames_queue(v, es);
    let fs = event_frames(es).push(Frame::Reply(r));
    assert(fs.drop_last() =~= event_frames(es));
}

} // verus!
