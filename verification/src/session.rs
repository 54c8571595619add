//! The control decisions of a streaming session: what to do about each frame
//! that arrives, each read that fails and each tick of the heartbeat timer.
//! The caller owns the transport: it performs the action that a step asks
//! for and hands back what happened as the next event.

use vstd::prelude::*;
use crate::decode::{decode, decoded_text, outcome_view};
use crate::endpoint::{subscribe_request, subscribe_request_text};
use crate::heartbeat::{
    next_state, verdict_of, HeartbeatSignal, HeartbeatState, HeartbeatVerdict,
};
use crate::notify::{liquidation_message, notification_text};
use crate::timestamp::{event_time_text, format_event_time};
use crate::types::{
    BybitLiquidationData, DecodeError, DecodeErrorView, GenericData, LiquidationView,
    VariantResponse, VariantView,
};

verus! {

/// One message unit of the transport.
#[derive(Debug, Clone, PartialEq, Eq)]
pub enum InboundFrame {
    Text(String),
    Binary(Vec<u8>),
    Ping,
    Pong,
    Close,
}

pub ghost enum FrameView {
    Text(Seq<char>),
    Binary(Seq<u8>),
    Ping,
    Pong,
    Close,
}

impl View for InboundFrame {
    type V = FrameView;

    open spec fn view(&self) -> FrameView {
        match self {
            InboundFrame::Text(text) => FrameView::Text(text@),
            InboundFrame::Binary(bytes) => FrameView::Binary(bytes@),
            InboundFrame::Ping => FrameView::Ping,
            InboundFrame::Pong => FrameView::Pong,
            InboundFrame::Close => FrameView::Close,
        }
    }
}

/// The ways in which a read from the transport fails.
#[derive(Debug, Clone, Copy, PartialEq, Eq, Structural)]
pub enum TransportError {
    /// The connection was closed normally.
    ConnectionClosed,
    /// The connection had been closed before.
    AlreadyClosed,
    /// The stream had no data to give within its read timeout, or reported
    /// another input-output condition.
    Io,
    Tls,
    Capacity,
    Protocol,
    SendQueueFull,
    Utf8,
    Url,
    Http,
    HttpFormat,
}

/// What a failed read means for the session.
#[derive(Debug, Clone, Copy, PartialEq, Eq, Structural)]
pub enum ErrorClass {
    /// Nothing is wrong: there was no data yet.
    Benign,
    /// The connection is gone: the session ends.
    ConnectionTerminated,
    /// Something irregular that is reported; the session goes on.
    ProtocolViolation,
}

/// Why a session is torn down.
#[derive(Debug, Clone, Copy, PartialEq, Eq, Structural)]
pub enum TeardownReason {
    PeerClosed,
    ConnectionTerminated,
    HeartbeatTimeout,
    KeepaliveSendFailed,
}

/// What happened since the last step.
#[derive(Debug, Clone, PartialEq, Eq)]
pub enum SessionEvent {
    /// The heartbeat timer fired at the given time.
    TimerFired(u64),
    /// The keepalive that the last step asked for could not be sent.
    KeepaliveSendFailed,
    /// The notification that the last step asked for could not be delivered.
    NotifyFailed,
    /// A frame arrived.
    Frame(InboundFrame),
    /// A read failed.
    ReadFailed(TransportError),
}

pub ghost enum EventView {
    TimerFired(u64),
    KeepaliveSendFailed,
    NotifyFailed,
    Frame(FrameView),
    ReadFailed(TransportError),
}

impl View for SessionEvent {
    type V = EventView;

    open spec fn view(&self) -> EventView {
        match self {
            SessionEvent::TimerFired(now) => EventView::TimerFired(*now),
            SessionEvent::KeepaliveSendFailed => EventView::KeepaliveSendFailed,
            SessionEvent::NotifyFailed => EventView::NotifyFailed,
            SessionEvent::Frame(frame) => EventView::Frame(frame@),
            SessionEvent::ReadFailed(error) => EventView::ReadFailed(*error),
        }
    }
}

/// Something to put on record; none of these ends the session.
#[derive(Debug, Clone, PartialEq, Eq)]
pub enum Report {
    /// A text frame did not decode.
    Undecodable(DecodeError),
    /// A liquidation carries a time that the calendar does not reach.
    TimeOutOfRange,
    /// A binary frame arrived; the feed is not expected to send any.
    BinaryFrame,
    /// A read failed in a way that leaves the transport usable.
    TransportFault(TransportError),
    /// A notification could not be delivered.
    NotifierFault,
}

pub ghost enum ReportView {
    Undecodable(DecodeErrorView),
    TimeOutOfRange,
    BinaryFrame,
    TransportFault(TransportError),
    NotifierFault,
}

impl View for Report {
    type V = ReportView;

    open spec fn view(&self) -> ReportView {
        match self {
            Report::Undecodable(error) => ReportView::Undecodable(error@),
            Report::TimeOutOfRange => ReportView::TimeOutOfRange,
            Report::BinaryFrame => ReportView::BinaryFrame,
            Report::TransportFault(error) => ReportView::TransportFault(*error),
            Report::NotifierFault => ReportView::NotifierFault,
        }
    }
}

/// What a step asks the caller to do.
#[derive(Debug, Clone, PartialEq, Eq)]
pub enum SessionAction {
    /// Go on to the next read or timer tick.
    Nothing,
    /// Send a keepalive frame.
    SendKeepalive,
    /// Hand this text to the notifier.
    Notify(String),
    /// Put this on record and go on.
    Report(Report),
    /// Drop the connection; the session is over.
    Teardown(TeardownReason),
}

pub ghost enum ActionView {
    Nothing,
    SendKeepalive,
    Notify(Seq<char>),
    Report(ReportView),
    Teardown(TeardownReason),
}

impl View for SessionAction {
    type V = ActionView;

    open spec fn view(&self) -> ActionView {
        match self {
            SessionAction::Nothing => ActionView::Nothing,
            SessionAction::SendKeepalive => ActionView::SendKeepalive,
            SessionAction::Notify(text) => ActionView::Notify(text@),
            SessionAction::Report(report) => ActionView::Report(report@),
            SessionAction::Teardown(reason) => ActionView::Teardown(*reason),
        }
    }
}

/// The part of a session that its steps read and change.
pub ghost struct SessionState {
    pub heartbeat: HeartbeatState,
    pub terminated: bool,
}

/// A session on one connection: the heartbeat, the topics subscribed to, and
/// whether the session is over.
#[derive(Debug, Clone, PartialEq, Eq)]
pub struct Session {
    pub heartbeat: HeartbeatState,
    pub topics: Vec<String>,
    pub terminated: bool,
}

/// The classification of failed reads. That no data is available is never
/// fatal; that the connection is closed always is.
pub open spec fn class_of(error: TransportError) -> ErrorClass {
    match error {
        TransportError::Io => ErrorClass::Benign,
        TransportError::ConnectionClosed => ErrorClass::ConnectionTerminated,
        TransportError::AlreadyClosed => ErrorClass::ConnectionTerminated,
        _ => ErrorClass::ProtocolViolation,
    }
}

/// What a liquidation leads to: its notification, or a report where its
/// time cannot be written as a date.
pub open spec fn liquidation_action(event: LiquidationView) -> ActionView {
    match event_time_text(event.time as u64) {
        Some(when) => ActionView::Notify(notification_text(event, when)),
        None => ActionView::Report(ReportView::TimeOutOfRange),
    }
}

/// What a decoded text leads to: the answer to a request is dropped, a
/// liquidation is announced, a text that does not decode is reported.
pub open spec fn decoded_action(outcome: Result<VariantView, DecodeErrorView>) -> ActionView {
    match outcome {
        Ok(VariantView::Response(_)) => ActionView::Nothing,
        Ok(VariantView::Liquidation(message)) => match message.data {
            GenericData::Liquidation(event) => liquidation_action(event),
        },
        Err(error) => ActionView::Report(ReportView::Undecodable(error)),
    }
}

/// What a frame leads to.
pub open spec fn frame_action(frame: FrameView) -> ActionView {
    match frame {
        FrameView::Text(text) => decoded_action(decoded_text(text)),
        FrameView::Binary(_) => ActionView::Report(ReportView::BinaryFrame),
        FrameView::Ping => ActionView::Nothing,
        FrameView::Pong => ActionView::Nothing,
        FrameView::Close => ActionView::Teardown(TeardownReason::PeerClosed),
    }
}

/// What a failed read leads to.
pub open spec fn read_failure_action(error: TransportError) -> ActionView {
    match class_of(error) {
        ErrorClass::Benign => ActionView::Nothing,
        ErrorClass::ConnectionTerminated => ActionView::Teardown(
            TeardownReason::ConnectionTerminated,
        ),
        ErrorClass::ProtocolViolation => ActionView::Report(ReportView::TransportFault(error)),
    }
}

/// The signal that an event is to the heartbeat, if it is one: a pong frame
/// acknowledges the outstanding keepalive.
pub open spec fn heartbeat_signal(event: EventView) -> Option<HeartbeatSignal> {
    match event {
        EventView::TimerFired(now) => Some(HeartbeatSignal::TimerFired(now)),
        EventView::KeepaliveSendFailed => Some(HeartbeatSignal::SendFailed),
        EventView::Frame(FrameView::Pong) => Some(HeartbeatSignal::AckObserved),
        _ => None,
    }
}

/// What a live session does about an event.
pub open spec fn live_action(heartbeat: HeartbeatState, event: EventView) -> ActionView {
    match event {
        EventView::TimerFired(now) => match verdict_of(
            heartbeat,
            HeartbeatSignal::TimerFired(now),
        ) {
            HeartbeatVerdict::SendKeepalive => ActionView::SendKeepalive,
            HeartbeatVerdict::Terminate => ActionView::Teardown(TeardownReason::HeartbeatTimeout),
            HeartbeatVerdict::Nothing => ActionView::Nothing,
        },
        EventView::KeepaliveSendFailed => ActionView::Teardown(TeardownReason::KeepaliveSendFailed),
        EventView::NotifyFailed => ActionView::Report(ReportView::NotifierFault),
        EventView::Frame(frame) => frame_action(frame),
        EventView::ReadFailed(error) => read_failure_action(error),
    }
}

/// What a session does about an event. A session that is over does nothing.
pub open spec fn action_for(state: SessionState, event: EventView) -> ActionView {
    if state.terminated {
        ActionView::Nothing
    } else {
        live_action(state.heartbeat, event)
    }
}

/// The state of a session after an event. A teardown ends the session; a
/// session that is over stays as it is.
pub open spec fn state_after_event(state: SessionState, event: EventView) -> SessionState {
    if state.terminated {
        state
    } else {
        SessionState {
            heartbeat: match heartbeat_signal(event) {
                Some(signal) => next_state(state.heartbeat, signal),
                None => state.heartbeat,
            },
            terminated: action_for(state, event) is Teardown,
        }
    }
}

/// The actions that a session takes on a sequence of events, in order.
pub open spec fn actions_for(state: SessionState, events: Seq<EventView>) -> Seq<ActionView>
    decreases events.len(),
{
    if events.len() == 0 {
        Seq::empty()
    } else {
        seq![action_for(state, events[0])] + actions_for(
            state_after_event(state, events[0]),
            events.skip(1),
        )
    }
}

/// The state of a session after a sequence of events.
pub open spec fn state_after_events(state: SessionState, events: Seq<EventView>) -> SessionState
    decreases events.len(),
{
    if events.len() == 0 {
        state
    } else {
        state_after_events(state_after_event(state, events[0]), events.skip(1))
    }
}

/// The views of a sequence of events, in order.
pub open spec fn event_views(events: Seq<SessionEvent>) -> Seq<EventView> {
    Seq::new(events.len(), |i: int| events[i]@)
}

/// The views of a sequence of actions, in order.
pub open spec fn action_views(actions: Seq<SessionAction>) -> Seq<ActionView> {
    Seq::new(actions.len(), |i: int| actions[i]@)
}

/// Classifies a failed read.
pub fn classify(error: TransportError) -> (class: ErrorClass)
    ensures
        class == class_of(error),
{
    match error {
        TransportError::Io => ErrorClass::Benign,
        TransportError::ConnectionClosed => ErrorClass::ConnectionTerminated,
        TransportError::AlreadyClosed => ErrorClass::ConnectionTerminated,
        _ => ErrorClass::ProtocolViolation,
    }
}

/// Decides what a liquidation leads to.
pub fn announce(event: &BybitLiquidationData) -> (action: SessionAction)
    ensures
        action@ == liquidation_action(event@),
{
    match format_event_time(event.time) {
        Some(when) => SessionAction::Notify(liquidation_message(event, when.as_str())),
        None => SessionAction::Report(Report::TimeOutOfRange),
    }
}

/// Decides what the outcome of decoding a text frame leads to.
pub fn route(outcome: Result<VariantResponse, DecodeError>) -> (action: SessionAction)
    ensures
        action@ == decoded_action(outcome_view(outcome)),
{
    match outcome {
        Ok(VariantResponse::Response(_)) => SessionAction::Nothing,
        Ok(VariantResponse::Liquidation(message)) => match message.data {
            GenericData::Liquidation(event) => announce(&event),
        },
        Err(error) => SessionAction::Report(Report::Undecodable(error)),
    }
}

impl Session {
    /// What the steps of the session read and change.
    pub open spec fn state(&self) -> SessionState {
        SessionState { heartbeat: self.heartbeat, terminated: self.terminated }
    }

    /// A live session with nothing outstanding, as it stands right after the
    /// subscription was sent at time `now`.
    pub fn new(topics: Vec<String>, now: u64) -> (session: Session)
        ensures
            session.topics == topics,
            session.state() == (SessionState {
                heartbeat: HeartbeatState { last_sent_at: now, awaiting_ack: false },
                terminated: false,
            }),
    {
        Session { heartbeat: HeartbeatState::new(now), topics, terminated: false }
    }

    /// Writes the request that subscribes to the topics of the session.
    pub fn subscription(&self) -> (request: String)
        ensures
            request@ == subscribe_request_text(self.topics.deep_view()),
    {
        subscribe_request(&self.topics)
    }

    /// Takes one event: says what to do about it and moves to the next state.
    pub fn handle(&mut self, event: &SessionEvent) -> (action: SessionAction)
        ensures
            action@ == action_for(old(self).state(), event@),
            final(self).state() == state_after_event(old(self).state(), event@),
            final(self).topics == old(self).topics,
    {
        if self.terminated {
            return SessionAction::Nothing;
        }
        let action = match event {
            SessionEvent::TimerFired(now) => {
                match self.heartbeat.step(HeartbeatSignal::TimerFired(*now)) {
                    HeartbeatVerdict::SendKeepalive => SessionAction::SendKeepalive,
                    HeartbeatVerdict::Terminate => SessionAction::Teardown(
                        TeardownReason::HeartbeatTimeout,
                    ),
                    HeartbeatVerdict::Nothing => SessionAction::Nothing,
                }
            },
            SessionEvent::KeepaliveSendFailed => {
                self.heartbeat.step(HeartbeatSignal::SendFailed);
                SessionAction::Teardown(TeardownReason::KeepaliveSendFailed)
            },
            SessionEvent::NotifyFailed => SessionAction::Report(Report::NotifierFault),
            SessionEvent::Frame(frame) => match frame {
                InboundFrame::Text(text) => route(decode(text.as_str())),
                InboundFrame::Binary(_) => SessionAction::Report(Report::BinaryFrame),
                InboundFrame::Ping => SessionAction::Nothing,
                InboundFrame::Pong => {
                    self.heartbeat.step(HeartbeatSignal::AckObserved);
                    SessionAction::Nothing
                },
                InboundFrame::Close => SessionAction::Teardown(TeardownReason::PeerClosed),
            },
            SessionEvent::ReadFailed(error) => match classify(*error) {
                ErrorClass::Benign => SessionAction::Nothing,
                ErrorClass::ConnectionTerminated => SessionAction::Teardown(
                    TeardownReason::ConnectionTerminated,
                ),
                ErrorClass::ProtocolViolation => SessionAction::Report(
                    Report::TransportFault(*error),
                ),
            },
        };
        if let SessionAction::Teardown(_) = action {
            self.terminated = true;
        }
        action
    }
}

impl Session {
    /// Takes a sequence of events in order and collects the actions that
    /// they lead to, one for each event.
    pub fn replay(&mut self, events: &Vec<SessionEvent>) -> (actions: Vec<SessionAction>)
        ensures
            action_views(actions@) == actions_for(old(self).state(), event_views(events@)),
            final(self).state() == state_after_events(old(self).state(), event_views(events@)),
            final(self).topics == old(self).topics,
    {
        let ghost all = event_views(events@);
        let ghost start = self.state();
        let mut actions: Vec<SessionAction> = Vec::new();
        let mut done: usize = 0;
        assert(all.skip(0) =~= all);
        while done < events.len()
            invariant
                done <= events.len(),
                all == event_views(events@),
                self.topics == old(self).topics,
                actions_for(start, all) == action_views(actions@) + actions_for(
                    self.state(),
                    all.skip(done as int),
                ),
                state_after_events(start, all) == state_after_events(
                    self.state(),
                    all.skip(done as int),
                ),
            decreases events.len() - done,
        {
            assert(all.skip(done as int).skip(1) =~= all.skip(done + 1));
            let action = self.handle(&events[done]);
            actions.push(action);
            done += 1;
        }
        actions
    }
}

/// A read that finds no data changes nothing: the session stays in its
/// state, whatever that is, and nothing is asked of the caller.
pub proof fn lemma_no_data_changes_nothing(state: SessionState)
    ensures
        class_of(TransportError::Io) == ErrorClass::Benign,
        action_for(state, EventView::ReadFailed(TransportError::Io)) == ActionView::Nothing,
        state_after_event(state, EventView::ReadFailed(TransportError::Io)) == state,
{
}

/// A live session always ends when the peer closes: on a close frame and on
/// a read that reports the connection closed.
pub proof fn lemma_peer_close_ends_session(state: SessionState)
    requires
        !state.terminated,
    ensures
        action_for(state, EventView::Frame(FrameView::Close)) is Teardown,
        state_after_event(state, EventView::Frame(FrameView::Close)).terminated,
        action_for(state, EventView::ReadFailed(TransportError::ConnectionClosed)) is Teardown,
        state_after_event(
            state,
            EventView::ReadFailed(TransportError::ConnectionClosed),
        ).terminated,
        action_for(state, EventView::ReadFailed(TransportError::AlreadyClosed)) is Teardown,
        state_after_event(state, EventView::ReadFailed(TransportError::AlreadyClosed)).terminated,
{
}

/// No single message ends a session: whatever a text frame holds, the
/// session is in the same state after it, and the action is no teardown.
pub proof fn lemma_message_never_ends_session(state: SessionState, text: Seq<char>)
    ensures
        !(action_for(state, EventView::Frame(FrameView::Text(text))) is Teardown),
        state_after_event(state, EventView::Frame(FrameView::Text(text))) == state,
{
}

/// A session that is over stays over and does nothing more, whatever the
/// events that follow.
pub proof fn lemma_terminated_session_is_silent(state: SessionState, events: Seq<EventView>)
    requires
        state.terminated,
    ensures
        state_after_events(state, events) == state,
        actions_for(state, events).len() == events.len(),
        forall|i: int|
            0 <= i < events.len() ==> #[trigger] actions_for(state, events)[i]
                == ActionView::Nothing,
    decreases events.len(),
{
    if events.len() > 0 {
        lemma_terminated_session_is_silent(state, events.skip(1));
        assert forall|i: int| 0 <= i < events.len() implies #[trigger] actions_for(state, events)[i]
            == ActionView::Nothing by {
            if i > 0 {
                assert(actions_for(state, events)[i] == actions_for(state, events.skip(1))[i - 1]);
            }
        }
    }
}

/// A session sends a keepalive only when none is outstanding, and after a
/// teardown it is over.
pub proof fn lemma_session_keepalive_and_teardown(state: SessionState, event: EventView)
    ensures
        action_for(state, event) == ActionView::SendKeepalive ==> !state.heartbeat.awaiting_ack
            && state_after_event(state, event).heartbeat.awaiting_ack,
        action_for(state, event) is Teardown ==> state_after_event(state, event).terminated,
{
}

} // verus!
