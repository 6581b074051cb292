//! The protocol of one fetch, as a machine that is told what happened and
//! answers what to do next. The caller owns the connection: it performs each
//! action and reports the event that came of it.

use crate::broker::{consumer_settings, entries, settings};
use crate::model::{
    ConfigView, ConnectionConfig, FetchError, FetchErrorView, LocationView, PartitionLocation,
};
use rdkafka::config::ClientConfig;
use rdkafka::topic_partition_list::TopicPartitionList;
use vstd::prelude::*;

verus! {

/// How far a fetch has come.
#[derive(Debug, Clone, Copy, PartialEq, Eq, Structural)]
pub enum Phase {
    /// Nothing has been asked of the broker yet.
    Idle,
    /// A connection was asked for.
    Connecting,
    /// The connection stands and the assignment was handed over.
    Assigning,
    /// Connected and assigned: waiting for the one event.
    Polling,
    /// The fetch has its outcome.
    Done,
}

/// What the caller reports to the machine.
#[derive(Debug, Clone, PartialEq, Eq)]
pub enum Event {
    /// The caller is ready to begin.
    Start,
    /// The client was created.
    Connected,
    /// The client could not be created.
    ConnectFailed(String),
    /// The assignment was applied.
    Assigned,
    /// The assignment was refused.
    AssignFailed(String),
    /// The poll brought a record, with its payload if it has one.
    Record(Option<Vec<u8>>),
    /// The poll brought an error event.
    PollFailed(String),
    /// The poll brought nothing.
    Silence,
}

/// The mathematical value of an [`Event`].
pub enum EventView {
    Start,
    Connected,
    ConnectFailed(Seq<char>),
    Assigned,
    AssignFailed(Seq<char>),
    Record(Option<Seq<u8>>),
    PollFailed(Seq<char>),
    Silence,
}

impl View for Event {
    type V = EventView;

    open spec fn view(&self) -> EventView {
        match self {
            Event::Start => EventView::Start,
            Event::Connected => EventView::Connected,
            Event::ConnectFailed(detail) => EventView::ConnectFailed(detail@),
            Event::Assigned => EventView::Assigned,
            Event::AssignFailed(detail) => EventView::AssignFailed(detail@),
            Event::Record(Some(bytes)) => EventView::Record(Some(bytes@)),
            Event::Record(None) => EventView::Record(None),
            Event::PollFailed(detail) => EventView::PollFailed(detail@),
            Event::Silence => EventView::Silence,
        }
    }
}

/// What the machine asks of the caller.
#[derive(Debug)]
pub enum Action {
    /// Create a consumer from this configuration.
    Connect(ClientConfig),
    /// Assign this list to the consumer, directly and without a subscription.
    Assign(TopicPartitionList),
    /// Wait for the next event, without a timeout.
    Poll,
    /// The fetch succeeded: these are the payload's bytes.
    Deliver(Vec<u8>),
    /// The fetch failed.
    Fail(FetchError),
}

/// The mathematical value of an [`Action`].
pub enum ActionView {
    Connect(Map<Seq<char>, Seq<char>>),
    Assign(Seq<(Seq<char>, i32, i64)>),
    Poll,
    Deliver(Seq<u8>),
    Fail(FetchErrorView),
}

impl View for Action {
    type V = ActionView;

    open spec fn view(&self) -> ActionView {
        match self {
            Action::Connect(config) => ActionView::Connect(settings(*config)),
            Action::Assign(list) => ActionView::Assign(entries(*list)),
            Action::Poll => ActionView::Poll,
            Action::Deliver(bytes) => ActionView::Deliver(bytes@),
            Action::Fail(error) => ActionView::Fail(error@),
        }
    }
}

/// The action that asks for a connection under `config`.
pub open spec fn connect_request(config: ConfigView) -> ActionView {
    ActionView::Connect(consumer_settings(config.brokers, config.group_id))
}

/// The action that asks for the assignment of `location` and of nothing else.
pub open spec fn assign_request(location: LocationView) -> ActionView {
    ActionView::Assign(seq![(location.topic, location.partition, location.offset)])
}

/// The protocol: the phase that follows `phase` on `event` and the action
/// asked for then, or `None` where the event has no place in that phase.
pub open spec fn transition(
    phase: Phase,
    config: ConfigView,
    location: LocationView,
    event: EventView,
) -> Option<(Phase, ActionView)> {
    match (phase, event) {
        (Phase::Idle, EventView::Start) => Some((Phase::Connecting, connect_request(config))),
        (Phase::Connecting, EventView::Connected) => if location.assignable() {
            Some((Phase::Assigning, assign_request(location)))
        } else {
            Some((Phase::Done, ActionView::Fail(location.rejection())))
        },
        (Phase::Connecting, EventView::ConnectFailed(detail)) => Some(
            (Phase::Done, ActionView::Fail(FetchErrorView::Connection(detail))),
        ),
        (Phase::Assigning, EventView::Assigned) => Some((Phase::Polling, ActionView::Poll)),
        (Phase::Assigning, EventView::AssignFailed(detail)) => Some(
            (Phase::Done, ActionView::Fail(FetchErrorView::Assignment(detail))),
        ),
        (Phase::Polling, EventView::Record(Some(bytes))) => Some(
            (Phase::Done, ActionView::Deliver(bytes)),
        ),
        (Phase::Polling, EventView::Record(None)) => Some(
            (Phase::Done, ActionView::Fail(FetchErrorView::EmptyPayload)),
        ),
        (Phase::Polling, EventView::PollFailed(detail)) => Some(
            (Phase::Done, ActionView::Fail(FetchErrorView::Poll(detail))),
        ),
        (Phase::Polling, EventView::Silence) => Some(
            (Phase::Done, ActionView::Fail(FetchErrorView::NoEvent)),
        ),
        _ => None,
    }
}

/// One fetch of one record.
pub struct Fetcher {
    config: ConnectionConfig,
    location: PartitionLocation,
    phase: Phase,
}

/// The mathematical value of a [`Fetcher`].
pub struct FetcherView {
    pub config: ConfigView,
    pub location: LocationView,
    pub phase: Phase,
}

impl View for Fetcher {
    type V = FetcherView;

    closed spec fn view(&self) -> FetcherView {
        FetcherView { config: self.config@, location: self.location@, phase: self.phase }
    }
}

impl Fetcher {
    /// A fetch of the record at `location` over `config`, not yet begun.
    pub fn new(config: ConnectionConfig, location: PartitionLocation) -> (fetcher: Fetcher)
        ensures
            fetcher@.config == config@,
            fetcher@.location == location@,
            fetcher@.phase == Phase::Idle,
    {
        Fetcher { config, location, phase: Phase::Idle }
    }

    /// How far this fetch has come.
    pub fn phase(&self) -> (phase: Phase)
        ensures
            phase == self@.phase,
    {
        self.phase
    }

    /// The connection this fetch uses.
    pub fn config(&self) -> (config: &ConnectionConfig)
        ensures
            config@ == self@.config,
    {
        &self.config
    }

    /// The record this fetch is after.
    pub fn location(&self) -> (location: &PartitionLocation)
        ensures
            location@ == self@.location,
    {
        &self.location
    }

    /// Takes in what happened and answers what to do next, as `transition`
    /// has it. An event that has no place in the current phase is answered
    /// with `None` and changes nothing.
    pub fn step(&mut self, event: Event) -> (action: Option<Action>)
        ensures
            final(self)@.config == old(self)@.config,
            final(self)@.location == old(self)@.location,
            match transition(old(self)@.phase, old(self)@.config, old(self)@.location, event@) {
                Some((phase, reply)) => {
                    &&& final(self)@.phase == phase
                    &&& action matches Some(asked)
                    &&& asked@ == reply
                },
                None => {
                    &&& final(self)@.phase == old(self)@.phase
                    &&& action is None
                },
            },
    {
        match (self.phase, event) {
            (Phase::Idle, Event::Start) => {
                self.phase = Phase::Connecting;
                Some(Action::Connect(self.config.client_config()))
            },
            (Phase::Connecting, Event::Connected) => {
                match self.location.assignment() {
                    Ok(list) => {
                        self.phase = Phase::Assigning;
                        Some(Action::Assign(list))
                    },
                    Err(error) => {
                        self.phase = Phase::Done;
                        Some(Action::Fail(error))
                    },
                }
            },
            (Phase::Connecting, Event::ConnectFailed(detail)) => {
                self.phase = Phase::Done;
                Some(Action::Fail(FetchError::Connection(detail)))
            },
            (Phase::Assigning, Event::Assigned) => {
                self.phase = Phase::Polling;
                Some(Action::Poll)
            },
            (Phase::Assigning, Event::AssignFailed(detail)) => {
                self.phase = Phase::Done;
                Some(Action::Fail(FetchError::Assignment(detail)))
            },
            (Phase::Polling, Event::Record(Some(bytes))) => {
                self.phase = Phase::Done;
                Some(Action::Deliver(bytes))
            },
            (Phase::Polling, Event::Record(None)) => {
                self.phase = Phase::Done;
                Some(Action::Fail(FetchError::EmptyPayload))
            },
            (Phase::Polling, Event::PollFailed(detail)) => {
                self.phase = Phase::Done;
                Some(Action::Fail(FetchError::Poll(detail)))
            },
            (Phase::Polling, Event::Silence) => {
                self.phase = Phase::Done;
                Some(Action::Fail(FetchError::NoEvent))
            },
            _ => None,
        }
    }
}

} // verus!
