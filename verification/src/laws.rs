//! What holds of every fetch, whatever the broker answers.

use crate::fetcher::{assign_request, connect_request, transition, ActionView, EventView, Phase};
use crate::model::{ConfigView, FetchErrorView, LocationView};
use vstd::prelude::*;

verus! {

/// The phase reached and the actions asked for, in order, when a fetch that
/// stands in `phase` is told `events` one after the other. An event without
/// a place in the phase it meets is passed over.
pub open spec fn run(
    phase: Phase,
    config: ConfigView,
    location: LocationView,
    events: Seq<EventView>,
) -> (Phase, Seq<ActionView>)
    decreases events.len(),
{
    if events.len() == 0 {
        (phase, Seq::empty())
    } else {
        let (reached, asked) = run(phase, config, location, events.drop_last());
        match transition(reached, config, location, events.last()) {
            Some((next, action)) => (next, asked.push(action)),
            None => (reached, asked),
        }
    }
}

/// Telling a fetch one more event is one more transition from where the
/// earlier events left it.
pub proof fn run_extends(
    phase: Phase,
    config: ConfigView,
    location: LocationView,
    events: Seq<EventView>,
    event: EventView,
)
    ensures
        run(phase, config, location, events.push(event)) == match transition(
            run(phase, config, location, events).0,
            config,
            location,
            event,
        ) {
            Some((next, action)) => (next, run(phase, config, location, events).1.push(action)),
            None => run(phase, config, location, events),
        },
{
    assert(events.push(event).drop_last() =~= events);
}

/// An action that ends a fetch with an error of the fetch phase after the
/// poll was made.
pub open spec fn fails_at_poll(action: ActionView) -> bool {
    action matches ActionView::Fail(error) && (error is Poll || error is EmptyPayload
        || error is NoEvent)
}

/// The only histories a fetch can have: the actions asked for so far, by the
/// phase reached.
pub open spec fn history_fits(
    phase: Phase,
    config: ConfigView,
    location: LocationView,
    asked: Seq<ActionView>,
) -> bool {
    let connect = connect_request(config);
    let assign = assign_request(location);
    match phase {
        Phase::Idle => asked.len() == 0,
        Phase::Connecting => asked.len() == 1 && asked[0] == connect,
        Phase::Assigning => asked.len() == 2 && asked[0] == connect && asked[1] == assign
            && location.assignable(),
        Phase::Polling => asked.len() == 3 && asked[0] == connect && asked[1] == assign
            && asked[2] == ActionView::Poll && location.assignable(),
        Phase::Done => {
            ||| asked.len() == 2 && asked[0] == connect && asked[1] is Fail && (asked[1]->Fail_0
                is Connection || (!location.assignable() && asked[1]->Fail_0
                == location.rejection()))
            ||| asked.len() == 3 && asked[0] == connect && asked[1] == assign && asked[2] is Fail
                && asked[2]->Fail_0 is Assignment && location.assignable()
            ||| asked.len() == 4 && asked[0] == connect && asked[1] == assign && asked[2]
                == ActionView::Poll && (asked[3] is Deliver || fails_at_poll(asked[3]))
                && location.assignable()
        },
    }
}

/// Every fetch follows the protocol: whatever events are reported to a fresh
/// fetch, its actions are a connection request, then at most one assignment,
/// of the location asked for and of nothing else, then at most one poll, and
/// then at most one outcome.
pub proof fn fetch_follows_protocol(
    config: ConfigView,
    location: LocationView,
    events: Seq<EventView>,
)
    ensures
        history_fits(
            run(Phase::Idle, config, location, events).0,
            config,
            location,
            run(Phase::Idle, config, location, events).1,
        ),
    decreases events.len(),
{
    if events.len() > 0 {
        fetch_follows_protocol(config, location, events.drop_last());
    }
}

/// A payload is delivered only for a record that has one, only while the
/// fetch waits for its event, and then it is that record's payload, byte for
/// byte.
pub proof fn delivery_is_exact(
    phase: Phase,
    config: ConfigView,
    location: LocationView,
    event: EventView,
    bytes: Seq<u8>,
)
    ensures
        transition(phase, config, location, event) == Some(
            (Phase::Done, ActionView::Deliver(bytes)),
        ) <==> phase == Phase::Polling && event == EventView::Record(Some(bytes)),
        transition(phase, config, location, event) matches Some((_, ActionView::Deliver(given)))
            ==> event == EventView::Record(Some(given)),
{
}

/// A record without a payload ends the fetch with the empty-payload error:
/// it is never a delivery, not even of no bytes.
pub proof fn tombstone_is_an_error(config: ConfigView, location: LocationView)
    ensures
        transition(Phase::Polling, config, location, EventView::Record(None)) == Some(
            (Phase::Done, ActionView::Fail(FetchErrorView::EmptyPayload)),
        ),
{
}

/// A connection that fails ends the fetch with a connection error, and a
/// fetch that ended so has asked for no assignment and no poll, and has
/// delivered nothing.
pub proof fn failed_connection_assigns_nothing(
    config: ConfigView,
    location: LocationView,
    events: Seq<EventView>,
    detail: Seq<char>,
    at: int,
)
    requires
        0 <= at < run(Phase::Idle, config, location, events).1.len(),
        run(Phase::Idle, config, location, events).1[at] == ActionView::Fail(
            FetchErrorView::Connection(detail),
        ),
    ensures
        transition(Phase::Connecting, config, location, EventView::ConnectFailed(detail)) == Some(
            (Phase::Done, ActionView::Fail(FetchErrorView::Connection(detail))),
        ),
        run(Phase::Idle, config, location, events).0 == Phase::Done,
        forall|i: int|
            0 <= i < run(Phase::Idle, config, location, events).1.len() ==> {
                let action = #[trigger] run(Phase::Idle, config, location, events).1[i];
                !(action is Assign) && !(action is Poll) && !(action is Deliver)
            },
{
    fetch_follows_protocol(config, location, events);
}

/// An assignment that the broker refuses ends the fetch with an assignment
/// error, and so does a partition index below zero, which is refused before
/// the broker is asked.
pub proof fn refused_assignment_is_an_error(
    config: ConfigView,
    location: LocationView,
    detail: Seq<char>,
)
    ensures
        transition(Phase::Assigning, config, location, EventView::AssignFailed(detail)) == Some(
            (Phase::Done, ActionView::Fail(FetchErrorView::Assignment(detail))),
        ),
        location.partition < 0 ==> transition(
            Phase::Connecting,
            config,
            location,
            EventView::Connected,
        ) matches Some((Phase::Done, ActionView::Fail(FetchErrorView::Assignment(_)))),
{
}

/// A fetch has one outcome at most: where any of its actions reports a
/// failure, none of them delivers a payload, so a caller that writes only
/// what is delivered writes nothing for a failed fetch.
pub proof fn failure_delivers_nothing(
    config: ConfigView,
    location: LocationView,
    events: Seq<EventView>,
    at: int,
)
    requires
        0 <= at < run(Phase::Idle, config, location, events).1.len(),
        run(Phase::Idle, config, location, events).1[at] is Fail,
    ensures
        forall|i: int|
            0 <= i < run(Phase::Idle, config, location, events).1.len() ==> !(#[trigger] run(
                Phase::Idle,
                config,
                location,
                events,
            ).1[i] is Deliver),
{
    fetch_follows_protocol(config, location, events);
}

/// A fetch that meets no failure asks for the connection, the assignment
/// and the poll, and then delivers the payload of the record it was
/// handed, byte for byte; where that record has no payload, it ends with the
/// empty-payload error instead.
pub proof fn undisturbed_fetch(
    config: ConfigView,
    location: LocationView,
    payload: Option<Seq<u8>>,
)
    requires
        location.assignable(),
    ensures
        run(
            Phase::Idle,
            config,
            location,
            seq![
                EventView::Start,
                EventView::Connected,
                EventView::Assigned,
                EventView::Record(payload),
            ],
        ) == (
            Phase::Done,
            seq![
                connect_request(config),
                assign_request(location),
                ActionView::Poll,
                match payload {
                    Some(bytes) => ActionView::Deliver(bytes),
                    None => ActionView::Fail(FetchErrorView::EmptyPayload),
                },
            ],
        ),
{
    let none = Seq::<EventView>::empty();
    let one = none.push(EventView::Start);
    let two = one.push(EventView::Connected);
    let three = two.push(EventView::Assigned);
    let four = three.push(EventView::Record(payload));
    run_extends(Phase::Idle, config, location, none, EventView::Start);
    run_extends(Phase::Idle, config, location, one, EventView::Connected);
    run_extends(Phase::Idle, config, location, two, EventView::Assigned);
    run_extends(Phase::Idle, config, location, three, EventView::Record(payload));
    assert(four =~= seq![
        EventView::Start,
        EventView::Connected,
        EventView::Assigned,
        EventView::Record(payload),
    ]);
    let last = match payload {
        Some(bytes) => ActionView::Deliver(bytes),
        None => ActionView::Fail(FetchErrorView::EmptyPayload),
    };
    assert(run(Phase::Idle, config, location, four).1 =~= seq![
        connect_request(config),
        assign_request(location),
        ActionView::Poll,
        last,
    ]);
}

/// A fetch whose connection fails asks for the connection and then reports
/// the connection error, and that is all it does.
pub proof fn unreachable_broker(config: ConfigView, location: LocationView, detail: Seq<char>)
    ensures
        run(
            Phase::Idle,
            config,
            location,
            seq![EventView::Start, EventView::ConnectFailed(detail)],
        ) == (
            Phase::Done,
            seq![
                connect_request(config),
                ActionView::Fail(FetchErrorView::Connection(detail)),
            ],
        ),
{
    let none = Seq::<EventView>::empty();
    let one = none.push(EventView::Start);
    let two = one.push(EventView::ConnectFailed(detail));
    run_extends(Phase::Idle, config, location, none, EventView::Start);
    run_extends(Phase::Idle, config, location, one, EventView::ConnectFailed(detail));
    assert(two =~= seq![EventView::Start, EventView::ConnectFailed(detail)]);
    assert(run(Phase::Idle, config, location, two).1 =~= seq![
        connect_request(config),
        ActionView::Fail(FetchErrorView::Connection(detail)),
    ]);
}

/// A fetch whose assignment the broker refuses has asked for the connection
/// and the assignment, reports the assignment error, and never polls.
pub proof fn unknown_partition(config: ConfigView, location: LocationView, detail: Seq<char>)
    requires
        location.assignable(),
    ensures
        run(
            Phase::Idle,
            config,
            location,
            seq![EventView::Start, EventView::Connected, EventView::AssignFailed(detail)],
        ) == (
            Phase::Done,
            seq![
                connect_request(config),
                assign_request(location),
                ActionView::Fail(FetchErrorView::Assignment(detail)),
            ],
        ),
{
    let none = Seq::<EventView>::empty();
    let one = none.push(EventView::Start);
    let two = one.push(EventView::Connected);
    let three = two.push(EventView::AssignFailed(detail));
    run_extends(Phase::Idle, config, location, none, EventView::Start);
    run_extends(Phase::Idle, config, location, one, EventView::Connected);
    run_extends(Phase::Idle, config, location, two, EventView::AssignFailed(detail));
    assert(three =~= seq![
        EventView::Start,
        EventView::Connected,
        EventView::AssignFailed(detail),
    ]);
    assert(run(Phase::Idle, config, location, three).1 =~= seq![
        connect_request(config),
        assign_request(location),
        ActionView::Fail(FetchErrorView::Assignment(detail)),
    ]);
}

/// Once a fetch has its outcome, no event moves it or draws another action.
pub proof fn outcome_is_final(config: ConfigView, location: LocationView, event: EventView)
    ensures
        transition(Phase::Done, config, location, event) is None,
{
}

} // verus!
