//! Signals to event groups.

use vstd::prelude::*;
use crate::efi::{EfiError, Guid, SUCCESS, is_service_answer, service_result, to_result};

verus! {

/// Event type: the notification function runs when the event is signaled.
pub const EVT_NOTIFY_SIGNAL: u32 = 0x0000_0200;

/// Task priority level of callbacks.
pub const TPL_CALLBACK: usize = 8;

/// A call to make to signal an event group. An event is a plain number.
#[derive(Clone, Copy, Debug, PartialEq, Eq)]
pub enum EventAction {
    /// Create an event in `group`, with a notification function that does
    /// nothing and without a context.
    CreateEvent { event_type: u32, notify_tpl: usize, group: Guid },
    /// Signal this event.
    SignalEvent(usize),
    /// Close this event.
    CloseEvent(usize),
    /// Nothing is left to do; this is the result.
    Finished(Result<(), EfiError>),
}

/// The answer to a call: what was asked for, or the status of the failure.
#[derive(Clone, Copy, Debug, PartialEq, Eq)]
pub enum EventAnswer {
    /// The event that was created.
    Created(Result<usize, usize>),
    /// How the signal ended.
    Signaled(Result<(), usize>),
    /// How closing the event ended.
    Closed(Result<(), usize>),
}

/// Whether `answer` is one that `action` can have.
pub open spec fn answers_event_action(action: EventAction, answer: EventAnswer) -> bool {
    match (action, answer) {
        (
            EventAction::CreateEvent { event_type, notify_tpl, group },
            EventAnswer::Created(created),
        ) => is_service_answer(created),
        (EventAction::SignalEvent(event), EventAnswer::Signaled(signaled)) => is_service_answer(
            signaled,
        ),
        (EventAction::CloseEvent(event), EventAnswer::Closed(closed)) => is_service_answer(closed),
        _ => false,
    }
}

/// The signal to an event group: an event of the group is created, signaled
/// and closed.
#[derive(Clone, Copy, Debug, PartialEq, Eq)]
pub enum EventGroupSignal {
    /// The event is to be created; holds the group.
    Create(Guid),
    /// The event is to be signaled.
    Signal { event: usize },
    /// The event is to be closed; holds how the signal ended.
    Close { event: usize, signaled: Result<(), EfiError> },
    /// Nothing is left to do; holds the result.
    Finished(Result<(), EfiError>),
}

/// Starts to signal the event group `group_guid`.
pub fn signal_event_group(group_guid: Guid) -> (signal: EventGroupSignal)
    ensures
        signal == EventGroupSignal::Create(group_guid),
{
    EventGroupSignal::Create(group_guid)
}

impl EventGroupSignal {
    /// The call to make next.
    pub open spec fn spec_action(self) -> EventAction {
        match self {
            EventGroupSignal::Create(group) => EventAction::CreateEvent {
                event_type: EVT_NOTIFY_SIGNAL,
                notify_tpl: TPL_CALLBACK,
                group,
            },
            EventGroupSignal::Signal { event } => EventAction::SignalEvent(event),
            EventGroupSignal::Close { event, signaled } => EventAction::CloseEvent(event),
            EventGroupSignal::Finished(result) => EventAction::Finished(result),
        }
    }

    /// What follows from the answer to that call. An error of the signal goes
    /// before one of closing the event.
    pub open spec fn spec_next(self, answer: EventAnswer) -> EventGroupSignal {
        match (self, answer) {
            (EventGroupSignal::Create(group), EventAnswer::Created(created)) => match created {
                Ok(event) => EventGroupSignal::Signal { event },
                Err(status) => EventGroupSignal::Finished(Err(EfiError::of_status(status))),
            },
            (EventGroupSignal::Signal { event }, EventAnswer::Signaled(signaled)) => {
                EventGroupSignal::Close { event, signaled: service_result(signaled) }
            },
            (
                EventGroupSignal::Close { event, signaled },
                EventAnswer::Closed(closed),
            ) => match signaled {
                Ok(_) => EventGroupSignal::Finished(service_result(closed)),
                Err(error) => EventGroupSignal::Finished(Err(error)),
            },
            _ => self,
        }
    }

    /// The call to make next.
    pub fn action(&self) -> (action: EventAction)
        ensures
            action == self.spec_action(),
    {
        match *self {
            EventGroupSignal::Create(group) => EventAction::CreateEvent {
                event_type: EVT_NOTIFY_SIGNAL,
                notify_tpl: TPL_CALLBACK,
                group,
            },
            EventGroupSignal::Signal { event } => EventAction::SignalEvent(event),
            EventGroupSignal::Close { event, .. } => EventAction::CloseEvent(event),
            EventGroupSignal::Finished(result) => EventAction::Finished(result),
        }
    }

    /// Takes the answer to the call.
    pub fn advance(self, answer: EventAnswer) -> (next: EventGroupSignal)
        requires
            answers_event_action(self.spec_action(), answer),
        ensures
            next == self.spec_next(answer),
    {
        match (self, answer) {
            (EventGroupSignal::Create(_), EventAnswer::Created(created)) => match created {
                Ok(event) => EventGroupSignal::Signal { event },
                Err(status) => EventGroupSignal::Finished(Err(EfiError::from_status(status))),
            },
            (EventGroupSignal::Signal { event }, EventAnswer::Signaled(signaled)) => {
                EventGroupSignal::Close { event, signaled: to_result(signaled) }
            },
            (
                EventGroupSignal::Close { signaled, .. },
                EventAnswer::Closed(closed),
            ) => match signaled {
                Ok(_) => EventGroupSignal::Finished(to_result(closed)),
                Err(error) => EventGroupSignal::Finished(Err(error)),
            },
            _ => self,
        }
    }
}

/// An event that was created is signaled once and then closed, also if the
/// signal failed. The result is the error of the signal, or else that of
/// closing the event, or else success.
pub proof fn created_event_is_signaled_and_closed(
    group: Guid,
    event: usize,
    signaled: Result<(), usize>,
    closed: Result<(), usize>,
)
    ensures
        ({
            let signal = EventGroupSignal::Create(group).spec_next(EventAnswer::Created(Ok(event)));
            let close = signal.spec_next(EventAnswer::Signaled(signaled));
            let done = close.spec_next(EventAnswer::Closed(closed));
            &&& signal.spec_action() == EventAction::SignalEvent(event)
            &&& close.spec_action() == EventAction::CloseEvent(event)
            &&& done.spec_action() == EventAction::Finished(
                if signaled is Err {
                    service_result(signaled)
                } else {
                    service_result(closed)
                },
            )
        }),
{
}

/// Without an event nothing is signaled, and the error is that of creating it.
pub proof fn no_signal_without_event(group: Guid, status: usize)
    requires
        status != SUCCESS,
    ensures
        EventGroupSignal::Create(group).spec_next(EventAnswer::Created(Err(status))).spec_action()
            == EventAction::Finished(Err(EfiError::of_status(status))),
{
}

/// The event that is created is one that other components of the group hear: it
/// is of the type that is notified on a signal (0x200), at the level of
/// callbacks (8), in just the group that was named.
pub proof fn event_is_created_in_group(group: Guid)
    ensures
        EventGroupSignal::Create(group).spec_action() == (EventAction::CreateEvent {
            event_type: 0x200,
            notify_tpl: 8,
            group,
        }),
{
}

/// The result of a signal to a group is a success exactly if the event was
/// created, signaled and closed in success; otherwise it is the error of the
/// first of these that failed. Whatever fails, an event that was created is
/// closed.
pub proof fn signal_reports_first_failure(
    group: Guid,
    created: Result<usize, usize>,
    signaled: Result<(), usize>,
    closed: Result<(), usize>,
)
    ensures
        ({
            let first = EventGroupSignal::Create(group).spec_next(EventAnswer::Created(created));
            let second = first.spec_next(EventAnswer::Signaled(signaled));
            let third = second.spec_next(EventAnswer::Closed(closed));
            match created {
                Err(status) => first.spec_action() == EventAction::Finished(
                    Err(EfiError::of_status(status)),
                ),
                Ok(event) => {
                    &&& first.spec_action() == EventAction::SignalEvent(event)
                    &&& second.spec_action() == EventAction::CloseEvent(event)
                    &&& third.spec_action() == EventAction::Finished(
                        match (signaled, closed) {
                            (Err(status), _) => Err(EfiError::of_status(status)),
                            (Ok(_), Err(status)) => Err(EfiError::of_status(status)),
                            (Ok(_), Ok(_)) => Ok(()),
                        },
                    )
                },
            }
        }),
{
}

} // verus!
