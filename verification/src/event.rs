//! Events that the operating system's media controls raise.
use crate::channel::{Attempt, Inbox, Outbox};
use vstd::prelude::*;

verus! {

/// A request of the user, made through media keys, the system's media overlay
/// or the taskbar thumbnail toolbar.
#[derive(Debug, Clone, Copy, PartialEq, Eq, Structural)]
pub enum SystemEvent {
    Play,
    Pause,
    Toggle,
    Next,
    Prev,
    /// Jump to a position, in ticks of 100 nanoseconds.
    Seek(i64),
}

/// The button numbers of the system media transport controls that the player
/// answers to.
pub const BUTTON_PLAY: i32 = 0;

pub const BUTTON_PAUSE: i32 = 1;

pub const BUTTON_NEXT: i32 = 6;

pub const BUTTON_PREVIOUS: i32 = 7;

/// The event that a transport-control button stands for. Play and pause both
/// toggle, and every button that the player does not answer to stands for
/// nothing.
pub open spec fn button_event_spec(button: i32) -> Option<SystemEvent> {
    if button == BUTTON_PLAY || button == BUTTON_PAUSE {
        Some(SystemEvent::Toggle)
    } else if button == BUTTON_NEXT {
        Some(SystemEvent::Next)
    } else if button == BUTTON_PREVIOUS {
        Some(SystemEvent::Prev)
    } else {
        None
    }
}

/// Maps a transport-control button to its event.
pub fn button_event(button: i32) -> (event: Option<SystemEvent>)
    ensures
        event == button_event_spec(button),
        button == 0 || button == 1 ==> event == Some(SystemEvent::Toggle),
        button == 6 ==> event == Some(SystemEvent::Next),
        button == 7 ==> event == Some(SystemEvent::Prev),
        button != 0 && button != 1 && button != 6 && button != 7 ==> event is None,
{
    if button == BUTTON_PLAY || button == BUTTON_PAUSE {
        Some(SystemEvent::Toggle)
    } else if button == BUTTON_NEXT {
        Some(SystemEvent::Next)
    } else if button == BUTTON_PREVIOUS {
        Some(SystemEvent::Prev)
    } else {
        None
    }
}

/// Sends an event to the player and returns it again when nobody listens any
/// more, which only the listener decides.
pub fn post_event(outbox: &mut Outbox<SystemEvent>, event: SystemEvent) -> (refused: Option<
    SystemEvent,
>)
    ensures
        final(outbox).channel() == old(outbox).channel(),
        final(outbox).sent() == old(outbox).sent().push(event),
        refused == (if final(outbox).refused() {
            Some(event)
        } else {
            None
        }),
{
    match outbox.send(event) {
        Ok(()) => None,
        Err(returned) => Some(returned),
    }
}

/// The messages sent once an event, if there is one, has been sent too.
pub open spec fn sent_with(sent: Seq<SystemEvent>, event: Option<SystemEvent>) -> Seq<SystemEvent> {
    match event {
        Some(e) => sent.push(e),
        None => sent,
    }
}

/// Handles a pressed transport-control button: sends the event that it stands
/// for, if any, and returns that event. `pressed` is missing when the system
/// names no button, and holds the error when the button could not be read;
/// nothing is sent then. A closed channel is ignored.
pub fn on_button_pressed<E>(
    outbox: &mut Outbox<SystemEvent>,
    pressed: Option<Result<i32, E>>,
) -> (posted: Result<Option<SystemEvent>, E>)
    ensures
        posted == (match pressed {
            None => Ok(None),
            Some(Ok(button)) => Ok(button_event_spec(button)),
            Some(Err(error)) => Err(error),
        }),
        final(outbox).channel() == old(outbox).channel(),
        posted matches Ok(Some(event)) ==> final(outbox).sent() == old(outbox).sent().push(event),
        !(posted matches Ok(Some(_))) ==> final(outbox).sent() == old(outbox).sent(),
        pressed matches Some(Ok(button)) ==> {
            &&& button == 0 || button == 1 ==> posted == Ok::<_, E>(Some(SystemEvent::Toggle))
            &&& button == 6 ==> posted == Ok::<_, E>(Some(SystemEvent::Next))
            &&& button == 7 ==> posted == Ok::<_, E>(Some(SystemEvent::Prev))
            &&& button != 0 && button != 1 && button != 6 && button != 7 ==> posted == Ok::<
                Option<SystemEvent>,
                E,
            >(None)
            &&& button == 0 || button == 1 ==> final(outbox).sent() == old(outbox).sent().push(
                SystemEvent::Toggle,
            )
            &&& button == 6 ==> final(outbox).sent() == old(outbox).sent().push(SystemEvent::Next)
            &&& button == 7 ==> final(outbox).sent() == old(outbox).sent().push(SystemEvent::Prev)
            &&& button != 0 && button != 1 && button != 6 && button != 7
                ==> final(outbox).sent() == old(outbox).sent()
        },
        final(outbox).sent() == (match posted {
            Ok(event) => sent_with(old(outbox).sent(), event),
            Err(_) => old(outbox).sent(),
        }),
        !(posted matches Ok(Some(_))) ==> final(outbox).refused() == old(outbox).refused(),
{
    match pressed {
        None => Ok(None),
        Some(Err(error)) => Err(error),
        Some(Ok(button)) => {
            let event = button_event(button);
            if let Some(e) = event {
                let _ = post_event(outbox, e);
            }
            Ok(event)
        },
    }
}

/// Handles a request to change the playback position: sends a seek to that
/// position and returns it. `requested` is missing when the system names no
/// position, and holds the error when it could not be read; nothing is sent
/// then. A closed channel is ignored.
pub fn on_position_change<E>(
    outbox: &mut Outbox<SystemEvent>,
    requested: Option<Result<i64, E>>,
) -> (posted: Result<Option<SystemEvent>, E>)
    ensures
        posted == (match requested {
            None => Ok(None),
            Some(Ok(ticks)) => Ok(Some(SystemEvent::Seek(ticks))),
            Some(Err(error)) => Err(error),
        }),
        final(outbox).channel() == old(outbox).channel(),
        posted matches Ok(Some(event)) ==> final(outbox).sent() == old(outbox).sent().push(event),
        !(posted matches Ok(Some(_))) ==> final(outbox).sent() == old(outbox).sent(),
        final(outbox).sent() == (match posted {
            Ok(event) => sent_with(old(outbox).sent(), event),
            Err(_) => old(outbox).sent(),
        }),
        !(posted matches Ok(Some(_))) ==> final(outbox).refused() == old(outbox).refused(),
{
    match requested {
        None => Ok(None),
        Some(Err(error)) => Err(error),
        Some(Ok(ticks)) => {
            let event = SystemEvent::Seek(ticks);
            let _ = post_event(outbox, event);
            Ok(Some(event))
        },
    }
}

/// A button raises an event exactly when it is play, pause, next or previous;
/// play and pause only ever toggle. A call of a handler sends at most one
/// event.
pub proof fn buttons_only_toggle_or_skip(button: i32, sent: Seq<SystemEvent>)
    ensures
        button_event_spec(button) is Some <==> (button == BUTTON_PLAY || button == BUTTON_PAUSE
            || button == BUTTON_NEXT || button == BUTTON_PREVIOUS),
        button_event_spec(button) != Some(SystemEvent::Play),
        button_event_spec(button) != Some(SystemEvent::Pause),
        sent_with(sent, button_event_spec(button)).len() <= sent.len() + 1,
{
}

/// What a poll reports for the outcome of an attempt: the event that was
/// received, and nothing for a queue that another task holds or a channel that
/// is empty or disconnected.
pub open spec fn polled_spec(outcome: Attempt<SystemEvent>) -> Option<SystemEvent> {
    match outcome {
        Ok(Ok(event)) => Some(event),
        Ok(Err(_)) => None,
        Err(_) => None,
    }
}

/// What a poll reports for the outcome of an attempt.
pub fn polled(outcome: Attempt<SystemEvent>) -> (event: Option<SystemEvent>)
    ensures
        event == polled_spec(outcome),
        outcome matches Ok(Ok(e)) ==> event == Some(e),
        !(outcome matches Ok(Ok(_))) ==> event is None,
{
    match outcome {
        Ok(Ok(event)) => Some(event),
        Ok(Err(_)) => None,
        Err(_) => None,
    }
}

/// Whether one attempt was made and its outcome reported.
pub open spec fn is_poll(
    before: Seq<Attempt<SystemEvent>>,
    after: Seq<Attempt<SystemEvent>>,
    event: Option<SystemEvent>,
) -> bool {
    &&& after.len() == before.len() + 1
    &&& after.drop_last() =~= before
    &&& event == polled_spec(after.last())
}

/// Takes the oldest pending event without waiting. There is none when the
/// queue does not exist yet, when another task is holding it, and when nothing
/// is queued. The queue is asked once, and what it gives out is reported; which
/// outcome the attempt has is up to the other tasks.
pub fn poll_event(inbox: Option<&mut Inbox<'_, SystemEvent>>) -> (event: Option<SystemEvent>)
    ensures
        inbox is None ==> event is None,
        inbox matches Some(i) ==> {
            &&& final(i).queue() == (*i).queue()
            &&& is_poll((*i).attempts(), final(i).attempts(), event)
            &&& final(i).attempts().len() == (*i).attempts().len() + 1
            &&& final(i).attempts().drop_last() == (*i).attempts()
            &&& final(i).attempts().last() matches Ok(Ok(e)) ==> event == Some(e)
            &&& !(final(i).attempts().last() matches Ok(Ok(_))) ==> event is None
        },
{
    match inbox {
        None => None,
        Some(i) => polled(i.try_take()),
    }
}

/// The events that the queue gave out over a run of attempts, in order.
pub open spec fn given_out(attempts: Seq<Attempt<SystemEvent>>) -> Seq<SystemEvent>
    decreases attempts.len(),
{
    if attempts.len() == 0 {
        Seq::empty()
    } else {
        match attempts.last() {
            Ok(Ok(event)) => given_out(attempts.drop_last()).push(event),
            _ => given_out(attempts.drop_last()),
        }
    }
}

/// The events among the results of a run of polls, in order.
pub open spec fn reported(results: Seq<Option<SystemEvent>>) -> Seq<SystemEvent>
    decreases results.len(),
{
    if results.len() == 0 {
        Seq::empty()
    } else {
        match results.last() {
            Some(event) => reported(results.drop_last()).push(event),
            None => reported(results.drop_last()),
        }
    }
}

/// No event is lost, repeated or reordered by polling: over any run of polls,
/// where `logs` holds the attempts on record before the first poll and after
/// each one, the events reported are exactly those that the queue gave out
/// meanwhile, in order and each once.
pub proof fn polls_report_what_was_given_out(
    logs: Seq<Seq<Attempt<SystemEvent>>>,
    results: Seq<Option<SystemEvent>>,
)
    requires
        logs.len() == results.len() + 1,
        forall|i: int|
            0 <= i < results.len() ==> is_poll(logs[i], logs[i + 1], #[trigger] results[i]),
    ensures
        given_out(logs.last()) == given_out(logs[0]) + reported(results),
        logs.last().len() == logs[0].len() + results.len(),
    decreases results.len(),
{
    if results.len() == 0 {
        assert(given_out(logs[0]) + reported(results) =~= given_out(logs[0]));
    } else {
        let n = results.len() - 1;
        let front = results.drop_last();
        assert forall|i: int| 0 <= i < front.len() implies is_poll(
            logs.drop_last()[i],
            logs.drop_last()[i + 1],
            #[trigger] front[i],
        ) by {
            assert(is_poll(logs[i], logs[i + 1], results[i]));
        }
        polls_report_what_was_given_out(logs.drop_last(), front);
        assert(is_poll(logs[n], logs[n + 1], results[n]));
        assert(logs.last().drop_last() == logs[n]);
        assert(given_out(logs.last()) =~= given_out(logs[0]) + reported(results));
    }
}

/// While another task holds the queue, a poll reports nothing and takes nothing
/// out.
pub proof fn held_queue_is_left_alone(
    before: Seq<Attempt<SystemEvent>>,
    after: Seq<Attempt<SystemEvent>>,
    event: Option<SystemEvent>,
)
    requires
        is_poll(before, after, event),
        after.last() is Err,
    ensures
        event is None,
        given_out(after) == given_out(before),
{
    assert(after.drop_last() == before);
}

/// A queue that gives out the events that were sent, first in first out, and
/// is then found empty, is seen as such by whoever polls: the results are these
/// events in their order, each once, and then nothing.
pub proof fn polls_see_the_queue_order(
    sent: Seq<SystemEvent>,
    logs: Seq<Seq<Attempt<SystemEvent>>>,
    results: Seq<Option<SystemEvent>>,
)
    requires
        results.len() == sent.len() + 1,
        logs.len() == results.len() + 1,
        forall|i: int|
            0 <= i < results.len() ==> is_poll(logs[i], logs[i + 1], #[trigger] results[i]),
        forall|i: int|
            0 <= i < sent.len() ==> (logs[i + 1].last() matches Ok(Ok(event)) && event
                == #[trigger] sent[i]),
        logs.last().last() matches Ok(Err(_)),
    ensures
        forall|i: int| 0 <= i < sent.len() ==> results[i] == Some(#[trigger] sent[i]),
        results.last() is None,
        reported(results) == sent,
{
    assert forall|i: int| 0 <= i < sent.len() implies results[i] == Some(#[trigger] sent[i]) by {
        assert(is_poll(logs[i], logs[i + 1], results[i]));
    }
    let n = sent.len() as int;
    assert(is_poll(logs[n], logs[n + 1], results[n]));
    all_events_are_reported(sent, results.drop_last());
}

proof fn all_events_are_reported(sent: Seq<SystemEvent>, results: Seq<Option<SystemEvent>>)
    requires
        results.len() == sent.len(),
        forall|i: int| 0 <= i < sent.len() ==> results[i] == Some(#[trigger] sent[i]),
    ensures
        reported(results) == sent,
    decreases sent.len(),
{
    if sent.len() > 0 {
        let front = sent.drop_last();
        assert forall|i: int| 0 <= i < front.len() implies results.drop_last()[i] == Some(
            #[trigger] front[i],
        ) by {
            assert(results[i] == Some(sent[i]));
        }
        all_events_are_reported(front, results.drop_last());
        assert(results[sent.len() - 1] == Some(sent[sent.len() - 1]));
        assert(front.push(sent.last()) =~= sent);
    } else {
        assert(reported(results) =~= sent);
    }
}

/// What a button does follows from its number alone: 0 (play) and 1 (pause)
/// toggle, 6 goes to the next track, 7 to the previous one, and every other
/// number does nothing.
pub proof fn buttons_by_number(button: i32)
    ensures
        button_event_spec(button) == Some(SystemEvent::Toggle) <==> 0 <= button <= 1,
        button_event_spec(button) == Some(SystemEvent::Next) <==> button == 6,
        button_event_spec(button) == Some(SystemEvent::Prev) <==> button == 7,
        button_event_spec(button) is None <==> button < 0 || 2 <= button <= 5 || button > 7,
{
}

/// Sending an event, whichever it is, adds that very event behind those sent
/// before and disturbs none of them; without an event nothing is added.
pub proof fn sending_adds_the_event(sent: Seq<SystemEvent>, event: SystemEvent)
    ensures
        sent_with(sent, Some(event)).len() == sent.len() + 1,
        sent_with(sent, Some(event)).last() == event,
        forall|i: int|
            0 <= i < sent.len() ==> #[trigger] sent_with(sent, Some(event))[i] == sent[i],
        sent_with(sent, None) == sent,
{
}

/// Whatever is received is reported: the result of a poll is the event that the
/// attempt brought, whichever event that is, and nothing only where the
/// attempt brought none.
pub proof fn received_event_is_reported(
    before: Seq<Attempt<SystemEvent>>,
    after: Seq<Attempt<SystemEvent>>,
    event: Option<SystemEvent>,
)
    requires
        is_poll(before, after, event),
    ensures
        after.len() == before.len() + 1,
        forall|i: int| 0 <= i < before.len() ==> #[trigger] after[i] == before[i],
        after[before.len() as int] matches Ok(Ok(e)) ==> event == Some(e),
        event is Some ==> (after[before.len() as int] matches Ok(Ok(_))),
{
    assert forall|i: int| 0 <= i < before.len() implies #[trigger] after[i] == before[i] by {
        assert(after.drop_last()[i] == before[i]);
    }
}

} // verus!
