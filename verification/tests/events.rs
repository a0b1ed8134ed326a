use kopuz::channel::{Inbox, Outbox};
use kopuz::event::{
    button_event, on_button_pressed, on_position_change, poll_event, polled, post_event, SystemEvent,
    BUTTON_NEXT, BUTTON_PAUSE, BUTTON_PLAY, BUTTON_PREVIOUS,
};
use tokio::sync::mpsc::error::TryRecvError;
use tokio::sync::mpsc::unbounded_channel;
use tokio::sync::Mutex;

fn press(outbox: &mut Outbox<SystemEvent>, button: i32) -> Result<Option<SystemEvent>, u32> {
    on_button_pressed(outbox, Some(Ok(button)))
}

fn seek(outbox: &mut Outbox<SystemEvent>, ticks: i64) -> Result<Option<SystemEvent>, u32> {
    on_position_change(outbox, Some(Ok(ticks)))
}

#[test]
fn handlers_without_arguments_send_nothing() {
    let (tx, mut rx) = unbounded_channel();
    let mut outbox = Outbox::new(tx);
    assert_eq!(on_button_pressed::<u32>(&mut outbox, None), Ok(None));
    assert_eq!(on_button_pressed(&mut outbox, Some(Err(7u32))), Err(7));
    assert_eq!(on_position_change::<u32>(&mut outbox, None), Ok(None));
    assert_eq!(on_position_change(&mut outbox, Some(Err(8u32))), Err(8));
    assert!(rx.try_recv().is_err());
}

#[test]
fn buttons_stand_for_events() {
    assert_eq!(button_event(BUTTON_PLAY), Some(SystemEvent::Toggle));
    assert_eq!(button_event(BUTTON_PAUSE), Some(SystemEvent::Toggle));
    assert_eq!(button_event(BUTTON_NEXT), Some(SystemEvent::Next));
    assert_eq!(button_event(BUTTON_PREVIOUS), Some(SystemEvent::Prev));
    for other in [-1, 2, 3, 4, 5, 8, 9, 10] {
        assert_eq!(button_event(other), None);
    }
}

#[test]
fn events_arrive_in_order() {
    let (tx, rx) = unbounded_channel();
    let mut outbox = Outbox::new(tx);
    let queue = Mutex::new(rx);
    let mut inbox = Inbox::new(&queue);
    assert_eq!(poll_event(Some(&mut inbox)), None);
    assert_eq!(post_event(&mut outbox, SystemEvent::Play), None);
    assert_eq!(press(&mut outbox, BUTTON_NEXT), Ok(Some(SystemEvent::Next)));
    assert_eq!(press(&mut outbox, 2), Ok(None));
    assert_eq!(seek(&mut outbox, 25_000_000), Ok(Some(SystemEvent::Seek(25_000_000))));
    assert_eq!(poll_event(Some(&mut inbox)), Some(SystemEvent::Play));
    assert_eq!(poll_event(Some(&mut inbox)), Some(SystemEvent::Next));
    assert_eq!(poll_event(Some(&mut inbox)), Some(SystemEvent::Seek(25_000_000)));
    assert_eq!(poll_event(Some(&mut inbox)), None);
}

#[test]
fn no_event_without_queue() {
    assert_eq!(poll_event(None), None);
}

#[test]
fn no_event_while_another_task_holds_the_queue() {
    let (tx, rx) = unbounded_channel();
    let mut outbox = Outbox::new(tx);
    let queue = Mutex::new(rx);
    let mut inbox = Inbox::new(&queue);
    assert_eq!(post_event(&mut outbox, SystemEvent::Pause), None);
    {
        let guard = queue.try_lock();
        assert!(guard.is_ok());
        assert_eq!(poll_event(Some(&mut inbox)), None);
    }
    assert_eq!(poll_event(Some(&mut inbox)), Some(SystemEvent::Pause));
}

#[test]
fn pending_events_outlive_the_senders() {
    let (tx, rx) = unbounded_channel();
    let mut outbox = Outbox::new(tx);
    let queue = Mutex::new(rx);
    let mut inbox = Inbox::new(&queue);
    assert_eq!(post_event(&mut outbox, SystemEvent::Toggle), None);
    drop(outbox);
    assert_eq!(poll_event(Some(&mut inbox)), Some(SystemEvent::Toggle));
    assert_eq!(poll_event(Some(&mut inbox)), None);
}

#[test]
fn receive_outcomes() {
    assert_eq!(polled(Ok(Ok(SystemEvent::Prev))), Some(SystemEvent::Prev));
    assert_eq!(polled(Ok(Err(TryRecvError::Empty))), None);
    assert_eq!(polled(Ok(Err(TryRecvError::Disconnected))), None);
    let lock = Mutex::new(());
    let _guard = lock.try_lock();
    assert_eq!(lock.try_lock().map(|_| ()).err().map(|held| polled(Err(held))), Some(None));
}

#[test]
fn refused_events_come_back() {
    let (tx, rx) = unbounded_channel();
    let mut outbox = Outbox::new(tx);
    drop(rx);
    assert_eq!(post_event(&mut outbox, SystemEvent::Seek(7)), Some(SystemEvent::Seek(7)));
    // The handlers do not mind.
    assert_eq!(press(&mut outbox, BUTTON_PLAY), Ok(Some(SystemEvent::Toggle)));
    assert_eq!(seek(&mut outbox, -1), Ok(Some(SystemEvent::Seek(-1))));
}
