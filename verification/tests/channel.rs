use async_std::channel::{TryRecvError, TrySendError};
use async_std::future::timeout;
use async_std::task;
use kbd_backlight::channel::command_channel;
use kbd_backlight::config::COMMAND_QUEUE_CAPACITY;
use std::time::Duration;

#[test]
fn command_queue_holds_one_command() {
    let (tx, rx) = command_channel();
    assert_eq!(tx.capacity(), Some(1));
    assert_eq!(rx.capacity(), Some(1));
    assert_eq!(tx.capacity(), Some(COMMAND_QUEUE_CAPACITY));
    assert!(tx.is_empty());
}

#[test]
fn two_ends_belong_to_one_queue() {
    let (tx, rx) = command_channel();
    assert_eq!(tx.try_send(100), Ok(()));
    assert_eq!(rx.try_recv(), Ok(100));
    assert_eq!(rx.try_recv(), Err(TryRecvError::Empty));
}

#[test]
fn second_command_does_not_overwrite_the_first() {
    let (tx, rx) = command_channel();
    assert_eq!(tx.try_send(100), Ok(()));
    assert!(tx.is_full());
    assert_eq!(tx.try_send(98), Err(TrySendError::Full(98)));
    assert_eq!(rx.len(), 1);
    assert_eq!(rx.try_recv(), Ok(100));
    assert_eq!(rx.try_recv(), Err(TryRecvError::Empty));
    assert_eq!(tx.try_send(98), Ok(()));
    assert_eq!(rx.try_recv(), Ok(98));
    assert_eq!(rx.try_recv(), Err(TryRecvError::Empty));
}

#[test]
fn producer_waits_until_the_queued_command_is_taken() {
    task::block_on(async {
        let (tx, rx) = command_channel();
        tx.send(100).await.expect("queue is open");
        let blocked = timeout(Duration::from_millis(200), tx.send(98)).await;
        assert!(blocked.is_err());
        assert_eq!(rx.len(), 1);

        let producer = task::spawn({
            let tx = tx.clone();
            async move { tx.send(98).await }
        });
        task::sleep(Duration::from_millis(100)).await;
        assert_eq!(rx.len(), 1);
        assert_eq!(rx.recv().await, Ok(100));
        assert_eq!(producer.await, Ok(()));
        assert_eq!(rx.recv().await, Ok(98));
        assert!(rx.is_empty());
    });
}
