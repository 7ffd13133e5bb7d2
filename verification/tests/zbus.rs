use hat::std_runtime::blocking_channel::BlockingChannel;
use hat::zbus::work_queue_backend::{
    ReaderPoll, WorkQueueClaimerFuture, WorkQueuePoll, WorkQueuePublisherFuture, WorkQueueReaderFuture,
};
use std::sync::Arc;

#[test]
fn claimer_submits_then_completes() {
    let mut f: WorkQueueClaimerFuture<u32, &'static str> = WorkQueueClaimerFuture::new(0x1000);
    assert_eq!(*f.channel_reference(), 0x1000);
    assert!(matches!(f.poll("w"), WorkQueuePoll::Submit));
    assert_eq!(f.complete(), Some("w"));
    assert!(matches!(f.poll("w2"), WorkQueuePoll::Ready));
}

#[test]
fn publisher_keeps_its_message() {
    let mut f: WorkQueuePublisherFuture<u32, u8, i32> = WorkQueuePublisherFuture::new(1, -4);
    assert_eq!(*f.data(), -4);
    assert!(matches!(f.poll(1), WorkQueuePoll::Submit));
    assert_eq!(f.complete(), Some(1));
    assert!(matches!(f.poll(2), WorkQueuePoll::Ready));
}

#[test]
fn reader_with_nothing_written_gives_the_default() {
    let mut f: WorkQueueReaderFuture<u32, u8, i32> = WorkQueueReaderFuture::new(7);
    assert!(matches!(f.poll(1), ReaderPoll::Submit));
    assert_eq!(f.complete(), Some(1));
    assert!(matches!(f.poll(1), ReaderPoll::Ready(0)));
}

#[test]
fn reader_hands_out_the_message_read() {
    let mut f: WorkQueueReaderFuture<u32, u8, i32> = WorkQueueReaderFuture::new(7);
    assert!(matches!(f.poll(1), ReaderPoll::Submit));
    // the work queue writes the message into the buffer
    *f.buffer_mut() = Some(42);
    assert_eq!(f.complete(), Some(1));
    assert!(matches!(f.poll(1), ReaderPoll::Ready(42)));
}

#[test]
fn blocking_channel_sends_and_receives() {
    let channel: BlockingChannel<u32> = BlockingChannel::new();
    let sender = channel.new_sender();
    let receiver = channel.new_receiver();
    assert!(Arc::ptr_eq(&sender, &channel.new_sender()));
    assert!(Arc::ptr_eq(&receiver, &channel.new_receiver()));
    assert!(receiver.lock().unwrap().try_recv().is_err());
    sender.lock().unwrap().send(5).unwrap();
    sender.lock().unwrap().send(6).unwrap();
    assert_eq!(receiver.lock().unwrap().recv().unwrap(), 5);
    assert_eq!(receiver.lock().unwrap().try_recv().unwrap(), 6);
}
