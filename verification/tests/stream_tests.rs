use espcam::image::Frame;
use espcam::stream::{
    connection_action, frame_payload, subscriber_step, ConnectionAction, SubscriberAction, SubscriberEvent,
};

#[test]
fn small_frames_are_copied() {
    let f = Frame::new(1, 1, vec![1, 2, 3, 4]);
    let payload = frame_payload(&f).expect("fits");
    assert_eq!(payload.as_slice(), &[1, 2, 3, 4]);
}

#[test]
fn frames_up_to_capacity_fit() {
    let data: Vec<u8> = (0..65536).map(|i| (i % 256) as u8).collect();
    let f = Frame::new(1, 1, data.clone());
    let payload = frame_payload(&f).expect("fits exactly");
    assert_eq!(payload.as_slice(), &data[..]);
}

#[test]
fn oversized_frames_are_skipped() {
    let f = Frame::new(1, 1, vec![0; 65537]);
    assert!(frame_payload(&f).is_none());
}

#[test]
fn subscriber_decisions() {
    assert_eq!(subscriber_step(SubscriberEvent::Message), SubscriberAction::SendFrame);
    assert_eq!(subscriber_step(SubscriberEvent::Lagged(3)), SubscriberAction::ReportLag(3));
    assert_eq!(subscriber_step(SubscriberEvent::Empty), SubscriberAction::SleepThenPoll);
    assert_eq!(subscriber_step(SubscriberEvent::Sent), SubscriberAction::Poll);
    assert_eq!(subscriber_step(SubscriberEvent::SendFailed), SubscriberAction::Disconnect);
}

#[test]
fn connection_decisions() {
    assert_eq!(connection_action(true, false), ConnectionAction::Subscribe);
    assert_eq!(connection_action(true, true), ConnectionAction::Subscribe);
    assert_eq!(connection_action(false, true), ConnectionAction::Closed);
    assert_eq!(connection_action(false, false), ConnectionAction::Ignore);
}
