//! The streaming side: copying frames into the fixed-size messages that are
//! published to WebSocket subscribers, and what each subscriber and
//! connection does next.

use vstd::prelude::*;

use crate::image::JpegImage;

verus! {

/// Largest frame, in bytes, that fits in one published message.
pub const MAX_FRAME_BYTES: usize = 65536;

/// One published frame: up to `MAX_FRAME_BYTES` JPEG bytes.
pub type FrameData = heapless::Vec<u8, 65536>;

#[verifier::external_type_specification]
#[verifier::external_body]
#[verifier::reject_recursive_types(T)]
pub struct ExHeaplessVec<T, const N: usize>(heapless::Vec<T, N>);

/// The bytes a published frame holds.
pub uninterp spec fn frame_bytes(v: heapless::Vec<u8, 65536>) -> Seq<u8>;

/// Calls `heapless::Vec::from_slice`, which copies the slice into a new
/// vector when it fits in the capacity and otherwise returns `Err(())`
/// without building one.
#[verifier::external_body]
fn frame_data_from_slice(data: &[u8]) -> (r: Result<heapless::Vec<u8, 65536>, ()>)
    ensures
        r is Ok <==> data@.len() <= 65536,
        r matches Ok(v) ==> frame_bytes(v) == data@,
{
    heapless::Vec::from_slice(data)
}

/// The message that publishes `frame`, or `None` when the frame is too
/// large for one message and is skipped.
pub fn frame_payload<T: JpegImage>(frame: &T) -> (r: Option<FrameData>)
    ensures
        r is Some <==> frame.jpeg_data().len() <= MAX_FRAME_BYTES,
        r matches Some(v) ==> frame_bytes(v) == frame.jpeg_data(),
{
    let data = frame.data();
    match frame_data_from_slice(data) {
        Ok(v) => Some(v),
        Err(()) => None,
    }
}

/// What a WebSocket subscriber observed last.
#[derive(Debug, Clone, Copy, PartialEq, Eq, Structural)]
pub enum SubscriberEvent {
    /// A frame arrived.
    Message,
    /// The subscriber fell behind and missed this many frames.
    Lagged(u64),
    /// No frame was waiting.
    Empty,
    /// The last frame was sent to the client.
    Sent,
    /// Sending the last frame failed: the client is gone.
    SendFailed,
}

/// What a WebSocket subscriber does next.
#[derive(Debug, Clone, Copy, PartialEq, Eq, Structural)]
pub enum SubscriberAction {
    /// Send the frame that arrived to the client.
    SendFrame,
    /// Note how many frames were missed, then poll again.
    ReportLag(u64),
    /// Sleep briefly, then poll again.
    SleepThenPoll,
    /// Poll for the next frame.
    Poll,
    /// Stop serving this client.
    Disconnect,
}

/// The subscriber's next action after `event`.
pub fn subscriber_step(event: SubscriberEvent) -> (a: SubscriberAction)
    ensures
        event == SubscriberEvent::Message ==> a == SubscriberAction::SendFrame,
        event matches SubscriberEvent::Lagged(n) ==> a == SubscriberAction::ReportLag(n),
        event == SubscriberEvent::Empty ==> a == SubscriberAction::SleepThenPoll,
        event == SubscriberEvent::Sent ==> a == SubscriberAction::Poll,
        event == SubscriberEvent::SendFailed ==> a == SubscriberAction::Disconnect,
{
    match event {
        SubscriberEvent::Message => SubscriberAction::SendFrame,
        SubscriberEvent::Lagged(n) => SubscriberAction::ReportLag(n),
        SubscriberEvent::Empty => SubscriberAction::SleepThenPoll,
        SubscriberEvent::Sent => SubscriberAction::Poll,
        SubscriberEvent::SendFailed => SubscriberAction::Disconnect,
    }
}

/// What to do with a WebSocket callback.
#[derive(Debug, Clone, Copy, PartialEq, Eq, Structural)]
pub enum ConnectionAction {
    /// A new connection: subscribe it to the frame channel.
    Subscribe,
    /// The connection closed; its subscriber stops on its next failed send.
    Closed,
    /// Any other message: nothing to do.
    Ignore,
}

/// The action for a WebSocket callback on a connection that is new
/// (`is_new`) or closed (`is_closed`); a new connection takes precedence.
pub fn connection_action(is_new: bool, is_closed: bool) -> (a: ConnectionAction)
    ensures
        is_new ==> a == ConnectionAction::Subscribe,
        !is_new && is_closed ==> a == ConnectionAction::Closed,
        !is_new && !is_closed ==> a == ConnectionAction::Ignore,
{
    if is_new {
        ConnectionAction::Subscribe
    } else if is_closed {
        ConnectionAction::Closed
    } else {
        ConnectionAction::Ignore
    }
}

} // verus!
