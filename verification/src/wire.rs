//! The boundary with the WebSocket layer: payloads become its messages on the
//! way out, and its messages become frames and payloads on the way in.

use vstd::prelude::*;
use crate::payload::{option_view, payload_views, surfaced, Frame, FrameView, MessagePayload};

verus! {

/// `tungstenite::Message`, carried through as it is.
#[verifier::external_type_specification]
#[verifier::external_body]
pub struct ExMessage(tungstenite::Message);

/// The frame that a WebSocket message stands for: its variant and the text or
/// bytes it carries. The reason that a Close message may carry is left out.
pub uninterp spec fn message_frame(message: tungstenite::Message) -> FrameView;

/// `tungstenite::Message::text` on a `String`: the message is the Text variant
/// holding that string.
#[verifier::external_body]
fn text_message(text: String) -> (message: tungstenite::Message)
    ensures
        message_frame(message) == FrameView::Text(text@),
{
    tungstenite::Message::text(text)
}

/// `tungstenite::Message::binary` on a `Vec<u8>`: the message is the Binary
/// variant holding those bytes.
#[verifier::external_body]
fn binary_message(bytes: Vec<u8>) -> (message: tungstenite::Message)
    ensures
        message_frame(message) == FrameView::Binary(bytes@),
{
    tungstenite::Message::binary(bytes)
}

/// Takes a `tungstenite::Message` apart by its variant and moves its content
/// into the frame of the same kind. This is what `message_frame` names.
#[verifier::external_body]
pub(crate) fn frame_of_message(message: tungstenite::Message) -> (frame: Frame)
    ensures
        frame@ == message_frame(message),
{
    match message {
        tungstenite::Message::Text(text) => Frame::Text(text),
        tungstenite::Message::Binary(bytes) => Frame::Binary(bytes),
        tungstenite::Message::Ping(bytes) => Frame::Ping(bytes),
        tungstenite::Message::Pong(bytes) => Frame::Pong(bytes),
        tungstenite::Message::Close(_) => Frame::Close,
    }
}

/// The frames that a sequence of messages stands for, in order.
pub open spec fn message_frames(messages: Seq<tungstenite::Message>) -> Seq<FrameView> {
    Seq::new(messages.len(), |i: int| message_frame(messages[i]))
}

/// The frames that carry a sequence of payloads, in order.
pub open spec fn frames_of(payloads: Seq<MessagePayload>) -> Seq<FrameView> {
    Seq::new(payloads.len(), |i: int| payloads[i]@.frame())
}

/// The WebSocket message that carries one payload.
pub fn message_of_payload(payload: MessagePayload) -> (message: tungstenite::Message)
    ensures
        message_frame(message) == payload@.frame(),
{
    match payload {
        MessagePayload::Text(text) => text_message(text),
        MessagePayload::Binary(bytes) => binary_message(bytes),
    }
}

/// The payload that one WebSocket message hands to the host, if any.
pub fn payload_of_message(message: tungstenite::Message) -> (payload: Option<MessagePayload>)
    ensures
        option_view(payload) == message_frame(message).payload(),
{
    frame_of_message(message).into_payload()
}

/// An outbound batch as the bus carries it: one message for each payload, of
/// the payload's kind and content, in the order given.
pub fn outbound_batch(payloads: Vec<MessagePayload>) -> (batch: Vec<tungstenite::Message>)
    ensures
        message_frames(batch@) == frames_of(payloads@),
{
    let ghost wanted = frames_of(payloads@);
    let mut batch: Vec<tungstenite::Message> = Vec::new();
    for payload in it: payloads
        invariant
            wanted == frames_of(it.seq()),
            message_frames(batch@) == wanted.take(it.index() as int),
    {
        let ghost before = message_frames(batch@);
        let message = message_of_payload(payload);
        batch.push(message);
        assert(message_frames(batch@) == before.push(payload@.frame()));
    }
    proof {
        assert(wanted.take(wanted.len() as int) == wanted);
    }
    batch
}

/// What the host receives for the messages pulled from the mailbox: the
/// payloads of the data messages, in the order pulled.
pub fn payloads_of_messages(messages: Vec<tungstenite::Message>) -> (payloads: Vec<MessagePayload>)
    ensures
        payload_views(payloads@) == surfaced(message_frames(messages@)),
{
    let ghost all = message_frames(messages@);
    let mut payloads: Vec<MessagePayload> = Vec::new();
    for message in it: messages
        invariant
            all == message_frames(it.seq()),
            payload_views(payloads@) == surfaced(all.take(it.index() as int)),
    {
        let ghost before = payload_views(payloads@);
        proof {
            let upto = all.take(it.index() + 1);
            assert(upto.drop_last() == all.take(it.index() as int));
            assert(upto.last() == message_frame(message));
        }
        match payload_of_message(message) {
            Some(payload) => {
                payloads.push(payload);
                assert(payload_views(payloads@) == before.push(payload@));
            },
            None => {},
        }
    }
    proof {
        assert(all.take(all.len() as int) == all);
    }
    payloads
}

} // verus!
