use tungstenite::protocol::frame::coding::CloseCode;
use tungstenite::protocol::CloseFrame;
use tungstenite::Message;
use webviz_server::wire::{
    message_of_payload, outbound_batch, payload_of_message, payloads_of_messages,
};
use webviz_server::MessagePayload;

#[test]
fn text_payload_becomes_a_text_message() {
    assert_eq!(
        message_of_payload(MessagePayload::Text("a".to_string())),
        Message::Text("a".to_string())
    );
}

#[test]
fn binary_payload_becomes_a_binary_message() {
    assert_eq!(
        message_of_payload(MessagePayload::Binary(vec![0x01, 0x02])),
        Message::Binary(vec![0x01, 0x02])
    );
}

#[test]
fn outbound_batch_keeps_kind_content_and_order() {
    let batch = outbound_batch(vec![
        MessagePayload::Text("a".to_string()),
        MessagePayload::Binary(vec![1, 2]),
        MessagePayload::Text("b".to_string()),
    ]);
    assert_eq!(
        batch,
        vec![
            Message::Text("a".to_string()),
            Message::Binary(vec![1, 2]),
            Message::Text("b".to_string()),
        ]
    );
    assert_eq!(outbound_batch(vec![]), vec![]);
}

#[test]
fn data_messages_hand_out_their_payload() {
    assert_eq!(
        payload_of_message(Message::Text("hi".to_string())),
        Some(MessagePayload::Text("hi".to_string()))
    );
    assert_eq!(
        payload_of_message(Message::Binary(vec![0xFF])),
        Some(MessagePayload::Binary(vec![0xFF]))
    );
}

#[test]
fn control_messages_hand_out_nothing() {
    assert_eq!(payload_of_message(Message::Ping(vec![1])), None);
    assert_eq!(payload_of_message(Message::Pong(vec![1])), None);
    assert_eq!(payload_of_message(Message::Close(None)), None);
    let frame = CloseFrame { code: CloseCode::Normal, reason: "bye".into() };
    assert_eq!(payload_of_message(Message::Close(Some(frame))), None);
}

#[test]
fn payloads_of_messages_filters_in_order() {
    let pulled = vec![
        Message::Ping(vec![]),
        Message::Binary(vec![3]),
        Message::Close(None),
        Message::Text("t".to_string()),
        Message::Pong(vec![4]),
        Message::Binary(vec![]),
    ];
    assert_eq!(
        payloads_of_messages(pulled),
        vec![
            MessagePayload::Binary(vec![3]),
            MessagePayload::Text("t".to_string()),
            MessagePayload::Binary(vec![]),
        ]
    );
    assert_eq!(payloads_of_messages(vec![]), vec![]);
    assert_eq!(payloads_of_messages(vec![Message::Ping(vec![]), Message::Close(None)]), vec![]);
}

#[test]
fn payload_survives_the_round_trip() {
    let payloads = vec![
        MessagePayload::Text("text".to_string()),
        MessagePayload::Binary(vec![116, 101, 120, 116]),
    ];
    for payload in payloads {
        assert_eq!(payload_of_message(message_of_payload(payload.clone())), Some(payload));
    }
}
