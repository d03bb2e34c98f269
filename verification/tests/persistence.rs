use chat_backend::clock::Timestamp;
use chat_backend::db::models::DirectChatMessage;
use chat_backend::messages::websocket::AddItemsResponse;
use chat_backend::messages::websocket::ApproveJoin;
use chat_backend::messages::websocket::CreateGroupResponse;
use chat_backend::messages::websocket::DirectChatMessageResponse;
use chat_backend::messages::websocket::GroupChatMessageResponse;
use chat_backend::messages::websocket::JoinGroupRequest;
use chat_backend::messages::websocket::RemoveItemsMessage;
use chat_backend::messages::websocket::WebsocketMessageResponse;
use chat_backend::workers::database_worker::Storage;
use chat_backend::workers::database_worker::FLUSH_INTERVAL_MILLIS;

fn chat(id: u128, read: bool) -> DirectChatMessageResponse {
    DirectChatMessageResponse {
        id,
        sender_id: id + 1000,
        receiver_id: id + 2000,
        read,
        message: format!("message {}", id),
        created_at: Timestamp { secs: 1_700_000_000 + id as i64, nanos: 7 },
    }
}

fn record(id: u128) -> DirectChatMessage {
    DirectChatMessage {
        id,
        message: format!("message {}", id),
        sender_id: id + 1000,
        receiver_id: id + 2000,
        read: false,
        created_at: Timestamp { secs: 1_700_000_000 + id as i64, nanos: 7 },
    }
}

#[test]
fn new_buffer_is_empty() {
    let storage = Storage::new();
    assert_eq!(storage.len(), 0);
    assert!(storage.direct_chat_message.is_empty());
}

#[test]
fn one_flush_hands_out_every_buffered_message_and_empties_the_buffer() {
    let mut storage = Storage::new();
    for id in 1..=5u128 {
        assert!(storage.take_in(WebsocketMessageResponse::DirectChatMessage(chat(id, false))));
    }
    assert_eq!(storage.len(), 5);
    let batch = storage.flush(true);
    assert_eq!(batch, Some(vec![record(1), record(2), record(3), record(4), record(5)]));
    assert_eq!(storage.len(), 0);
    assert_eq!(storage.flush(true), Some(vec![]));
}

#[test]
fn flush_without_connection_is_skipped_and_messages_accumulate() {
    let mut storage = Storage::new();
    assert!(storage.take_in(WebsocketMessageResponse::DirectChatMessage(chat(1, false))));
    assert_eq!(storage.flush(false), None);
    assert_eq!(storage.len(), 1);
    assert!(storage.take_in(WebsocketMessageResponse::DirectChatMessage(chat(2, false))));
    assert_eq!(storage.flush(false), None);
    assert_eq!(storage.direct_chat_message, vec![chat(1, false), chat(2, false)]);
    assert_eq!(storage.flush(true), Some(vec![record(1), record(2)]));
    assert_eq!(storage.len(), 0);
}

#[test]
fn only_direct_chat_messages_are_buffered() {
    let mut storage = Storage::new();
    let others = vec![
        WebsocketMessageResponse::GroupChatMessage(GroupChatMessageResponse {
            id: 1,
            sender_id: 2,
            group_id: 3,
            message: String::from("g"),
        }),
        WebsocketMessageResponse::AddItems(AddItemsResponse { sender_id: 2, items: vec![], group_id: 3 }),
        WebsocketMessageResponse::RemoveItems(RemoveItemsMessage { sender_id: 2, group_id: 3, items: vec![4] }),
        WebsocketMessageResponse::JoinGroup(JoinGroupRequest { sender_id: 2, group_owner_id: 5, group_id: 3 }),
        WebsocketMessageResponse::ApproveJoin(ApproveJoin {
            candidate_id: 2,
            sender_id: 5,
            approved: true,
            group_id: 3,
        }),
        WebsocketMessageResponse::CreateGroup(CreateGroupResponse {
            group_id: 3,
            group_owner_id: 5,
            name: String::from("n"),
        }),
    ];
    for event in others {
        assert!(!storage.take_in(event));
    }
    assert_eq!(storage.len(), 0);
    assert!(storage.take_in(WebsocketMessageResponse::DirectChatMessage(chat(9, false))));
    assert_eq!(storage.direct_chat_message, vec![chat(9, false)]);
}

#[test]
fn records_are_stored_as_unread() {
    let mut storage = Storage::new();
    storage.take_in(WebsocketMessageResponse::DirectChatMessage(chat(3, true)));
    let batch = storage.flush(true).expect("a connection was there");
    assert_eq!(batch, vec![record(3)]);
    assert!(!batch[0].read);
    assert_eq!(DirectChatMessage::from(chat(4, true)), record(4));
}

#[test]
fn stored_record_becomes_a_response_with_its_read_state() {
    let mut stored = record(6);
    stored.read = true;
    assert_eq!(DirectChatMessageResponse::from(stored), chat(6, true));
    assert_eq!(DirectChatMessageResponse::from(record(6)), chat(6, false));
}

#[test]
fn flush_interval_is_five_seconds() {
    assert_eq!(FLUSH_INTERVAL_MILLIS, 5000);
}
