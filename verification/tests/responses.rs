use chat_backend::clock::Timestamp;
use chat_backend::db::models::Group;
use chat_backend::ids::has_random_shape;
use chat_backend::messages::websocket::AddItemRequest;
use chat_backend::messages::websocket::AddItemResponse;
use chat_backend::messages::websocket::AddItemsRequest;
use chat_backend::messages::websocket::AddItemsResponse;
use chat_backend::messages::websocket::ApproveJoin;
use chat_backend::messages::websocket::CreateGroupRequest;
use chat_backend::messages::websocket::CreateGroupResponse;
use chat_backend::messages::websocket::DirectChatMessageRequest;
use chat_backend::messages::websocket::DirectChatMessageResponse;
use chat_backend::messages::websocket::GroupChatMessageRequest;
use chat_backend::messages::websocket::GroupChatMessageResponse;
use chat_backend::messages::websocket::GroupId;
use chat_backend::messages::websocket::JoinGroupRequest;
use chat_backend::messages::websocket::RemoveItemsMessage;
use chat_backend::messages::websocket::WebsocketMessage;
use chat_backend::messages::websocket::WebsocketMessageRequest;
use chat_backend::messages::websocket::WebsocketMessageResponse;

fn direct(sender_id: u128, receiver_id: u128, message: &str) -> DirectChatMessageRequest {
    DirectChatMessageRequest { sender_id, receiver_id, message: String::from(message) }
}

fn item(product_id: u128, group_id: u128, unit: &str, quantity: Option<f32>) -> AddItemRequest {
    AddItemRequest {
        product_id,
        group_id,
        product_unit: String::from(unit),
        quantity: quantity.map(f32::to_bits),
    }
}

#[test]
fn direct_chat_message_with_given_id_and_time() {
    let created_at = Timestamp { secs: 1_700_000_000, nanos: 5 };
    let response = DirectChatMessageResponse::with_id(direct(1, 2, "hello"), 77, created_at);
    assert_eq!(
        response,
        DirectChatMessageResponse {
            id: 77,
            sender_id: 1,
            receiver_id: 2,
            read: false,
            message: String::from("hello"),
            created_at,
        }
    );
}

#[test]
fn direct_chat_message_gets_fresh_id_clock_reading_and_is_unread() {
    let response = DirectChatMessageResponse::from_request(direct(10, 20, "hi there"));
    assert_eq!(response.sender_id, 10);
    assert_eq!(response.receiver_id, 20);
    assert_eq!(response.message, "hi there");
    assert!(!response.read);
    assert_ne!(response.id, 0);
    assert!(has_random_shape(response.id));
    assert!(response.created_at.secs > 1_600_000_000);
    assert!(response.created_at.nanos < 1_000_000_000);
}

#[test]
fn group_chat_message_with_given_id() {
    let request = GroupChatMessageRequest { sender_id: 3, group_id: 9, message: String::from("all") };
    let response = GroupChatMessageResponse::with_id(request, 5);
    assert_eq!(
        response,
        GroupChatMessageResponse { id: 5, sender_id: 3, group_id: 9, message: String::from("all") }
    );
    assert_eq!(*response.get_group_id(), 9);
}

#[test]
fn add_item_with_given_id_keeps_unit_and_quantity() {
    let response = AddItemResponse::with_id(item(4, 9, "kg", Some(1.5)), 21);
    assert_eq!(response.id, 21);
    assert_eq!(response.product_id, 4);
    assert_eq!(response.group_id, 9);
    assert_eq!(response.product_unit, "kg");
    assert_eq!(response.quantity.map(f32::from_bits), Some(1.5));
    assert_eq!(*response.get_group_id(), 9);
    let without = AddItemResponse::with_id(item(4, 9, "pcs", None), 22);
    assert_eq!(without.quantity, None);
}

#[test]
fn add_items_gives_each_item_an_id_of_its_own() {
    let request = AddItemsRequest {
        sender_id: 1,
        group_id: 9,
        items: vec![item(4, 9, "kg", Some(2.0)), item(5, 9, "l", None), item(6, 9, "pcs", Some(3.0))],
    };
    let response = AddItemsResponse::from_request(request.clone());
    assert_eq!(response.sender_id, 1);
    assert_eq!(response.group_id, 9);
    assert_eq!(*response.get_group_id(), 9);
    assert_eq!(response.items.len(), 3);
    for (asked, answered) in request.items.iter().zip(response.items.iter()) {
        assert_eq!(answered.product_id, asked.product_id);
        assert_eq!(answered.group_id, asked.group_id);
        assert_eq!(answered.product_unit, asked.product_unit);
        assert_eq!(answered.quantity, asked.quantity);
        assert!(has_random_shape(answered.id));
        assert_ne!(answered.id, 0);
    }
    assert_ne!(response.items[0].id, response.items[1].id);
    assert_ne!(response.items[1].id, response.items[2].id);
    assert_ne!(response.items[0].id, response.items[2].id);
}

#[test]
fn add_items_without_items_is_answered_without_items() {
    let request = AddItemsRequest { sender_id: 1, group_id: 9, items: vec![] };
    let response = AddItemsResponse::from_request(request);
    assert_eq!(response, AddItemsResponse { sender_id: 1, items: vec![], group_id: 9 });
}

#[test]
fn create_group_with_given_id() {
    let request = CreateGroupRequest { group_owner_id: 8, name: String::from("flat") };
    let response = CreateGroupResponse::with_id(request.clone(), 40);
    assert_eq!(
        response,
        CreateGroupResponse { group_id: 40, group_owner_id: 8, name: String::from("flat") }
    );
    let group = Group::with_id(request, 41);
    assert_eq!(group, Group { id: 41, name: String::from("flat"), created_by_user: 8 });
}

#[test]
fn group_from_request_gets_fresh_id() {
    let group = Group::from_request(CreateGroupRequest { group_owner_id: 8, name: String::from("flat") });
    assert_eq!(group.created_by_user, 8);
    assert_eq!(group.name, "flat");
    assert!(has_random_shape(group.id));
}

#[test]
fn every_request_variant_has_its_response_variant() {
    let approve = ApproveJoin { candidate_id: 1, sender_id: 2, approved: true, group_id: 3 };
    let join = JoinGroupRequest { sender_id: 1, group_owner_id: 2, group_id: 3 };
    let remove = RemoveItemsMessage { sender_id: 1, group_id: 3, items: vec![7, 8] };

    match WebsocketMessageResponse::from_request(WebsocketMessageRequest::DirectChatMessage(direct(1, 2, "a"))) {
        WebsocketMessageResponse::DirectChatMessage(msg) => {
            assert_eq!((msg.sender_id, msg.receiver_id, msg.read), (1, 2, false));
            assert_eq!(msg.message, "a");
            assert_ne!(msg.id, 0);
        }
        other => panic!("wrong variant: {:?}", other),
    }
    match WebsocketMessageResponse::from_request(WebsocketMessageRequest::GroupChatMessage(
        GroupChatMessageRequest { sender_id: 1, group_id: 3, message: String::from("b") },
    )) {
        WebsocketMessageResponse::GroupChatMessage(msg) => {
            assert_eq!((msg.sender_id, msg.group_id), (1, 3));
            assert_eq!(msg.message, "b");
            assert_ne!(msg.id, 0);
        }
        other => panic!("wrong variant: {:?}", other),
    }
    match WebsocketMessageResponse::from_request(WebsocketMessageRequest::AddItemsRequest(AddItemsRequest {
        sender_id: 1,
        group_id: 3,
        items: vec![item(4, 3, "kg", None)],
    })) {
        WebsocketMessageResponse::AddItems(msg) => {
            assert_eq!((msg.sender_id, msg.group_id, msg.items.len()), (1, 3, 1));
            assert_ne!(msg.items[0].id, 0);
        }
        other => panic!("wrong variant: {:?}", other),
    }
    assert_eq!(
        WebsocketMessageResponse::from_request(WebsocketMessageRequest::RemoveItems(remove.clone())),
        WebsocketMessageResponse::RemoveItems(remove)
    );
    assert_eq!(
        WebsocketMessageResponse::from_request(WebsocketMessageRequest::JoinGroup(join)),
        WebsocketMessageResponse::JoinGroup(join)
    );
    assert_eq!(
        WebsocketMessageResponse::from_request(WebsocketMessageRequest::ApproveJoin(approve)),
        WebsocketMessageResponse::ApproveJoin(approve)
    );
    match WebsocketMessageResponse::from_request(WebsocketMessageRequest::CreateGroup(CreateGroupRequest {
        group_owner_id: 2,
        name: String::from("g"),
    })) {
        WebsocketMessageResponse::CreateGroup(msg) => {
            assert_eq!(msg.group_owner_id, 2);
            assert_eq!(msg.name, "g");
            assert_ne!(msg.group_id, 0);
        }
        other => panic!("wrong variant: {:?}", other),
    }
}

#[test]
fn generated_ids_differ_within_a_run() {
    let mut seen: Vec<u128> = Vec::new();
    for round in 0..200u128 {
        let response = WebsocketMessageResponse::from_request(WebsocketMessageRequest::DirectChatMessage(
            direct(round, round + 1, "x"),
        ));
        let id = match response {
            WebsocketMessageResponse::DirectChatMessage(msg) => msg.id,
            other => panic!("wrong variant: {:?}", other),
        };
        assert_ne!(id, 0);
        assert!(has_random_shape(id));
        assert!(!seen.contains(&id));
        seen.push(id);
    }
}

#[test]
fn random_shape_is_version_four_and_variant_one_zero() {
    assert!(has_random_shape(0x0000_0000_0000_4000_8000_0000_0000_0000));
    assert!(has_random_shape(0xffff_ffff_ffff_4fff_bfff_ffff_ffff_ffff));
    assert!(!has_random_shape(0));
    assert!(!has_random_shape(0x0000_0000_0000_1000_8000_0000_0000_0000));
    assert!(!has_random_shape(0x0000_0000_0000_4000_c000_0000_0000_0000));
    assert!(!has_random_shape(u128::MAX));
}

#[test]
fn sender_of_every_request_variant() {
    assert_eq!(WebsocketMessageRequest::DirectChatMessage(direct(11, 2, "a")).sender_id(), 11);
    assert_eq!(
        WebsocketMessageRequest::GroupChatMessage(GroupChatMessageRequest {
            sender_id: 12,
            group_id: 3,
            message: String::new(),
        })
        .sender_id(),
        12
    );
    assert_eq!(
        WebsocketMessageRequest::AddItemsRequest(AddItemsRequest { sender_id: 13, group_id: 3, items: vec![] })
            .sender_id(),
        13
    );
    assert_eq!(
        WebsocketMessageRequest::RemoveItems(RemoveItemsMessage { sender_id: 14, group_id: 3, items: vec![] })
            .sender_id(),
        14
    );
    assert_eq!(
        WebsocketMessageRequest::JoinGroup(JoinGroupRequest { sender_id: 15, group_owner_id: 1, group_id: 3 })
            .sender_id(),
        15
    );
    assert_eq!(
        WebsocketMessageRequest::ApproveJoin(ApproveJoin {
            candidate_id: 1,
            sender_id: 16,
            approved: false,
            group_id: 3,
        })
        .sender_id(),
        16
    );
    assert_eq!(
        WebsocketMessageRequest::CreateGroup(CreateGroupRequest { group_owner_id: 17, name: String::new() })
            .sender_id(),
        17
    );
}

#[test]
fn durable_kinds_are_chat_and_items() {
    let stamp = Timestamp { secs: 1, nanos: 0 };
    let direct_chat = WebsocketMessageResponse::DirectChatMessage(DirectChatMessageResponse::with_id(
        direct(1, 2, "a"),
        5,
        stamp,
    ));
    let group_chat = WebsocketMessageResponse::GroupChatMessage(GroupChatMessageResponse {
        id: 1,
        sender_id: 1,
        group_id: 3,
        message: String::new(),
    });
    let add = WebsocketMessageResponse::AddItems(AddItemsResponse { sender_id: 1, items: vec![], group_id: 3 });
    let remove =
        WebsocketMessageResponse::RemoveItems(RemoveItemsMessage { sender_id: 1, group_id: 3, items: vec![] });
    let join = WebsocketMessageResponse::JoinGroup(JoinGroupRequest { sender_id: 1, group_owner_id: 2, group_id: 3 });
    let approve = WebsocketMessageResponse::ApproveJoin(ApproveJoin {
        candidate_id: 1,
        sender_id: 2,
        approved: true,
        group_id: 3,
    });
    let create = WebsocketMessageResponse::CreateGroup(CreateGroupResponse {
        group_id: 3,
        group_owner_id: 2,
        name: String::new(),
    });
    assert!(direct_chat.delayed_send());
    assert!(group_chat.delayed_send());
    assert!(add.delayed_send());
    assert!(remove.delayed_send());
    assert!(!join.delayed_send());
    assert!(!approve.delayed_send());
    assert!(!create.delayed_send());
    assert_eq!(approve.group_to_check(), Some(3));
    assert_eq!(direct_chat.group_to_check(), None);
    assert_eq!(join.group_to_check(), None);
    assert_eq!(create.group_to_check(), None);
}

#[test]
fn responses_wrap_into_websocket_messages() {
    let approve = ApproveJoin { candidate_id: 1, sender_id: 2, approved: true, group_id: 3 };
    let join = JoinGroupRequest { sender_id: 1, group_owner_id: 2, group_id: 3 };
    let remove = RemoveItemsMessage { sender_id: 1, group_id: 3, items: vec![7] };
    let chat = DirectChatMessageResponse::with_id(direct(1, 2, "a"), 5, Timestamp { secs: 1, nanos: 0 });
    let group_chat = GroupChatMessageResponse { id: 1, sender_id: 1, group_id: 3, message: String::new() };
    let add = AddItemsResponse { sender_id: 1, items: vec![], group_id: 3 };
    let create = CreateGroupResponse { group_id: 3, group_owner_id: 2, name: String::new() };
    assert_eq!(
        WebsocketMessage::from(chat.clone()),
        WebsocketMessage::Response(WebsocketMessageResponse::DirectChatMessage(chat))
    );
    assert_eq!(
        WebsocketMessage::from(group_chat.clone()),
        WebsocketMessage::Response(WebsocketMessageResponse::GroupChatMessage(group_chat))
    );
    assert_eq!(
        WebsocketMessage::from(add.clone()),
        WebsocketMessage::Response(WebsocketMessageResponse::AddItems(add))
    );
    assert_eq!(
        WebsocketMessage::from(remove.clone()),
        WebsocketMessage::Response(WebsocketMessageResponse::RemoveItems(remove.clone()))
    );
    assert_eq!(*remove.get_group_id(), 3);
    assert_eq!(
        WebsocketMessage::from(join),
        WebsocketMessage::Response(WebsocketMessageResponse::JoinGroup(join))
    );
    assert_eq!(
        WebsocketMessage::from(approve),
        WebsocketMessage::Response(WebsocketMessageResponse::ApproveJoin(approve))
    );
    assert_eq!(
        WebsocketMessage::from(create.clone()),
        WebsocketMessage::Response(WebsocketMessageResponse::CreateGroup(create.clone()))
    );
    assert_eq!(*create.get_group_id(), 3);
    assert_eq!(WebsocketMessageRequest::from(approve), WebsocketMessageRequest::ApproveJoin(approve));
}
