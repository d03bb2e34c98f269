use vstd::prelude::*;
use crate::http::models::group::CreateGroupRequest;
use crate::http::models::group::CreateGroupRequestView;
use super::ApproveJoin;
use super::JoinGroupRequest;
use super::RemoveItemsMessage;
use super::RemoveItemsMessageView;

verus! {

/// One item to add to a group's list.
#[derive(Debug, Clone, PartialEq, Eq)]
pub struct AddItemRequest {
    pub product_id: u128,
    pub group_id: u128,
    pub product_unit: String,
    /// The bit pattern of the single-precision quantity, where one is given.
    pub quantity: Option<u32>,
}

pub struct AddItemRequestView {
    pub product_id: u128,
    pub group_id: u128,
    pub product_unit: Seq<char>,
    pub quantity: Option<u32>,
}

impl View for AddItemRequest {
    type V = AddItemRequestView;

    open spec fn view(&self) -> AddItemRequestView {
        AddItemRequestView {
            product_id: self.product_id,
            group_id: self.group_id,
            product_unit: self.product_unit@,
            quantity: self.quantity,
        }
    }
}

/// A chat message from one user to another.
#[derive(Debug, Clone, PartialEq, Eq)]
pub struct DirectChatMessageRequest {
    pub sender_id: u128,
    pub receiver_id: u128,
    pub message: String,
}

pub struct DirectChatMessageRequestView {
    pub sender_id: u128,
    pub receiver_id: u128,
    pub message: Seq<char>,
}

impl View for DirectChatMessageRequest {
    type V = DirectChatMessageRequestView;

    open spec fn view(&self) -> DirectChatMessageRequestView {
        DirectChatMessageRequestView {
            sender_id: self.sender_id,
            receiver_id: self.receiver_id,
            message: self.message@,
        }
    }
}

/// A chat message from one user to a group.
#[derive(Debug, Clone, PartialEq, Eq)]
pub struct GroupChatMessageRequest {
    pub sender_id: u128,
    pub group_id: u128,
    pub message: String,
}

pub struct GroupChatMessageRequestView {
    pub sender_id: u128,
    pub group_id: u128,
    pub message: Seq<char>,
}

impl View for GroupChatMessageRequest {
    type V = GroupChatMessageRequestView;

    open spec fn view(&self) -> GroupChatMessageRequestView {
        GroupChatMessageRequestView {
            sender_id: self.sender_id,
            group_id: self.group_id,
            message: self.message@,
        }
    }
}

/// The addition of items to a group's list.
#[derive(Debug, Clone, PartialEq, Eq)]
pub struct AddItemsRequest {
    pub sender_id: u128,
    pub group_id: u128,
    pub items: Vec<AddItemRequest>,
}

pub struct AddItemsRequestView {
    pub sender_id: u128,
    pub group_id: u128,
    pub items: Seq<AddItemRequestView>,
}

impl View for AddItemsRequest {
    type V = AddItemsRequestView;

    open spec fn view(&self) -> AddItemsRequestView {
        AddItemsRequestView {
            sender_id: self.sender_id,
            group_id: self.group_id,
            items: self.items@.map_values(|item: AddItemRequest| item@),
        }
    }
}

/// An event as a client submits it.
#[derive(Debug, Clone, PartialEq, Eq)]
pub enum WebsocketMessageRequest {
    DirectChatMessage(DirectChatMessageRequest),
    GroupChatMessage(GroupChatMessageRequest),
    AddItemsRequest(AddItemsRequest),
    RemoveItems(RemoveItemsMessage),
    JoinGroup(JoinGroupRequest),
    ApproveJoin(ApproveJoin),
    CreateGroup(CreateGroupRequest),
}

pub enum WebsocketMessageRequestView {
    DirectChatMessage(DirectChatMessageRequestView),
    GroupChatMessage(GroupChatMessageRequestView),
    AddItemsRequest(AddItemsRequestView),
    RemoveItems(RemoveItemsMessageView),
    JoinGroup(JoinGroupRequest),
    ApproveJoin(ApproveJoin),
    CreateGroup(CreateGroupRequestView),
}

impl WebsocketMessageRequestView {
    /// The user in whose name the event was submitted. For an approval it is
    /// the claimed owner, for a group's creation the owner-to-be.
    pub open spec fn sender_id(self) -> u128 {
        match self {
            WebsocketMessageRequestView::DirectChatMessage(msg) => msg.sender_id,
            WebsocketMessageRequestView::GroupChatMessage(msg) => msg.sender_id,
            WebsocketMessageRequestView::AddItemsRequest(msg) => msg.sender_id,
            WebsocketMessageRequestView::RemoveItems(msg) => msg.sender_id,
            WebsocketMessageRequestView::JoinGroup(msg) => msg.sender_id,
            WebsocketMessageRequestView::ApproveJoin(msg) => msg.sender_id,
            WebsocketMessageRequestView::CreateGroup(msg) => msg.group_owner_id,
        }
    }
}

impl View for WebsocketMessageRequest {
    type V = WebsocketMessageRequestView;

    open spec fn view(&self) -> WebsocketMessageRequestView {
        match self {
            WebsocketMessageRequest::DirectChatMessage(msg) => {
                WebsocketMessageRequestView::DirectChatMessage(msg@)
            },
            WebsocketMessageRequest::GroupChatMessage(msg) => {
                WebsocketMessageRequestView::GroupChatMessage(msg@)
            },
            WebsocketMessageRequest::AddItemsRequest(msg) => {
                WebsocketMessageRequestView::AddItemsRequest(msg@)
            },
            WebsocketMessageRequest::RemoveItems(msg) => {
                WebsocketMessageRequestView::RemoveItems(msg@)
            },
            WebsocketMessageRequest::JoinGroup(msg) => WebsocketMessageRequestView::JoinGroup(*msg),
            WebsocketMessageRequest::ApproveJoin(msg) => {
                WebsocketMessageRequestView::ApproveJoin(*msg)
            },
            WebsocketMessageRequest::CreateGroup(msg) => {
                WebsocketMessageRequestView::CreateGroup(msg@)
            },
        }
    }
}

impl WebsocketMessageRequest {
    pub fn sender_id(&self) -> (id: u128)
        ensures
            id == self@.sender_id(),
    {
        match self {
            WebsocketMessageRequest::GroupChatMessage(msg) => msg.sender_id,
            WebsocketMessageRequest::AddItemsRequest(msg) => msg.sender_id,
            WebsocketMessageRequest::RemoveItems(msg) => msg.sender_id,
            WebsocketMessageRequest::JoinGroup(msg) => msg.sender_id,
            WebsocketMessageRequest::ApproveJoin(msg) => msg.sender_id,
            WebsocketMessageRequest::DirectChatMessage(msg) => msg.sender_id,
            WebsocketMessageRequest::CreateGroup(msg) => msg.group_owner_id,
        }
    }
}

} // verus!
