use vstd::prelude::*;
use vstd::std_specs::convert::FromSpecImpl;
use request::WebsocketMessageRequestView;
use response::WebsocketMessageResponseView;

pub mod request;
pub mod response;

pub use request::AddItemRequest;
pub use request::AddItemsRequest;
pub use crate::http::models::group::CreateGroupRequest;
pub use request::DirectChatMessageRequest;
pub use request::GroupChatMessageRequest;
pub use request::WebsocketMessageRequest;
pub use response::AddItemResponse;
pub use response::AddItemsResponse;
pub use response::CreateGroupResponse;
pub use response::DirectChatMessageResponse;
pub use response::GroupChatMessageResponse;
pub use response::WebsocketMessageResponse;

verus! {

/// An event that concerns one group.
pub trait GroupId {
    /// The group that the event concerns.
    spec fn group(&self) -> u128;

    fn get_group_id(&self) -> (id: &u128)
        ensures
            *id == self.group(),
    ;
}

/// The owner's answer to a request to join a group. `sender_id` is the user
/// who claims to be the owner.
#[derive(Debug, Clone, Copy, PartialEq, Eq, Structural)]
pub struct ApproveJoin {
    pub candidate_id: u128,
    pub sender_id: u128,
    pub approved: bool,
    pub group_id: u128,
}

/// A user's request to join a group, addressed to the group's owner.
#[derive(Debug, Clone, Copy, PartialEq, Eq, Structural)]
pub struct JoinGroupRequest {
    pub sender_id: u128,
    pub group_owner_id: u128,
    pub group_id: u128,
}

/// The removal of items from a group's list.
#[derive(Debug, Clone, PartialEq, Eq)]
pub struct RemoveItemsMessage {
    pub sender_id: u128,
    pub group_id: u128,
    pub items: Vec<u128>,
}

pub struct RemoveItemsMessageView {
    pub sender_id: u128,
    pub group_id: u128,
    pub items: Seq<u128>,
}

impl View for RemoveItemsMessage {
    type V = RemoveItemsMessageView;

    open spec fn view(&self) -> RemoveItemsMessageView {
        RemoveItemsMessageView {
            sender_id: self.sender_id,
            group_id: self.group_id,
            items: self.items@,
        }
    }
}

impl GroupId for RemoveItemsMessage {
    open spec fn group(&self) -> u128 {
        self.group_id
    }

    fn get_group_id(&self) -> (id: &u128) {
        &self.group_id
    }
}

/// An event in either of its two forms: as a client submits it, or as it is
/// distributed.
#[derive(Debug, Clone, PartialEq, Eq)]
pub enum WebsocketMessage {
    Request(WebsocketMessageRequest),
    Response(WebsocketMessageResponse),
}

pub enum WebsocketMessageView {
    Request(WebsocketMessageRequestView),
    Response(WebsocketMessageResponseView),
}

impl View for WebsocketMessage {
    type V = WebsocketMessageView;

    open spec fn view(&self) -> WebsocketMessageView {
        match self {
            WebsocketMessage::Request(msg) => WebsocketMessageView::Request(msg@),
            WebsocketMessage::Response(msg) => WebsocketMessageView::Response(msg@),
        }
    }
}

impl From<DirectChatMessageResponse> for WebsocketMessage {
    fn from(value: DirectChatMessageResponse) -> (message: Self) {
        Self::Response(WebsocketMessageResponse::DirectChatMessage(value))
    }
}

impl FromSpecImpl<DirectChatMessageResponse> for WebsocketMessage {
    open spec fn obeys_from_spec() -> bool {
        true
    }

    open spec fn from_spec(value: DirectChatMessageResponse) -> Self {
        Self::Response(WebsocketMessageResponse::DirectChatMessage(value))
    }
}

impl From<GroupChatMessageResponse> for WebsocketMessage {
    fn from(value: GroupChatMessageResponse) -> (message: Self) {
        Self::Response(WebsocketMessageResponse::GroupChatMessage(value))
    }
}

impl FromSpecImpl<GroupChatMessageResponse> for WebsocketMessage {
    open spec fn obeys_from_spec() -> bool {
        true
    }

    open spec fn from_spec(value: GroupChatMessageResponse) -> Self {
        Self::Response(WebsocketMessageResponse::GroupChatMessage(value))
    }
}

impl From<AddItemsResponse> for WebsocketMessage {
    fn from(value: AddItemsResponse) -> (message: Self) {
        Self::Response(WebsocketMessageResponse::AddItems(value))
    }
}

impl FromSpecImpl<AddItemsResponse> for WebsocketMessage {
    open spec fn obeys_from_spec() -> bool {
        true
    }

    open spec fn from_spec(value: AddItemsResponse) -> Self {
        Self::Response(WebsocketMessageResponse::AddItems(value))
    }
}

impl From<RemoveItemsMessage> for WebsocketMessage {
    fn from(value: RemoveItemsMessage) -> (message: Self) {
        Self::Response(WebsocketMessageResponse::RemoveItems(value))
    }
}

impl FromSpecImpl<RemoveItemsMessage> for WebsocketMessage {
    open spec fn obeys_from_spec() -> bool {
        true
    }

    open spec fn from_spec(value: RemoveItemsMessage) -> Self {
        Self::Response(WebsocketMessageResponse::RemoveItems(value))
    }
}

impl From<JoinGroupRequest> for WebsocketMessage {
    fn from(value: JoinGroupRequest) -> (message: Self) {
        Self::Response(WebsocketMessageResponse::JoinGroup(value))
    }
}

impl FromSpecImpl<JoinGroupRequest> for WebsocketMessage {
    open spec fn obeys_from_spec() -> bool {
        true
    }

    open spec fn from_spec(value: JoinGroupRequest) -> Self {
        Self::Response(WebsocketMessageResponse::JoinGroup(value))
    }
}

impl From<ApproveJoin> for WebsocketMessage {
    fn from(value: ApproveJoin) -> (message: Self) {
        Self::Response(WebsocketMessageResponse::ApproveJoin(value))
    }
}

impl FromSpecImpl<ApproveJoin> for WebsocketMessage {
    open spec fn obeys_from_spec() -> bool {
        true
    }

    open spec fn from_spec(value: ApproveJoin) -> Self {
        Self::Response(WebsocketMessageResponse::ApproveJoin(value))
    }
}

impl From<CreateGroupResponse> for WebsocketMessage {
    fn from(value: CreateGroupResponse) -> (message: Self) {
        Self::Response(WebsocketMessageResponse::CreateGroup(value))
    }
}

impl FromSpecImpl<CreateGroupResponse> for WebsocketMessage {
    open spec fn obeys_from_spec() -> bool {
        true
    }

    open spec fn from_spec(value: CreateGroupResponse) -> Self {
        Self::Response(WebsocketMessageResponse::CreateGroup(value))
    }
}

impl From<ApproveJoin> for WebsocketMessageRequest {
    fn from(value: ApproveJoin) -> (message: Self) {
        Self::ApproveJoin(value)
    }
}

impl FromSpecImpl<ApproveJoin> for WebsocketMessageRequest {
    open spec fn obeys_from_spec() -> bool {
        true
    }

    open spec fn from_spec(value: ApproveJoin) -> Self {
        Self::ApproveJoin(value)
    }
}

} // verus!
