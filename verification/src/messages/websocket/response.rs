use vstd::prelude::*;
use crate::clock::now;
use crate::clock::Timestamp;
use crate::ids::is_random_id;
use crate::ids::new_id;
use super::ApproveJoin;
use super::GroupId;
use super::JoinGroupRequest;
use super::RemoveItemsMessage;
use super::RemoveItemsMessageView;
use super::request::AddItemRequest;
use super::request::AddItemRequestView;
use super::request::AddItemsRequest;
use super::request::AddItemsRequestView;
use crate::http::models::group::CreateGroupRequest;
use crate::http::models::group::CreateGroupRequestView;
use super::request::DirectChatMessageRequest;
use super::request::DirectChatMessageRequestView;
use super::request::GroupChatMessageRequest;
use super::request::GroupChatMessageRequestView;
use super::request::WebsocketMessageRequest;
use super::request::WebsocketMessageRequestView;

verus! {

/// A chat message between two users as it is distributed and stored.
#[derive(Debug, Clone, PartialEq, Eq)]
pub struct DirectChatMessageResponse {
    pub id: u128,
    pub sender_id: u128,
    pub receiver_id: u128,
    pub read: bool,
    pub message: String,
    pub created_at: Timestamp,
}

pub struct DirectChatMessageResponseView {
    pub id: u128,
    pub sender_id: u128,
    pub receiver_id: u128,
    pub read: bool,
    pub message: Seq<char>,
    pub created_at: Timestamp,
}

impl View for DirectChatMessageResponse {
    type V = DirectChatMessageResponseView;

    open spec fn view(&self) -> DirectChatMessageResponseView {
        DirectChatMessageResponseView {
            id: self.id,
            sender_id: self.sender_id,
            receiver_id: self.receiver_id,
            read: self.read,
            message: self.message@,
            created_at: self.created_at,
        }
    }
}

impl DirectChatMessageResponse {
    /// The response to `request` under the identifier `id`, created at
    /// `created_at`: the request's fields, and not yet read.
    pub open spec fn stamp(
        request: DirectChatMessageRequestView,
        id: u128,
        created_at: Timestamp,
    ) -> DirectChatMessageResponseView {
        DirectChatMessageResponseView {
            id,
            sender_id: request.sender_id,
            receiver_id: request.receiver_id,
            read: false,
            message: request.message,
            created_at,
        }
    }

    /// Answers `value` under a given identifier and time of creation.
    pub fn with_id(value: DirectChatMessageRequest, id: u128, created_at: Timestamp) -> (response:
        Self)
        ensures
            response@ == Self::stamp(value@, id, created_at),
    {
        Self {
            id,
            sender_id: value.sender_id,
            receiver_id: value.receiver_id,
            read: false,
            message: value.message,
            created_at,
        }
    }

    /// Answers `value` under a fresh identifier, created now.
    pub fn from_request(value: DirectChatMessageRequest) -> (response: Self)
        ensures
            response@ == Self::stamp(value@, response.id, response.created_at),
            is_random_id(response.id),
            response.created_at.is_clock_reading(),
    {
        Self::with_id(value, new_id(), now())
    }
}

/// A chat message to a group as it is distributed.
#[derive(Debug, Clone, PartialEq, Eq)]
pub struct GroupChatMessageResponse {
    pub id: u128,
    pub sender_id: u128,
    pub group_id: u128,
    pub message: String,
}

pub struct GroupChatMessageResponseView {
    pub id: u128,
    pub sender_id: u128,
    pub group_id: u128,
    pub message: Seq<char>,
}

impl View for GroupChatMessageResponse {
    type V = GroupChatMessageResponseView;

    open spec fn view(&self) -> GroupChatMessageResponseView {
        GroupChatMessageResponseView {
            id: self.id,
            sender_id: self.sender_id,
            group_id: self.group_id,
            message: self.message@,
        }
    }
}

impl GroupId for GroupChatMessageResponse {
    open spec fn group(&self) -> u128 {
        self.group_id
    }

    fn get_group_id(&self) -> (id: &u128) {
        &self.group_id
    }
}

impl GroupChatMessageResponse {
    /// The response to `request` under the identifier `id`.
    pub open spec fn stamp(request: GroupChatMessageRequestView, id: u128)
        -> GroupChatMessageResponseView {
        GroupChatMessageResponseView {
            id,
            sender_id: request.sender_id,
            group_id: request.group_id,
            message: request.message,
        }
    }

    /// Answers `value` under a given identifier.
    pub fn with_id(value: GroupChatMessageRequest, id: u128) -> (response: Self)
        ensures
            response@ == Self::stamp(value@, id),
    {
        Self { id, sender_id: value.sender_id, group_id: value.group_id, message: value.message }
    }

    /// Answers `value` under a fresh identifier.
    pub fn from_request(value: GroupChatMessageRequest) -> (response: Self)
        ensures
            response@ == Self::stamp(value@, response.id),
            is_random_id(response.id),
    {
        Self::with_id(value, new_id())
    }
}

/// One item added to a group's list, as it is distributed.
#[derive(Debug, Clone, PartialEq, Eq)]
pub struct AddItemResponse {
    pub id: u128,
    pub product_id: u128,
    pub group_id: u128,
    pub product_unit: String,
    /// The bit pattern of the single-precision quantity, where one is given.
    pub quantity: Option<u32>,
}

pub struct AddItemResponseView {
    pub id: u128,
    pub product_id: u128,
    pub group_id: u128,
    pub product_unit: Seq<char>,
    pub quantity: Option<u32>,
}

impl View for AddItemResponse {
    type V = AddItemResponseView;

    open spec fn view(&self) -> AddItemResponseView {
        AddItemResponseView {
            id: self.id,
            product_id: self.product_id,
            group_id: self.group_id,
            product_unit: self.product_unit@,
            quantity: self.quantity,
        }
    }
}

impl GroupId for AddItemResponse {
    open spec fn group(&self) -> u128 {
        self.group_id
    }

    fn get_group_id(&self) -> (id: &u128) {
        &self.group_id
    }
}

impl AddItemResponse {
    /// The response to `request` under the identifier `id`.
    pub open spec fn stamp(request: AddItemRequestView, id: u128) -> AddItemResponseView {
        AddItemResponseView {
            id,
            product_id: request.product_id,
            group_id: request.group_id,
            product_unit: request.product_unit,
            quantity: request.quantity,
        }
    }

    /// Answers `value` under a given identifier.
    pub fn with_id(value: AddItemRequest, id: u128) -> (response: Self)
        ensures
            response@ == Self::stamp(value@, id),
    {
        Self {
            id,
            product_id: value.product_id,
            group_id: value.group_id,
            product_unit: value.product_unit,
            quantity: value.quantity,
        }
    }

    /// Answers `value` under a fresh identifier.
    pub fn from_request(value: AddItemRequest) -> (response: Self)
        ensures
            response@ == Self::stamp(value@, response.id),
            is_random_id(response.id),
    {
        Self::with_id(value, new_id())
    }
}

/// The addition of items to a group's list, as it is distributed.
#[derive(Debug, Clone, PartialEq, Eq)]
pub struct AddItemsResponse {
    pub sender_id: u128,
    pub items: Vec<AddItemResponse>,
    pub group_id: u128,
}

pub struct AddItemsResponseView {
    pub sender_id: u128,
    pub items: Seq<AddItemResponseView>,
    pub group_id: u128,
}

impl View for AddItemsResponse {
    type V = AddItemsResponseView;

    open spec fn view(&self) -> AddItemsResponseView {
        AddItemsResponseView {
            sender_id: self.sender_id,
            items: self.items@.map_values(|item: AddItemResponse| item@),
            group_id: self.group_id,
        }
    }
}

impl GroupId for AddItemsResponse {
    open spec fn group(&self) -> u128 {
        self.group_id
    }

    fn get_group_id(&self) -> (id: &u128) {
        &self.group_id
    }
}

impl AddItemsResponseView {
    /// Whether `self` answers `request`: same sender and group, and item by
    /// item the request's fields under a random identifier.
    pub open spec fn answers(self, request: AddItemsRequestView) -> bool {
        &&& self.sender_id == request.sender_id
        &&& self.group_id == request.group_id
        &&& self.items.len() == request.items.len()
        &&& forall|i: int|
            0 <= i < self.items.len() ==> {
                &&& #[trigger] self.items[i] == AddItemResponse::stamp(
                    request.items[i],
                    self.items[i].id,
                )
                &&& is_random_id(self.items[i].id)
            }
    }
}

impl AddItemsResponse {
    /// Answers `value`, each of its items under a fresh identifier of its own.
    pub fn from_request(value: AddItemsRequest) -> (response: Self)
        ensures
            response@.answers(value@),
    {
        let ghost request = value@;
        let AddItemsRequest { sender_id, group_id, items: requested } = value;
        let ghost source = requested@;
        let mut items: Vec<AddItemResponse> = Vec::new();
        for item in it: requested
            invariant
                it.seq() == source,
                items.len() == it.index(),
                forall|j: int|
                    0 <= j < items.len() ==> {
                        &&& (#[trigger] items[j])@ == AddItemResponse::stamp(
                            source[j]@,
                            items[j].id,
                        )
                        &&& is_random_id(items[j].id)
                    },
        {
            items.push(AddItemResponse::from_request(item));
        }
        let response = Self { sender_id, items, group_id };
        assert(response@.answers(request)) by {
            assert(request.items.len() == source.len());
            assert forall|i: int| 0 <= i < response@.items.len() implies {
                &&& #[trigger] response@.items[i] == AddItemResponse::stamp(
                    request.items[i],
                    response@.items[i].id,
                )
                &&& is_random_id(response@.items[i].id)
            } by {
                assert(response@.items[i] == response.items[i]@);
                assert(request.items[i] == source[i]@);
            }
        }
        response
    }
}

/// The creation of a group as it is acknowledged to its owner.
#[derive(Debug, Clone, PartialEq, Eq)]
pub struct CreateGroupResponse {
    pub group_id: u128,
    pub group_owner_id: u128,
    pub name: String,
}

pub struct CreateGroupResponseView {
    pub group_id: u128,
    pub group_owner_id: u128,
    pub name: Seq<char>,
}

impl View for CreateGroupResponse {
    type V = CreateGroupResponseView;

    open spec fn view(&self) -> CreateGroupResponseView {
        CreateGroupResponseView {
            group_id: self.group_id,
            group_owner_id: self.group_owner_id,
            name: self.name@,
        }
    }
}

impl GroupId for CreateGroupResponse {
    open spec fn group(&self) -> u128 {
        self.group_id
    }

    fn get_group_id(&self) -> (id: &u128) {
        &self.group_id
    }
}

impl CreateGroupResponse {
    /// The response to `request`, the new group under the identifier `id`.
    pub open spec fn stamp(request: CreateGroupRequestView, id: u128) -> CreateGroupResponseView {
        CreateGroupResponseView {
            group_id: id,
            group_owner_id: request.group_owner_id,
            name: request.name,
        }
    }

    /// Answers `value`, the new group under a given identifier.
    pub fn with_id(value: CreateGroupRequest, id: u128) -> (response: Self)
        ensures
            response@ == Self::stamp(value@, id),
    {
        Self { group_id: id, group_owner_id: value.group_owner_id, name: value.name }
    }

    /// Answers `value`, the new group under a fresh identifier.
    pub fn from_request(value: CreateGroupRequest) -> (response: Self)
        ensures
            response@ == Self::stamp(value@, response.group_id),
            is_random_id(response.group_id),
    {
        Self::with_id(value, new_id())
    }
}

/// An event as it is distributed to its recipients.
#[derive(Debug, Clone, PartialEq, Eq)]
pub enum WebsocketMessageResponse {
    DirectChatMessage(DirectChatMessageResponse),
    GroupChatMessage(GroupChatMessageResponse),
    AddItems(AddItemsResponse),
    RemoveItems(RemoveItemsMessage),
    JoinGroup(JoinGroupRequest),
    ApproveJoin(ApproveJoin),
    CreateGroup(CreateGroupResponse),
}

pub enum WebsocketMessageResponseView {
    DirectChatMessage(DirectChatMessageResponseView),
    GroupChatMessage(GroupChatMessageResponseView),
    AddItems(AddItemsResponseView),
    RemoveItems(RemoveItemsMessageView),
    JoinGroup(JoinGroupRequest),
    ApproveJoin(ApproveJoin),
    CreateGroup(CreateGroupResponseView),
}

impl View for WebsocketMessageResponse {
    type V = WebsocketMessageResponseView;

    open spec fn view(&self) -> WebsocketMessageResponseView {
        match self {
            WebsocketMessageResponse::DirectChatMessage(msg) => {
                WebsocketMessageResponseView::DirectChatMessage(msg@)
            },
            WebsocketMessageResponse::GroupChatMessage(msg) => {
                WebsocketMessageResponseView::GroupChatMessage(msg@)
            },
            WebsocketMessageResponse::AddItems(msg) => WebsocketMessageResponseView::AddItems(msg@),
            WebsocketMessageResponse::RemoveItems(msg) => {
                WebsocketMessageResponseView::RemoveItems(msg@)
            },
            WebsocketMessageResponse::JoinGroup(msg) => {
                WebsocketMessageResponseView::JoinGroup(*msg)
            },
            WebsocketMessageResponse::ApproveJoin(msg) => {
                WebsocketMessageResponseView::ApproveJoin(*msg)
            },
            WebsocketMessageResponse::CreateGroup(msg) => {
                WebsocketMessageResponseView::CreateGroup(msg@)
            },
        }
    }
}

impl WebsocketMessageResponseView {
    /// Whether the event belongs to the conversation's lasting history.
    /// Requests to join, approvals and creations of groups are control events
    /// and do not.
    pub open spec fn is_durable(self) -> bool {
        match self {
            WebsocketMessageResponseView::DirectChatMessage(_) => true,
            WebsocketMessageResponseView::GroupChatMessage(_) => true,
            WebsocketMessageResponseView::AddItems(_) => true,
            WebsocketMessageResponseView::RemoveItems(_) => true,
            WebsocketMessageResponseView::JoinGroup(_) => false,
            WebsocketMessageResponseView::ApproveJoin(_) => false,
            WebsocketMessageResponseView::CreateGroup(_) => false,
        }
    }

    /// The identifiers that the server assigned when it made the event: that
    /// of a chat message, those of the items added, that of a group created.
    pub open spec fn assigned_ids(self) -> Seq<u128> {
        match self {
            WebsocketMessageResponseView::DirectChatMessage(msg) => seq![msg.id],
            WebsocketMessageResponseView::GroupChatMessage(msg) => seq![msg.id],
            WebsocketMessageResponseView::AddItems(msg) => msg.items.map_values(
                |item: AddItemResponseView| item.id,
            ),
            WebsocketMessageResponseView::CreateGroup(msg) => seq![msg.group_id],
            _ => Seq::empty(),
        }
    }

    /// The group to whose members the event fans out, where it is such an
    /// event: a chat message to a group, or items added to or removed from a
    /// group's list.
    pub open spec fn fan_out_group(self) -> Option<u128> {
        match self {
            WebsocketMessageResponseView::GroupChatMessage(msg) => Some(msg.group_id),
            WebsocketMessageResponseView::AddItems(msg) => Some(msg.group_id),
            WebsocketMessageResponseView::RemoveItems(msg) => Some(msg.group_id),
            _ => None,
        }
    }

    /// The group that storage must be asked for before the event may be
    /// distributed: the group of an approval.
    pub open spec fn group_to_check(self) -> Option<u128> {
        match self {
            WebsocketMessageResponseView::ApproveJoin(msg) => Some(msg.group_id),
            _ => None,
        }
    }

    /// Whether `self` answers `request`: it is the variant that corresponds to
    /// the request's, with the request's fields. Where the server assigns an
    /// identifier it is a random one, and a direct chat message is unread and
    /// carries a reading of the clock. Removals, requests to join and
    /// approvals pass through unchanged.
    pub open spec fn answers(self, request: WebsocketMessageRequestView) -> bool {
        match request {
            WebsocketMessageRequestView::DirectChatMessage(msg) => {
                &&& self matches WebsocketMessageResponseView::DirectChatMessage(out)
                &&& out == DirectChatMessageResponse::stamp(msg, out.id, out.created_at)
                &&& is_random_id(out.id)
                &&& out.created_at.is_clock_reading()
            },
            WebsocketMessageRequestView::GroupChatMessage(msg) => {
                &&& self matches WebsocketMessageResponseView::GroupChatMessage(out)
                &&& out == GroupChatMessageResponse::stamp(msg, out.id)
                &&& is_random_id(out.id)
            },
            WebsocketMessageRequestView::AddItemsRequest(msg) => {
                &&& self matches WebsocketMessageResponseView::AddItems(out)
                &&& out.answers(msg)
            },
            WebsocketMessageRequestView::RemoveItems(msg) => {
                self == WebsocketMessageResponseView::RemoveItems(msg)
            },
            WebsocketMessageRequestView::JoinGroup(msg) => {
                self == WebsocketMessageResponseView::JoinGroup(msg)
            },
            WebsocketMessageRequestView::ApproveJoin(msg) => {
                self == WebsocketMessageResponseView::ApproveJoin(msg)
            },
            WebsocketMessageRequestView::CreateGroup(msg) => {
                &&& self matches WebsocketMessageResponseView::CreateGroup(out)
                &&& out == CreateGroupResponse::stamp(msg, out.group_id)
                &&& is_random_id(out.group_id)
            },
        }
    }
}

impl WebsocketMessageResponse {
    /// Whether the event is handed on to be stored.
    pub fn delayed_send(&self) -> (durable: bool)
        ensures
            durable == self@.is_durable(),
    {
        match &self {
            WebsocketMessageResponse::DirectChatMessage(_) => true,
            WebsocketMessageResponse::GroupChatMessage(_) => true,
            WebsocketMessageResponse::AddItems(_) => true,
            WebsocketMessageResponse::RemoveItems(_) => true,
            WebsocketMessageResponse::JoinGroup(_) => false,
            WebsocketMessageResponse::ApproveJoin(_) => false,
            WebsocketMessageResponse::CreateGroup(_) => false,
        }
    }

    /// The group that storage must be asked for before the event may be
    /// distributed, where there is one.
    pub fn group_to_check(&self) -> (group: Option<u128>)
        ensures
            group == self@.group_to_check(),
    {
        match self {
            WebsocketMessageResponse::ApproveJoin(msg) => Some(msg.group_id),
            _ => None,
        }
    }

    /// Turns a client's request into the event that is distributed. Every
    /// request has its response.
    pub fn from_request(value: WebsocketMessageRequest) -> (response: Self)
        ensures
            response@.answers(value@),
    {
        match value {
            WebsocketMessageRequest::DirectChatMessage(msg) => {
                WebsocketMessageResponse::DirectChatMessage(
                    DirectChatMessageResponse::from_request(msg),
                )
            },
            WebsocketMessageRequest::GroupChatMessage(msg) => {
                WebsocketMessageResponse::GroupChatMessage(
                    GroupChatMessageResponse::from_request(msg),
                )
            },
            WebsocketMessageRequest::AddItemsRequest(msg) => {
                WebsocketMessageResponse::AddItems(AddItemsResponse::from_request(msg))
            },
            WebsocketMessageRequest::RemoveItems(msg) => WebsocketMessageResponse::RemoveItems(msg),
            WebsocketMessageRequest::JoinGroup(msg) => WebsocketMessageResponse::JoinGroup(msg),
            WebsocketMessageRequest::ApproveJoin(msg) => WebsocketMessageResponse::ApproveJoin(msg),
            WebsocketMessageRequest::CreateGroup(msg) => {
                WebsocketMessageResponse::CreateGroup(CreateGroupResponse::from_request(msg))
            },
        }
    }
}

} // verus!
