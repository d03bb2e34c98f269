use vstd::prelude::*;
use vstd::std_specs::convert::FromSpecImpl;
use crate::http::models::group::CreateGroupRequest;
use crate::http::models::group::CreateGroupRequestView;
use crate::ids::is_random_id;
use crate::ids::new_id;

verus! {

/// A group as durable storage holds it. `created_by_user` is its owner.
#[derive(Debug, Clone, PartialEq, Eq)]
pub struct Group {
    pub id: u128,
    pub name: String,
    pub created_by_user: u128,
}

pub struct GroupView {
    pub id: u128,
    pub name: Seq<char>,
    pub created_by_user: u128,
}

impl View for Group {
    type V = GroupView;

    open spec fn view(&self) -> GroupView {
        GroupView { id: self.id, name: self.name@, created_by_user: self.created_by_user }
    }
}

impl Group {
    /// The group that `request` asks for, under the identifier `id`.
    pub open spec fn created(request: CreateGroupRequestView, id: u128) -> GroupView {
        GroupView { id, name: request.name, created_by_user: request.group_owner_id }
    }

    /// The group that `value` asks for, under a given identifier.
    pub fn with_id(value: CreateGroupRequest, id: u128) -> (group: Self)
        ensures
            group@ == Self::created(value@, id),
    {
        Self { created_by_user: value.group_owner_id, name: value.name, id }
    }

    /// The group that `value` asks for, under a fresh identifier.
    pub fn from_request(value: CreateGroupRequest) -> (group: Self)
        ensures
            group@ == Self::created(value@, group.id),
            is_random_id(group.id),
    {
        Self::with_id(value, new_id())
    }
}

/// What became of a request to join a group.
#[derive(Debug, Clone, Copy, PartialEq, Eq, Structural)]
pub enum ApproveJoinResolution {
    Approved,
    Unhandled,
    Unapproved,
}

impl From<bool> for ApproveJoinResolution {
    fn from(value: bool) -> (resolution: Self) {
        if value {
            ApproveJoinResolution::Approved
        } else {
            ApproveJoinResolution::Unapproved
        }
    }
}

impl FromSpecImpl<bool> for ApproveJoinResolution {
    open spec fn obeys_from_spec() -> bool {
        true
    }

    open spec fn from_spec(value: bool) -> Self {
        if value {
            ApproveJoinResolution::Approved
        } else {
            ApproveJoinResolution::Unapproved
        }
    }
}

impl ApproveJoinResolution {
    /// The word under which storage holds the resolution.
    pub open spec fn word(self) -> Seq<char> {
        match self {
            ApproveJoinResolution::Approved => "approved"@,
            ApproveJoinResolution::Unhandled => "unhandled"@,
            ApproveJoinResolution::Unapproved => "unapproved"@,
        }
    }

    /// The word under which storage holds the resolution.
    pub fn to_string(&self) -> (text: String)
        ensures
            text@ == self.word(),
    {
        match self {
            ApproveJoinResolution::Approved => "approved".to_owned(),
            ApproveJoinResolution::Unhandled => "unhandled".to_owned(),
            ApproveJoinResolution::Unapproved => "unapproved".to_owned(),
        }
    }
}

} // verus!
