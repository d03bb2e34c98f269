use vstd::prelude::*;
use vstd::std_specs::convert::FromSpecImpl;
use crate::db;

verus! {

/// What a client sends to create a group.
#[derive(Debug, Clone, PartialEq, Eq)]
pub struct CreateGroupRequest {
    pub group_owner_id: u128,
    pub name: String,
}

pub struct CreateGroupRequestView {
    pub group_owner_id: u128,
    pub name: Seq<char>,
}

impl View for CreateGroupRequest {
    type V = CreateGroupRequestView;

    open spec fn view(&self) -> CreateGroupRequestView {
        CreateGroupRequestView { group_owner_id: self.group_owner_id, name: self.name@ }
    }
}

/// A group as a client sees it.
#[derive(Debug, Clone, PartialEq, Eq)]
pub struct Group {
    pub group_id: u128,
    pub group_owner_id: u128,
    pub name: String,
}

impl From<db::models::Group> for Group {
    fn from(value: db::models::Group) -> (group: Self) {
        Self { group_id: value.id, group_owner_id: value.created_by_user, name: value.name }
    }
}

impl FromSpecImpl<db::models::Group> for Group {
    open spec fn obeys_from_spec() -> bool {
        true
    }

    open spec fn from_spec(value: db::models::Group) -> Self {
        Self { group_id: value.id, group_owner_id: value.created_by_user, name: value.name }
    }
}

/// What a group's owner sends to answer a request to join.
#[derive(Debug, Clone, Copy, PartialEq, Eq, Structural)]
pub struct ApproveJoin {
    pub candidate_id: u128,
    pub approved: bool,
    pub group_id: u128,
}

} // verus!
