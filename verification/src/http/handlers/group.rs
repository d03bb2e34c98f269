use vstd::prelude::*;
use crate::db;
use crate::http::error::HttpError;
use crate::http::error::HttpErrorView;
use crate::http::models;
use crate::ids::contains_id;
use crate::messages::websocket::ApproveJoin;
use crate::messages::websocket::JoinGroupRequest;

verus! {

/// A group may be created only in the name of the user who asks: `user_id`,
/// the authenticated user, must be the owner that the request names.
pub fn check_create_group(user_id: u128, request: &models::CreateGroupRequest) -> (checked: Result<
    (),
    HttpError,
>)
    ensures
        checked is Ok == (user_id == request.group_owner_id),
        checked matches Err(error) ==> error@ == HttpErrorView::BadRequest(
            "Invalid group owner id"@,
        ),
{
    if user_id != request.group_owner_id {
        return Err(HttpError::BadRequest("Invalid group owner id".to_owned()));
    }
    Ok(())
}

/// The users of a group are shown only to a member: `group_id` must be among
/// `user_group_ids`, the groups of the user who asks.
pub fn check_group_member(user_group_ids: &Vec<u128>, group_id: u128) -> (checked: Result<
    (),
    HttpError,
>)
    ensures
        checked is Ok == user_group_ids@.contains(group_id),
        checked matches Err(error) ==> error@ == HttpErrorView::Unauthorized,
{
    if !contains_id(user_group_ids, group_id) {
        return Err(HttpError::Unauthorized);
    }
    Ok(())
}

/// The request to join that the user `user_id` makes for the group
/// `group_id`, of which storage holds `maybe_group`. A group that does not
/// exist is not found; the owner of a group cannot ask to join it. Else the
/// request is addressed to the group's owner.
pub fn join_group_request(
    user_id: u128,
    group_id: u128,
    maybe_group: &Option<db::models::Group>,
) -> (request: Result<JoinGroupRequest, HttpError>)
    ensures
        match *maybe_group {
            None => request matches Err(error) && error@ == HttpErrorView::NotFound,
            Some(group) => if group.created_by_user == user_id {
                request matches Err(error) && error@ == HttpErrorView::BadRequest(
                    "User is owner of the group"@,
                )
            } else {
                request == Ok::<JoinGroupRequest, HttpError>(
                    JoinGroupRequest {
                        sender_id: user_id,
                        group_owner_id: group.created_by_user,
                        group_id,
                    },
                )
            },
        },
{
    let group = match maybe_group {
        Some(group) => group,
        None => {
            return Err(HttpError::NotFound);
        },
    };
    if group.created_by_user == user_id {
        return Err(HttpError::BadRequest("User is owner of the group".to_owned()));
    }
    Ok(JoinGroupRequest { sender_id: user_id, group_owner_id: group.created_by_user, group_id })
}

/// A request to join is answered only by a user of the group: the group of
/// `approve_join` must be among `user_group_ids`, the groups of the user who
/// answers.
pub fn check_join_answer(user_group_ids: &Vec<u128>, approve_join: &models::ApproveJoin) -> (checked:
    Result<(), HttpError>)
    ensures
        checked is Ok == user_group_ids@.contains(approve_join.group_id),
        checked matches Err(error) ==> error@ == HttpErrorView::BadRequest(
            "Not owner of the group"@,
        ),
{
    if !contains_id(user_group_ids, approve_join.group_id) {
        return Err(HttpError::BadRequest("Not owner of the group".to_owned()));
    }
    Ok(())
}

/// The approval that is distributed once storage has recorded the answer
/// `approve_join` of the user `user_id`. `affected_rows` is the number of
/// requests to join that the answer met in storage; where it met none, the
/// candidate never asked.
pub fn approval(user_id: u128, approve_join: models::ApproveJoin, affected_rows: u64) -> (answer:
    Result<ApproveJoin, HttpError>)
    ensures
        if affected_rows == 0 {
            answer matches Err(error) && error@ == HttpErrorView::BadRequest(
                "User has no join request to the group"@,
            )
        } else {
            answer == Ok::<ApproveJoin, HttpError>(
                ApproveJoin {
                    candidate_id: approve_join.candidate_id,
                    sender_id: user_id,
                    approved: approve_join.approved,
                    group_id: approve_join.group_id,
                },
            )
        },
{
    if affected_rows == 0 {
        return Err(HttpError::BadRequest("User has no join request to the group".to_owned()));
    }
    Ok(
        ApproveJoin {
            candidate_id: approve_join.candidate_id,
            sender_id: user_id,
            approved: approve_join.approved,
            group_id: approve_join.group_id,
        },
    )
}

} // verus!
