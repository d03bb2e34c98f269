use vstd::prelude::*;
use crate::db::models::chat_message::DirectChatMessage;
use crate::ids::is_nil;
use crate::ids::is_random_id;
use crate::ids::lemma_random_id_is_not_nil;
use crate::messages::websocket::request::WebsocketMessageRequestView;
use crate::messages::websocket::response::WebsocketMessageResponse;
use crate::workers::message_worker::forwarded;
use crate::messages::websocket::ApproveJoin;
use crate::messages::websocket::response::DirectChatMessageResponseView;
use crate::messages::websocket::response::WebsocketMessageResponseView;
use crate::workers::database_worker::records_of;
use crate::workers::database_worker::taken_in;
use crate::workers::message_worker::approver_valid;
use crate::workers::message_worker::evicted_by;
use crate::workers::message_worker::is_recipient;
use crate::workers::message_worker::recipients_of;
use crate::workers::message_worker::settled;
use crate::workers::message_worker::ActiveUserView;
use crate::workers::message_worker::GroupLookup;

verus! {

/// The response to a request is of the variant that corresponds to the
/// request's, and every identifier that the server assigned in it is a random
/// one, so none of them is the nil identifier.
pub proof fn theorem_response_corresponds_to_request(
    request: WebsocketMessageRequestView,
    response: WebsocketMessageResponseView,
)
    requires
        response.answers(request),
    ensures
        request is DirectChatMessage <==> response is DirectChatMessage,
        request is GroupChatMessage <==> response is GroupChatMessage,
        request is AddItemsRequest <==> response is AddItems,
        request is RemoveItems <==> response is RemoveItems,
        request is JoinGroup <==> response is JoinGroup,
        request is ApproveJoin <==> response is ApproveJoin,
        request is CreateGroup <==> response is CreateGroup,
        forall|i: int|
            0 <= i < response.assigned_ids().len() ==> is_random_id(
                #[trigger] response.assigned_ids()[i],
            ) && !is_nil(response.assigned_ids()[i]),
{
    assert forall|i: int| 0 <= i < response.assigned_ids().len() implies is_random_id(
        #[trigger] response.assigned_ids()[i],
    ) && !is_nil(response.assigned_ids()[i]) by {
        match response {
            WebsocketMessageResponseView::AddItems(msg) => {
                assert(msg.items[i].id == response.assigned_ids()[i]);
                assert(is_random_id(msg.items[i].id));
            },
            _ => {},
        }
        lemma_random_id_is_not_nil(response.assigned_ids()[i]);
    }
}

/// An event of the conversation's lasting history is handed on to be stored,
/// once and as it is, whoever received it. A control event is not handed on.
pub proof fn theorem_durable_event_is_handed_on(event: WebsocketMessageResponse)
    ensures
        event@.is_durable() ==> forwarded(event) == Some(event),
        !event@.is_durable() ==> forwarded(event) is None,
{
}

/// An event for a group reaches exactly the users who are online and belong
/// to the group.
pub proof fn theorem_group_fan_out<H>(
    users: Map<u128, ActiveUserView<H>>,
    event: WebsocketMessageResponseView,
    lookup: GroupLookup,
    user: u128,
)
    requires
        event.fan_out_group() is Some,
    ensures
        recipients_of(users, event, lookup).contains(user) <==> users.contains_key(user)
            && users[user].groups.contains(event.fan_out_group()->0),
{
}

/// A recipient to whom the push failed is gone from the registry, and no
/// later event reaches that user, whatever the event.
pub proof fn theorem_failed_recipient_is_evicted<H>(
    users: Map<u128, ActiveUserView<H>>,
    event: WebsocketMessageResponseView,
    lookup: GroupLookup,
    failed: Set<u128>,
    user: u128,
    later_event: WebsocketMessageResponseView,
    later_lookup: GroupLookup,
)
    requires
        failed.contains(user),
        is_recipient(users, event, lookup, user),
    ensures
        !settled(users, event, lookup, failed).contains_key(user),
        !recipients_of(settled(users, event, lookup, failed), later_event, later_lookup).contains(
            user,
        ),
{
    assert(evicted_by(users, event, lookup, failed).contains(user));
}

/// Only recipients to whom the push failed leave the registry: every other
/// user who was online stays online.
pub proof fn theorem_only_failed_recipients_leave<H>(
    users: Map<u128, ActiveUserView<H>>,
    event: WebsocketMessageResponseView,
    lookup: GroupLookup,
    failed: Set<u128>,
    user: u128,
)
    ensures
        settled(users, event, lookup, failed).contains_key(user) <==> users.contains_key(user) && !(
        failed.contains(user) && is_recipient(users, event, lookup, user)),
{
}

/// After an event for a group was pushed, a second event for the same group
/// reaches the recipients of the first to whom the push did not fail, and
/// nobody else.
pub proof fn theorem_fan_out_after_eviction<H>(
    users: Map<u128, ActiveUserView<H>>,
    event: WebsocketMessageResponseView,
    lookup: GroupLookup,
    failed: Set<u128>,
    second: WebsocketMessageResponseView,
    second_lookup: GroupLookup,
)
    requires
        event.fan_out_group() is Some,
        second.fan_out_group() == event.fan_out_group(),
    ensures
        recipients_of(settled(users, event, lookup, failed), second, second_lookup)
            == recipients_of(users, event, lookup).difference(failed),
{
    assert(recipients_of(settled(users, event, lookup, failed), second, second_lookup)
        =~= recipients_of(users, event, lookup).difference(failed));
}

/// A direct chat message to a user who is not online is pushed to nobody,
/// leaves the registry as it was, and is still handed on to be stored.
pub proof fn theorem_direct_chat_to_offline_user<H>(
    users: Map<u128, ActiveUserView<H>>,
    message: DirectChatMessageResponseView,
    lookup: GroupLookup,
    failed: Set<u128>,
)
    requires
        !users.contains_key(message.receiver_id),
    ensures
        recipients_of(users, WebsocketMessageResponseView::DirectChatMessage(message), lookup)
            == Set::<u128>::empty(),
        settled(users, WebsocketMessageResponseView::DirectChatMessage(message), lookup, failed)
            == users,
        WebsocketMessageResponseView::DirectChatMessage(message).is_durable(),
{
    let event = WebsocketMessageResponseView::DirectChatMessage(message);
    assert(recipients_of(users, event, lookup) =~= Set::<u128>::empty());
    assert(evicted_by(users, event, lookup, failed) =~= Set::<u128>::empty());
    assert(settled(users, event, lookup, failed) =~= users);
}

/// An approval whose sender storage does not show to be the group's owner
/// (the lookup failed, the group is missing, or somebody else owns it) is
/// pushed to nobody, changes nothing in the registry and is not stored.
pub proof fn theorem_unauthorized_approval_is_discarded<H>(
    users: Map<u128, ActiveUserView<H>>,
    approve_join: ApproveJoin,
    lookup: GroupLookup,
    failed: Set<u128>,
)
    requires
        !approver_valid(lookup, approve_join),
    ensures
        recipients_of(users, WebsocketMessageResponseView::ApproveJoin(approve_join), lookup)
            == Set::<u128>::empty(),
        settled(users, WebsocketMessageResponseView::ApproveJoin(approve_join), lookup, failed)
            == users,
        !WebsocketMessageResponseView::ApproveJoin(approve_join).is_durable(),
{
    let event = WebsocketMessageResponseView::ApproveJoin(approve_join);
    assert(recipients_of(users, event, lookup) =~= Set::<u128>::empty());
    assert(evicted_by(users, event, lookup, failed) =~= Set::<u128>::empty());
    assert(settled(users, event, lookup, failed) =~= users);
}

/// An approval sent by the group's owner is pushed to the candidate alone,
/// where the candidate is online. Where it says yes and the push did not
/// fail, the candidate has the group afterwards, and every other user's entry
/// is as it was.
pub proof fn theorem_authorized_approval_reaches_candidate<H>(
    users: Map<u128, ActiveUserView<H>>,
    approve_join: ApproveJoin,
    lookup: GroupLookup,
    failed: Set<u128>,
)
    requires
        approver_valid(lookup, approve_join),
        users.contains_key(approve_join.candidate_id),
    ensures
        recipients_of(users, WebsocketMessageResponseView::ApproveJoin(approve_join), lookup)
            == set![approve_join.candidate_id],
        approve_join.approved && !failed.contains(approve_join.candidate_id) ==> {
            let after = settled(
                users,
                WebsocketMessageResponseView::ApproveJoin(approve_join),
                lookup,
                failed,
            );
            &&& after.dom() == users.dom()
            &&& after[approve_join.candidate_id].groups
                == users[approve_join.candidate_id].groups.push(approve_join.group_id)
            &&& after[approve_join.candidate_id].groups.contains(approve_join.group_id)
            &&& forall|other: u128|
                other != approve_join.candidate_id && users.contains_key(other)
                    ==> #[trigger] after[other] == users[other]
        },
{
    let event = WebsocketMessageResponseView::ApproveJoin(approve_join);
    assert(recipients_of(users, event, lookup) =~= set![approve_join.candidate_id]);
    if approve_join.approved && !failed.contains(approve_join.candidate_id) {
        let after = settled(users, event, lookup, failed);
        assert(evicted_by(users, event, lookup, failed) =~= Set::<u128>::empty());
        assert(after.dom() =~= users.dom());
        let groups = users[approve_join.candidate_id].groups;
        assert(groups.push(approve_join.group_id)[groups.len() as int] == approve_join.group_id);
    }
}

/// Requests to join, approvals and creations of groups are never handed on
/// to be stored.
pub proof fn theorem_control_events_are_not_stored(event: WebsocketMessageResponseView)
    requires
        event is JoinGroup || event is ApproveJoin || event is CreateGroup,
    ensures
        !event.is_durable(),
{
}

/// The buffer after the events of `events` came in, in their order.
pub open spec fn taken_in_all(
    buffer: Seq<DirectChatMessageResponseView>,
    events: Seq<WebsocketMessageResponseView>,
) -> Seq<DirectChatMessageResponseView>
    decreases events.len(),
{
    if events.len() == 0 {
        buffer
    } else {
        taken_in(taken_in_all(buffer, events.drop_last()), events.last())
    }
}

/// When direct chat messages come in, the buffer grows by exactly these, in
/// their order: the one write that the next flush hands out holds one record
/// for each of them, after those for what the buffer held before.
pub proof fn theorem_flush_holds_what_came_in(
    buffer: Seq<DirectChatMessageResponseView>,
    events: Seq<WebsocketMessageResponseView>,
)
    requires
        forall|i: int| 0 <= i < events.len() ==> events[i] is DirectChatMessage,
    ensures
        taken_in_all(buffer, events).len() == buffer.len() + events.len(),
        records_of(taken_in_all(buffer, events)).len() == buffer.len() + events.len(),
        forall|i: int|
            0 <= i < buffer.len() ==> #[trigger] records_of(taken_in_all(buffer, events))[i]
                == DirectChatMessage::record_of(buffer[i]),
        forall|i: int|
            0 <= i < events.len() ==> #[trigger] records_of(taken_in_all(buffer, events))[buffer.len()
                + i] == DirectChatMessage::record_of(events[i]->DirectChatMessage_0),
    decreases events.len(),
{
    if events.len() > 0 {
        theorem_flush_holds_what_came_in(buffer, events.drop_last());
        let shorter = taken_in_all(buffer, events.drop_last());
        assert forall|i: int| 0 <= i < events.len() implies #[trigger] records_of(
            taken_in_all(buffer, events),
        )[buffer.len() + i] == DirectChatMessage::record_of(events[i]->DirectChatMessage_0) by {
            if i < events.len() - 1 {
                assert(events.drop_last()[i] == events[i]);
                assert(records_of(shorter)[buffer.len() + i] == DirectChatMessage::record_of(
                    events[i]->DirectChatMessage_0,
                ));
            }
        }
        assert forall|i: int| 0 <= i < buffer.len() implies #[trigger] records_of(
            taken_in_all(buffer, events),
        )[i] == DirectChatMessage::record_of(buffer[i]) by {
            assert(records_of(shorter)[i] == DirectChatMessage::record_of(buffer[i]));
        }
    }
}

/// Events that are no direct chat messages leave the buffer as it was.
pub proof fn theorem_other_events_are_dropped(
    buffer: Seq<DirectChatMessageResponseView>,
    event: WebsocketMessageResponseView,
)
    requires
        !(event is DirectChatMessage),
    ensures
        taken_in(buffer, event) == buffer,
{
}

} // verus!
