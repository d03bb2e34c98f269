use vstd::prelude::*;
use crate::messages::websocket::response::WebsocketMessageResponse;
use crate::messages::workers::WorkerMessageRequest;
use crate::workers::message_worker::forwarded;
use crate::workers::message_worker::recipients_of;
use crate::workers::message_worker::settled;
use crate::workers::message_worker::ActiveUserView;
use crate::workers::message_worker::GroupLookup;
use crate::workers::message_worker::Registry;

verus! {

/// What the router waits for.
pub enum Stage<H> {
    /// The next message of the queue.
    Idle,
    /// The groups of the user who logs in over the connection with the
    /// given handle.
    Login(u128, H),
    /// The group of the approval that is to be distributed; the group's
    /// identifier is the second field.
    Approval(WebsocketMessageResponse, u128),
    /// The outcome of the pushes of the event, for which storage answered as
    /// given.
    Delivery(WebsocketMessageResponse, GroupLookup),
}

/// What the router asks its surroundings to do next.
pub enum RouterAction {
    /// Hand the event on to be stored, where there is one, and take the next
    /// message off the queue.
    Receive(Option<WebsocketMessageResponse>),
    /// Load the groups of the user from storage.
    LoadGroupIds(u128),
    /// Load the group from storage.
    LoadGroup(u128),
    /// Push the event that is being delivered to each of these users.
    Push(Vec<u128>),
}

/// What the surroundings hand back to the router.
pub enum RouterInput<H> {
    /// The next message of the queue.
    Message(WorkerMessageRequest<H>),
    /// The groups of the user who logs in, or `None` where they could not be
    /// loaded.
    GroupIds(Option<Vec<u128>>),
    /// What storage answered for the group of an approval.
    Group(GroupLookup),
    /// The users to whom the push failed.
    Pushed(Vec<u128>),
}

/// The router: the users who are online, and what it waits for. It handles
/// one message of its queue at a time, and asks its surroundings for
/// whatever needs storage or a connection.
pub struct Router<H> {
    pub user_state: Registry<H>,
    pub stage: Stage<H>,
}

/// Whether `action` asks to push to the recipients of `event`, each once.
pub open spec fn pushes_to_recipients<H>(
    action: RouterAction,
    users: Map<u128, ActiveUserView<H>>,
    event: WebsocketMessageResponse,
    lookup: GroupLookup,
) -> bool {
    &&& action matches RouterAction::Push(due)
    &&& due@.no_duplicates()
    &&& due@.to_set() == recipients_of(users, event@, lookup)
}

/// Whether `action` is what `stage` waits on: what the router asks again
/// when an input does not answer it.
pub open spec fn asks_again<H>(
    stage: Stage<H>,
    users: Map<u128, ActiveUserView<H>>,
    action: RouterAction,
) -> bool {
    match stage {
        Stage::Idle => action == RouterAction::Receive(None),
        Stage::Login(id, _) => action == RouterAction::LoadGroupIds(id),
        Stage::Approval(_, group) => action == RouterAction::LoadGroup(group),
        Stage::Delivery(event, lookup) => pushes_to_recipients(action, users, event, lookup),
    }
}

impl<H> Router<H> {
    /// A router with nobody online, waiting for its first message.
    pub fn new() -> (router: Self)
        ensures
            router.user_state@ == Map::<u128, ActiveUserView<H>>::empty(),
            router.stage is Idle,
    {
        Router { user_state: Registry::new(), stage: Stage::Idle }
    }

    /// The event whose pushes the router waits for, where it waits for such.
    pub fn delivering(&self) -> (event: Option<&WebsocketMessageResponse>)
        ensures
            match self.stage {
                Stage::Delivery(pending, _) => event == Some(&pending),
                _ => event is None,
            },
    {
        match &self.stage {
            Stage::Delivery(pending, _) => Some(pending),
            _ => None,
        }
    }

    /// Takes what the surroundings hand back and says what to do next.
    ///
    /// Waiting for a message: a shutdown removes the user; a login asks for
    /// the user's groups; an event is turned into its distributed form, and
    /// either asks for the group of an approval or is pushed to its
    /// recipients. Waiting for the groups of a login: the user is registered
    /// with them, or the login is dropped where there are none. Waiting for
    /// the group of an approval: the approval is pushed to its recipients,
    /// who are nobody unless the group's owner sent it. Waiting for the
    /// outcome of pushes: the registry is settled and the event handed on to
    /// be stored, unless it is a control event.
    ///
    /// An input that does not answer what the router waits for changes
    /// nothing, and the router asks again.
    pub fn step(&mut self, input: RouterInput<H>) -> (action: RouterAction)
        ensures
            match (old(self).stage, input) {
                (Stage::Idle, RouterInput::Message(WorkerMessageRequest::ClientShutdown(id))) => {
                    &&& final(self).user_state@ == old(self).user_state@.remove(id)
                    &&& final(self).stage is Idle
                    &&& action == RouterAction::Receive(None)
                },
                (
                    Stage::Idle,
                    RouterInput::Message(WorkerMessageRequest::ClientLogin(id, session)),
                ) => {
                    &&& final(self).user_state@ == old(self).user_state@
                    &&& final(self).stage == Stage::Login(id, session)
                    &&& action == RouterAction::LoadGroupIds(id)
                },
                (
                    Stage::Idle,
                    RouterInput::Message(WorkerMessageRequest::WebsocketMessage(request)),
                ) => {
                    &&& final(self).user_state@ == old(self).user_state@
                    &&& match final(self).stage {
                        Stage::Approval(event, group) => {
                            &&& event@.answers(request@)
                            &&& event@.group_to_check() == Some(group)
                            &&& action == RouterAction::LoadGroup(group)
                        },
                        Stage::Delivery(event, lookup) => {
                            &&& event@.answers(request@)
                            &&& event@.group_to_check() is None
                            &&& lookup == GroupLookup::NotAsked
                            &&& pushes_to_recipients(action, old(self).user_state@, event, lookup)
                        },
                        _ => false,
                    }
                },
                (Stage::Login(id, session), RouterInput::GroupIds(group_ids)) => {
                    &&& final(self).user_state@ == match group_ids {
                        Some(groups) => old(self).user_state@.insert(
                            id,
                            ActiveUserView { groups: groups@, websocket_session: session },
                        ),
                        None => old(self).user_state@,
                    }
                    &&& final(self).stage is Idle
                    &&& action == RouterAction::Receive(None)
                },
                (Stage::Approval(event, _), RouterInput::Group(lookup)) => {
                    &&& final(self).user_state@ == old(self).user_state@
                    &&& final(self).stage == Stage::<H>::Delivery(event, lookup)
                    &&& pushes_to_recipients(action, old(self).user_state@, event, lookup)
                },
                (Stage::Delivery(event, lookup), RouterInput::Pushed(failed)) => {
                    &&& final(self).user_state@ == settled(
                        old(self).user_state@,
                        event@,
                        lookup,
                        failed@.to_set(),
                    )
                    &&& final(self).stage is Idle
                    &&& action == RouterAction::Receive(forwarded(event))
                },
                _ => {
                    &&& final(self).user_state@ == old(self).user_state@
                    &&& final(self).stage == old(self).stage
                    &&& asks_again(old(self).stage, old(self).user_state@, action)
                },
            },
    {
        let mut stage = Stage::Idle;
        std::mem::swap(&mut stage, &mut self.stage);
        match (stage, input) {
            (Stage::Idle, RouterInput::Message(WorkerMessageRequest::ClientShutdown(id))) => {
                self.user_state.remove(id);
                RouterAction::Receive(None)
            },
            (Stage::Idle, RouterInput::Message(WorkerMessageRequest::ClientLogin(id, session))) => {
                self.stage = Stage::Login(id, session);
                RouterAction::LoadGroupIds(id)
            },
            (Stage::Idle, RouterInput::Message(WorkerMessageRequest::WebsocketMessage(request))) => {
                let event = WebsocketMessageResponse::from_request(request);
                match event.group_to_check() {
                    Some(group) => {
                        self.stage = Stage::Approval(event, group);
                        RouterAction::LoadGroup(group)
                    },
                    None => {
                        let lookup = GroupLookup::NotAsked;
                        let due = self.user_state.recipients(&event, &lookup);
                        self.stage = Stage::Delivery(event, lookup);
                        RouterAction::Push(due)
                    },
                }
            },
            (Stage::Login(id, session), RouterInput::GroupIds(group_ids)) => {
                self.user_state.insert_active_user_to_user_state(id, session, group_ids);
                RouterAction::Receive(None)
            },
            (Stage::Approval(event, _), RouterInput::Group(lookup)) => {
                let due = self.user_state.recipients(&event, &lookup);
                self.stage = Stage::Delivery(event, lookup);
                RouterAction::Push(due)
            },
            (Stage::Delivery(event, lookup), RouterInput::Pushed(failed)) => {
                RouterAction::Receive(self.user_state.settle(event, &lookup, &failed))
            },
            (Stage::Idle, _) => RouterAction::Receive(None),
            (Stage::Login(id, session), _) => {
                self.stage = Stage::Login(id, session);
                RouterAction::LoadGroupIds(id)
            },
            (Stage::Approval(event, group), _) => {
                self.stage = Stage::Approval(event, group);
                RouterAction::LoadGroup(group)
            },
            (Stage::Delivery(event, lookup), _) => {
                let due = self.user_state.recipients(&event, &lookup);
                self.stage = Stage::Delivery(event, lookup);
                RouterAction::Push(due)
            },
        }
    }
}

} // verus!
