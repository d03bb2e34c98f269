use vstd::prelude::*;
use std::collections::HashMap;
use vstd::std_specs::hash::spec_keys_iter;
use vstd::std_specs::iter::IteratorSpec;
use crate::db::models::group::Group;
use crate::ids::contains_id;
use crate::messages::websocket::ApproveJoin;
use crate::messages::websocket::response::WebsocketMessageResponse;
use crate::messages::websocket::response::WebsocketMessageResponseView;

verus! {

broadcast use vstd::std_specs::hash::group_hash_axioms;

/// A user with a live connection: the groups the user belongs to, as they
/// were loaded at login and extended by approvals since, and the handle that
/// pushes to the connection.
pub struct ActiveUser<H> {
    pub groups: Vec<u128>,
    pub websocket_session: H,
}

pub struct ActiveUserView<H> {
    pub groups: Seq<u128>,
    pub websocket_session: H,
}

impl<H> View for ActiveUser<H> {
    type V = ActiveUserView<H>;

    open spec fn view(&self) -> ActiveUserView<H> {
        ActiveUserView { groups: self.groups@, websocket_session: self.websocket_session }
    }
}

/// What durable storage answered when it was asked for the group of an
/// approval.
#[derive(Debug, Clone, PartialEq, Eq)]
pub enum GroupLookup {
    /// Storage was not asked.
    NotAsked,
    /// Storage could not be reached, or the query failed.
    Failed,
    /// Storage holds no such group.
    Missing,
    /// Storage holds the group.
    Found(Group),
}

/// Whether `lookup` shows that the user who sent `approve_join` owns the
/// group: storage holds the group, and that user created it.
pub open spec fn approver_valid(lookup: GroupLookup, approve_join: ApproveJoin) -> bool {
    lookup matches GroupLookup::Found(group) && group.created_by_user == approve_join.sender_id
}

/// Whether `user` is online in `users` and must receive `event`.
///
/// A direct chat message goes to its receiver. A group chat message and the
/// addition or removal of items go to every member of the group. A request
/// to join and the creation of a group go to the group's owner. An approval
/// goes to the candidate, and to nobody unless it is authorized.
pub open spec fn is_recipient<H>(
    users: Map<u128, ActiveUserView<H>>,
    event: WebsocketMessageResponseView,
    lookup: GroupLookup,
    user: u128,
) -> bool {
    users.contains_key(user) && match event {
        WebsocketMessageResponseView::DirectChatMessage(msg) => user == msg.receiver_id,
        WebsocketMessageResponseView::GroupChatMessage(msg) => users[user].groups.contains(
            msg.group_id,
        ),
        WebsocketMessageResponseView::AddItems(msg) => users[user].groups.contains(msg.group_id),
        WebsocketMessageResponseView::RemoveItems(msg) => users[user].groups.contains(
            msg.group_id,
        ),
        WebsocketMessageResponseView::JoinGroup(msg) => user == msg.group_owner_id,
        WebsocketMessageResponseView::ApproveJoin(msg) => approver_valid(lookup, msg) && user
            == msg.candidate_id,
        WebsocketMessageResponseView::CreateGroup(msg) => user == msg.group_owner_id,
    }
}

/// The users who must receive `event`.
pub open spec fn recipients_of<H>(
    users: Map<u128, ActiveUserView<H>>,
    event: WebsocketMessageResponseView,
    lookup: GroupLookup,
) -> Set<u128> {
    Set::new(|user: u128| is_recipient(users, event, lookup, user))
}

/// The users who lose their place in `users` once `event` has been pushed:
/// the recipients to whom the push failed.
pub open spec fn evicted_by<H>(
    users: Map<u128, ActiveUserView<H>>,
    event: WebsocketMessageResponseView,
    lookup: GroupLookup,
    failed: Set<u128>,
) -> Set<u128> {
    Set::new(|user: u128| failed.contains(user) && is_recipient(users, event, lookup, user))
}

/// The registry after `event` has been pushed to its recipients and the push
/// failed for those in `failed`.
///
/// The recipients in `failed` are gone. Where `event` is an authorized
/// approval that says yes, and the candidate is still there, the candidate
/// has joined the group. Nothing else changes.
pub open spec fn settled<H>(
    users: Map<u128, ActiveUserView<H>>,
    event: WebsocketMessageResponseView,
    lookup: GroupLookup,
    failed: Set<u128>,
) -> Map<u128, ActiveUserView<H>> {
    let kept = users.remove_keys(evicted_by(users, event, lookup, failed));
    match event {
        WebsocketMessageResponseView::ApproveJoin(msg) => {
            if approver_valid(lookup, msg) && msg.approved && kept.contains_key(msg.candidate_id) {
                kept.insert(
                    msg.candidate_id,
                    ActiveUserView {
                        groups: kept[msg.candidate_id].groups.push(msg.group_id),
                        websocket_session: kept[msg.candidate_id].websocket_session,
                    },
                )
            } else {
                kept
            }
        },
        _ => kept,
    }
}

/// What is handed on to be stored once `event` has been distributed: the event
/// itself, unless it is a control event.
pub open spec fn forwarded(event: WebsocketMessageResponse) -> Option<WebsocketMessageResponse> {
    if event@.is_durable() {
        Some(event)
    } else {
        None
    }
}

/// Decides whether the user who sent `approve_join` may approve: the group
/// must have been found in storage and must have been created by that user.
pub fn is_approver_valid(lookup: &GroupLookup, approve_join: &ApproveJoin) -> (valid: bool)
    ensures
        valid == approver_valid(*lookup, *approve_join),
{
    match lookup {
        GroupLookup::Found(group) => group.created_by_user == approve_join.sender_id,
        _ => false,
    }
}

/// The keys of `map`, each once, in the order in which the map hands them out.
fn keys_of<V>(map: &HashMap<u128, V>) -> (keys: Vec<u128>)
    ensures
        keys@.no_duplicates(),
        keys@.to_set() == map@.dom(),
{
    let mut keys: Vec<u128> = Vec::new();
    let ghost all = spec_keys_iter(map).remaining();
    for key in it: map.keys()
        invariant
            it.seq() == all,
            keys@.len() == it.index(),
            forall|j: int| 0 <= j < keys@.len() ==> keys@[j] == *all[j],
    {
        keys.push(*key);
    }
    proof {
        assert(keys@ =~= all.unref());
        assert(keys@.no_duplicates()) by {
            assert forall|i: int, j: int|
                0 <= i < keys@.len() && 0 <= j < keys@.len() && i != j implies keys@[i]
                != keys@[j] by {
                assert(all[i] != all[j]);
            }
        }
    }
    keys
}

/// The users who are online, by identifier. One user has at most one entry.
pub struct Registry<H> {
    pub users: HashMap<u128, ActiveUser<H>>,
}

impl<H> View for Registry<H> {
    type V = Map<u128, ActiveUserView<H>>;

    open spec fn view(&self) -> Map<u128, ActiveUserView<H>> {
        self.users@.map_values(|user: ActiveUser<H>| user@)
    }
}

impl<H> Registry<H> {
    /// A registry with nobody online.
    pub fn new() -> (registry: Self)
        ensures
            registry@ == Map::<u128, ActiveUserView<H>>::empty(),
    {
        let registry = Registry { users: HashMap::new() };
        assert(registry@ =~= Map::<u128, ActiveUserView<H>>::empty());
        registry
    }

    /// The number of users online.
    pub fn len(&self) -> (n: usize)
        ensures
            n == self@.len(),
    {
        assert(self@.dom() =~= self.users@.dom());
        self.users.len()
    }

    /// The entry of `id`, where that user is online.
    pub fn get(&self, id: u128) -> (entry: Option<&ActiveUser<H>>)
        ensures
            entry is Some == self@.contains_key(id),
            entry matches Some(user) ==> user@ == self@[id],
    {
        self.users.get(&id)
    }

    /// Registers a user who logged in over the connection `session`, with the
    /// groups that storage holds for the user. A user who was online already
    /// has the old entry replaced. Where the groups could not be loaded
    /// (`group_ids` is `None`) the login is dropped and nothing changes.
    pub fn insert_active_user_to_user_state(
        &mut self,
        id: u128,
        session: H,
        group_ids: Option<Vec<u128>>,
    ) -> (registered: bool)
        ensures
            registered == group_ids is Some,
            final(self)@ == match group_ids {
                Some(groups) => old(self)@.insert(
                    id,
                    ActiveUserView { groups: groups@, websocket_session: session },
                ),
                None => old(self)@,
            },
    {
        match group_ids {
            Some(groups) => {
                let ghost before = self@;
                let ghost entry = ActiveUserView { groups: groups@, websocket_session: session };
                self.users.insert(id, ActiveUser { groups, websocket_session: session });
                assert(self@ =~= before.insert(id, entry));
                true
            },
            None => false,
        }
    }

    /// Takes `id` off the registry. A user who is not online is no error.
    pub fn remove(&mut self, id: u128)
        ensures
            final(self)@ == old(self)@.remove(id),
    {
        let ghost before = self@;
        self.users.remove(&id);
        assert(self@ =~= before.remove(id));
    }

    /// The users online who belong to `group_id`, each once.
    pub fn get_group_users(&self, group_id: u128) -> (members: Vec<u128>)
        ensures
            members@.no_duplicates(),
            members@.to_set() == Set::new(
                |user: u128| self@.contains_key(user) && self@[user].groups.contains(group_id),
            ),
    {
        let keys = keys_of(&self.users);
        let mut members: Vec<u128> = Vec::new();
        let mut i: usize = 0;
        while i < keys.len()
            invariant
                i <= keys.len(),
                keys@.no_duplicates(),
                keys@.to_set() == self.users@.dom(),
                members@.no_duplicates(),
                forall|user: u128|
                    members@.contains(user) <==> keys@.take(i as int).contains(user)
                        && self@[user].groups.contains(group_id),
            decreases keys.len() - i,
        {
            let id = keys[i];
            let ghost earlier = members@;
            proof {
                assert(keys@.to_set().contains(id));
                assert(self@[id] == self.users@[id]@);
                lemma_take_next(keys@, i as int);
                assert(!keys@.take(i as int).contains(id)) by {
                    if keys@.take(i as int).contains(id) {
                        let j = choose|j: int|
                            0 <= j < i && keys@.take(i as int)[j] == id;
                        assert(keys@[j] == keys@[i as int]);
                    }
                }
            }
            let is_member = match self.users.get(&id) {
                Some(user) => contains_id(&user.groups, group_id),
                None => false,
            };
            if is_member {
                members.push(id);
            }
            proof {
                assert forall|user: u128|
                    members@.contains(user) <==> keys@.take(i + 1).contains(user)
                        && self@[user].groups.contains(group_id) by {
                    lemma_push_contains(keys@.take(i as int), id, user);
                    if is_member {
                        lemma_push_contains(earlier, id, user);
                    }
                }
                if is_member {
                    lemma_push_no_duplicates(earlier, id);
                }
            }
            i += 1;
        }
        proof {
            let wanted = Set::new(
                |user: u128| self@.contains_key(user) && self@[user].groups.contains(group_id),
            );
            assert(keys@.take(i as int) =~= keys@);
            assert forall|user: u128| members@.to_set().contains(user) <==> wanted.contains(
                user,
            ) by {
                assert(keys@.to_set().contains(user) <==> keys@.contains(user));
                assert(self@.contains_key(user) <==> self.users@.dom().contains(user));
            }
            assert(members@.to_set() =~= wanted);
        }
        members
    }

    /// Whether `user` is online and must receive `event`.
    pub fn receives(
        &self,
        event: &WebsocketMessageResponse,
        lookup: &GroupLookup,
        user: u128,
    ) -> (due: bool)
        ensures
            due == is_recipient(self@, event@, *lookup, user),
    {
        match self.users.get(&user) {
            None => false,
            Some(entry) => {
                assert(self@[user] == entry@);
                match event {
                    WebsocketMessageResponse::DirectChatMessage(msg) => user == msg.receiver_id,
                    WebsocketMessageResponse::GroupChatMessage(msg) => contains_id(
                        &entry.groups,
                        msg.group_id,
                    ),
                    WebsocketMessageResponse::AddItems(msg) => contains_id(&entry.groups, msg.group_id),
                    WebsocketMessageResponse::RemoveItems(msg) => contains_id(
                        &entry.groups,
                        msg.group_id,
                    ),
                    WebsocketMessageResponse::JoinGroup(msg) => user == msg.group_owner_id,
                    WebsocketMessageResponse::ApproveJoin(msg) => is_approver_valid(lookup, msg)
                        && user == msg.candidate_id,
                    WebsocketMessageResponse::CreateGroup(msg) => user == msg.group_owner_id,
                }
            },
        }
    }

    /// `user` alone where that user is online, else nobody.
    fn online(&self, user: u128) -> (found: Vec<u128>)
        ensures
            found@.no_duplicates(),
            found@.to_set() == Set::new(|other: u128| self@.contains_key(other) && other == user),
    {
        let mut found: Vec<u128> = Vec::new();
        if self.users.contains_key(&user) {
            found.push(user);
            assert(found@[0] == user);
        }
        assert(found@.to_set() =~= Set::new(
            |other: u128| self@.contains_key(other) && other == user,
        ));
        found
    }

    /// The users to push `event` to, each once. `lookup` is what storage
    /// answered for the group of an approval; for any other event it is not
    /// looked at.
    pub fn recipients(&self, event: &WebsocketMessageResponse, lookup: &GroupLookup) -> (due: Vec<
        u128,
    >)
        ensures
            due@.no_duplicates(),
            due@.to_set() == recipients_of(self@, event@, *lookup),
    {
        let due = match event {
            WebsocketMessageResponse::DirectChatMessage(msg) => self.online(msg.receiver_id),
            WebsocketMessageResponse::GroupChatMessage(msg) => self.get_group_users(msg.group_id),
            WebsocketMessageResponse::AddItems(msg) => self.get_group_users(msg.group_id),
            WebsocketMessageResponse::RemoveItems(msg) => self.get_group_users(msg.group_id),
            WebsocketMessageResponse::JoinGroup(msg) => self.online(msg.group_owner_id),
            WebsocketMessageResponse::ApproveJoin(msg) => {
                if is_approver_valid(lookup, msg) {
                    self.online(msg.candidate_id)
                } else {
                    Vec::new()
                }
            },
            WebsocketMessageResponse::CreateGroup(msg) => self.online(msg.group_owner_id),
        };
        assert(due@.to_set() =~= recipients_of(self@, event@, *lookup));
        due
    }

    /// Brings the registry up to date once `event` has been pushed to its
    /// recipients: `failed` names the users to whom the push failed.
    ///
    /// Each recipient in `failed` loses its entry; naming a user who was no
    /// recipient changes nothing. Where `event` is an authorized approval that
    /// says yes and the candidate is still online, the group is added to the
    /// candidate's groups. The event comes back where it is to be handed on to
    /// be stored.
    pub fn settle(
        &mut self,
        event: WebsocketMessageResponse,
        lookup: &GroupLookup,
        failed: &Vec<u128>,
    ) -> (forward: Option<WebsocketMessageResponse>)
        ensures
            final(self)@ == settled(old(self)@, event@, *lookup, failed@.to_set()),
            forward == forwarded(event),
    {
        let ghost before = self@;
        let mut i: usize = 0;
        assert(self@ =~= before.remove_keys(
            evicted_by(before, event@, *lookup, failed@.take(0).to_set()),
        ));
        while i < failed.len()
            invariant
                i <= failed.len(),
                self@ == before.remove_keys(
                    evicted_by(before, event@, *lookup, failed@.take(i as int).to_set()),
                ),
            decreases failed.len() - i,
        {
            let id = failed[i];
            let ghost mid = self@;
            let ghost gone = evicted_by(before, event@, *lookup, failed@.take(i as int).to_set());
            let due = self.receives(&event, lookup, id);
            if due {
                self.users.remove(&id);
            }
            proof {
                lemma_take_next(failed@, i as int);
                let next = evicted_by(before, event@, *lookup, failed@.take(i + 1).to_set());
                assert forall|user: u128| #[trigger]
                    next.contains(user) <==> gone.contains(user) || (due && user == id) by {
                    lemma_push_contains(failed@.take(i as int), id, user);
                }
                assert(next =~= if due {
                    gone.insert(id)
                } else {
                    gone
                });
                assert(self@ =~= if due {
                    mid.remove(id)
                } else {
                    mid
                });
                assert(self@ =~= before.remove_keys(next));
            }
            i += 1;
        }
        assert(failed@.take(i as int) =~= failed@);
        match &event {
            WebsocketMessageResponse::ApproveJoin(msg) => {
                if is_approver_valid(lookup, msg) && msg.approved {
                    let ghost kept = self@;
                    match self.users.remove(&msg.candidate_id) {
                        Some(candidate) => {
                            let ActiveUser { groups, websocket_session } = candidate;
                            let mut groups = groups;
                            groups.push(msg.group_id);
                            self.users.insert(
                                msg.candidate_id,
                                ActiveUser { groups, websocket_session },
                            );
                            assert(self@ =~= kept.insert(
                                msg.candidate_id,
                                ActiveUserView {
                                    groups: kept[msg.candidate_id].groups.push(msg.group_id),
                                    websocket_session: kept[msg.candidate_id].websocket_session,
                                },
                            ));
                        },
                        None => {
                            assert(self@ =~= kept);
                        },
                    }
                }
            },
            _ => {},
        }
        if event.delayed_send() {
            Some(event)
        } else {
            None
        }
    }
}

/// Pushing `x` adds `x` to what a sequence holds, and nothing else.
proof fn lemma_push_contains(s: Seq<u128>, x: u128, y: u128)
    ensures
        s.push(x).contains(y) <==> s.contains(y) || y == x,
{
    if s.push(x).contains(y) {
        let k = choose|k: int| 0 <= k < s.push(x).len() && s.push(x)[k] == y;
        if k < s.len() {
            assert(s[k] == y);
        }
    }
    if s.contains(y) {
        let k = choose|k: int| 0 <= k < s.len() && s[k] == y;
        assert(s.push(x)[k] == y);
    }
    if y == x {
        assert(s.push(x)[s.len() as int] == y);
    }
}

/// Pushing an element that a duplicate-free sequence lacks keeps it
/// duplicate-free.
proof fn lemma_push_no_duplicates(s: Seq<u128>, x: u128)
    requires
        s.no_duplicates(),
        !s.contains(x),
    ensures
        s.push(x).no_duplicates(),
{
    assert forall|i: int, j: int|
        0 <= i < s.push(x).len() && 0 <= j < s.push(x).len() && i != j implies s.push(x)[i]
        != s.push(x)[j] by {
        if i < s.len() && j < s.len() {
        } else if i < s.len() {
            assert(s.contains(s[i]));
        } else {
            assert(s.contains(s[j]));
        }
    }
}

/// The first `i + 1` elements are the first `i` and the one at `i`.
proof fn lemma_take_next(s: Seq<u128>, i: int)
    requires
        0 <= i < s.len(),
    ensures
        s.take(i + 1) == s.take(i).push(s[i]),
{
    assert(s.take(i + 1) =~= s.take(i).push(s[i]));
}

} // verus!
