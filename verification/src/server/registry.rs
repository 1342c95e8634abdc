//! Who is connected: a concurrent map from a user's id to the handle of that
//! user's connection, which is the producer side of the connection's
//! outbound queue under the number of the connection.
//!
//! There is at most one entry for a user: a second connection of the same
//! user takes the place of the first. Changing the registry asks for
//! exclusive access, so every change is one step that no other change
//! interleaves with.

use vstd::prelude::*;
use crate::server::queue::following;
use crate::server::queue::new_queue;
use crate::server::queue::ConnectionHandle;
use crate::server::queue::ConnectionQueue;
use crate::server::queue::TicketCounter;
use dashmap::DashMap;
use std::collections::hash_map::RandomState;

verus! {

/// `dashmap::DashMap`, a concurrent hash map.
#[verifier::external_type_specification]
#[verifier::external_body]
#[verifier::reject_recursive_types(K)]
#[verifier::reject_recursive_types(V)]
#[verifier::reject_recursive_types(S)]
pub struct ExDashMap<K, V, S>(DashMap<K, V, S>);

/// The entries that `map` holds: for each key the number of the connection
/// whose handle stands under it.
pub uninterp spec fn registered_connections(map: DashMap<i64, ConnectionHandle, RandomState>) -> Map<i64, u64>;

/// The entries of a registry that nobody is connected to.
pub open spec fn no_connections() -> Map<i64, u64> {
    Map::empty()
}

/// `DashMap::new`: a map without entries.
#[verifier::external_body]
fn map_new() -> (created: DashMap<i64, ConnectionHandle, RandomState>)
    ensures
        registered_connections(created) == no_connections(),
{
    DashMap::new()
}

/// `DashMap::insert`: afterwards `value` stands under `key`, and the
/// entries of all other keys are as before. Returns the value that `key`
/// had, if it had one.
#[verifier::external_body]
fn map_insert(
    map: &mut DashMap<i64, ConnectionHandle, RandomState>,
    key: i64,
    value: ConnectionHandle,
) -> (previous: Option<ConnectionHandle>)
    ensures
        registered_connections(*final(map)) == registered_connections(*old(map)).insert(
            key,
            value.number(),
        ),
        previous.is_some() == registered_connections(*old(map)).dom().contains(key),
        previous matches Some(handle) ==> handle.number() == registered_connections(
            *old(map),
        )[key],
{
    map.insert(key, value)
}

/// `DashMap::remove`: afterwards the map holds no entry for `key`, and the
/// entries of all other keys are as before. Returns the value that `key`
/// had, if it had one.
#[verifier::external_body]
fn map_remove(map: &mut DashMap<i64, ConnectionHandle, RandomState>, key: i64) -> (removed: Option<
    ConnectionHandle,
>)
    ensures
        registered_connections(*final(map)) == registered_connections(*old(map)).remove(key),
        removed.is_some() == registered_connections(*old(map)).dom().contains(key),
        removed matches Some(handle) ==> handle.number() == registered_connections(
            *old(map),
        )[key],
{
    match map.remove(&key) {
        Some((_, value)) => Some(value),
        None => None,
    }
}

/// `DashMap::get`, `Ref::value` and the handle's `clone`: a copy of the
/// handle that stands under `key`, if one does, which bears the same
/// number and feeds the same queue.
#[verifier::external_body]
fn map_get(map: &DashMap<i64, ConnectionHandle, RandomState>, key: i64) -> (found: Option<
    ConnectionHandle,
>)
    ensures
        found.is_some() == registered_connections(*map).dom().contains(key),
        found matches Some(handle) ==> handle.number() == registered_connections(*map)[key],
{
    match map.get(&key) {
        Some(entry) => Some(entry.value().clone()),
        None => None,
    }
}

/// `DashMap::contains_key`: whether the map holds an entry for `key`.
#[verifier::external_body]
fn map_contains(map: &DashMap<i64, ConnectionHandle, RandomState>, key: i64) -> (found: bool)
    ensures
        found == registered_connections(*map).dom().contains(key),
{
    map.contains_key(&key)
}

/// Those of `users` that are among `connected`, in the order and as often
/// as `users` lists them.
pub open spec fn connected_among(users: Seq<i64>, connected: Set<i64>) -> Seq<i64>
    decreases users.len(),
{
    if users.len() == 0 {
        Seq::empty()
    } else if connected.contains(users.last()) {
        connected_among(users.drop_last(), connected).push(users.last())
    } else {
        connected_among(users.drop_last(), connected)
    }
}

/// How often `user` stands in `users`.
pub open spec fn occurrences(users: Seq<i64>, user: i64) -> nat
    decreases users.len(),
{
    if users.len() == 0 {
        0
    } else if users.last() == user {
        occurrences(users.drop_last(), user) + 1
    } else {
        occurrences(users.drop_last(), user)
    }
}

/// One change to the registry.
#[allow(inconsistent_fields)]
#[derive(Clone, Copy, Debug, PartialEq, Eq, Structural)]
pub enum RegistryChange {
    /// A connection of a user is admitted.
    Admit { user: i64, connection: u64 },
    /// A connection of a user has ended.
    End { user: i64, connection: u64 },
}

/// The user that a change names.
pub open spec fn changed_user(change: RegistryChange) -> i64 {
    match change {
        RegistryChange::Admit { user, connection } => user,
        RegistryChange::End { user, connection } => user,
    }
}

/// The entries after one change. A connection that is admitted takes the
/// place of any that the user had. A connection that has ended takes the
/// user's entry with it where the entry is still its own, and leaves the
/// entries alone where the user is gone or has connected anew.
pub open spec fn apply_change(entries: Map<i64, u64>, change: RegistryChange) -> Map<i64, u64> {
    match change {
        RegistryChange::Admit { user, connection } => entries.insert(user, connection),
        RegistryChange::End { user, connection } => if entries.dom().contains(user)
            && entries[user] == connection {
            entries.remove(user)
        } else {
            entries
        },
    }
}

/// The entries once `changes` are made, one after the other, to the
/// entries `start`.
pub open spec fn after_changes(start: Map<i64, u64>, changes: Seq<RegistryChange>) -> Map<i64, u64>
    decreases changes.len(),
{
    if changes.len() == 0 {
        start
    } else {
        apply_change(after_changes(start, changes.drop_last()), changes.last())
    }
}

/// The connection that stands under `user`, if one does.
pub open spec fn entry(entries: Map<i64, u64>, user: i64) -> Option<u64> {
    if entries.dom().contains(user) {
        Some(entries[user])
    } else {
        None
    }
}

/// Those of `changes` that name `user`, in their order.
pub open spec fn own_changes(changes: Seq<RegistryChange>, user: i64) -> Seq<RegistryChange>
    decreases changes.len(),
{
    if changes.len() == 0 {
        Seq::empty()
    } else if changed_user(changes.last()) == user {
        own_changes(changes.drop_last(), user).push(changes.last())
    } else {
        own_changes(changes.drop_last(), user)
    }
}

/// The registry is consistent under every order of changes: what stands
/// under a user at the end is what the user's own changes, in their own
/// order, make of what stood under the user at the start. However the
/// changes of different users interleave, no change to one user is lost
/// to, or made by, a change to another.
pub proof fn lemma_registry_consistent(
    start: Map<i64, u64>,
    changes: Seq<RegistryChange>,
    user: i64,
)
    ensures
        entry(after_changes(start, changes), user) == entry(
            after_changes(start, own_changes(changes, user)),
            user,
        ),
    decreases changes.len(),
{
    if changes.len() > 0 {
        let front = changes.drop_last();
        let last = changes.last();
        lemma_registry_consistent(start, front, user);
        if changed_user(last) == user {
            let own = own_changes(front, user);
            assert(own.push(last).drop_last() =~= own);
        }
    }
}

/// No admission and no removal is lost, however they interleave. Let each
/// user of `admitted` be admitted once, under the connection that
/// `admitted` names, and let the connections of the users `removed` among
/// them end, each after its own admission, in any order of the changes.
/// Then exactly the admitted users who were not removed stand in the
/// registry at the end, each under its own connection, beside the entries
/// from the start of the users that no change names.
pub proof fn lemma_registry_interleaving(
    start: Map<i64, u64>,
    changes: Seq<RegistryChange>,
    admitted: Map<i64, u64>,
    removed: Set<i64>,
)
    requires
        forall|k: int|
            0 <= k < changes.len() ==> admitted.dom().contains(changed_user(#[trigger] changes[k])),
        forall|user: i64|
            admitted.dom().contains(user) ==> #[trigger] own_changes(changes, user)
                == if removed.contains(user) {
                seq![
                    RegistryChange::Admit { user, connection: admitted[user] },
                    RegistryChange::End { user, connection: admitted[user] },
                ]
            } else {
                seq![RegistryChange::Admit { user, connection: admitted[user] }]
            },
    ensures
        forall|user: i64| #[trigger]
            entry(after_changes(start, changes), user) == if !admitted.dom().contains(user) {
                entry(start, user)
            } else if removed.contains(user) {
                None
            } else {
                Some(admitted[user])
            },
        after_changes(start, changes).dom() == start.dom().difference(admitted.dom()).union(
            admitted.dom().difference(removed),
        ),
{
    let end = after_changes(start, changes);
    assert forall|user: i64| #[trigger]
        entry(end, user) == if !admitted.dom().contains(user) {
            entry(start, user)
        } else if removed.contains(user) {
            None
        } else {
            Some(admitted[user])
        } by {
        lemma_registry_consistent(start, changes, user);
        let own = own_changes(changes, user);
        if !admitted.dom().contains(user) {
            lemma_own_changes_none(changes, user);
        } else {
            let admission = RegistryChange::Admit { user, connection: admitted[user] };
            let finish = RegistryChange::End { user, connection: admitted[user] };
            reveal_with_fuel(after_changes, 3);
            if removed.contains(user) {
                assert(own.drop_last() =~= seq![admission]);
                assert(seq![admission].drop_last() =~= Seq::<RegistryChange>::empty());
                assert(own.last() == finish);
            } else {
                assert(own.drop_last() =~= Seq::<RegistryChange>::empty());
                assert(own.last() == admission);
            }
        }
    }
    let expected = start.dom().difference(admitted.dom()).union(
        admitted.dom().difference(removed),
    );
    assert forall|user: i64| end.dom().contains(user) == expected.contains(user) by {
        assert(entry(end, user) is Some == end.dom().contains(user));
    }
    assert(end.dom() =~= expected);
}

/// A user whom no change names has no changes of their own.
proof fn lemma_own_changes_none(changes: Seq<RegistryChange>, user: i64)
    requires
        forall|k: int| 0 <= k < changes.len() ==> changed_user(#[trigger] changes[k]) != user,
    ensures
        own_changes(changes, user) == Seq::<RegistryChange>::empty(),
    decreases changes.len(),
{
    if changes.len() > 0 {
        let front = changes.drop_last();
        assert forall|k: int| 0 <= k < front.len() implies changed_user(#[trigger] front[k])
            != user by {
            assert(front[k] == changes[k]);
        }
        assert(changed_user(changes[changes.len() - 1]) != user);
        lemma_own_changes_none(front, user);
    }
}

/// The end of a connection does not touch the connection that took its
/// place: where a user connects, connects anew under another number, and
/// the first connection then ends, the second stands in the registry.
pub proof fn lemma_reconnect_survives(
    start: Map<i64, u64>,
    user: i64,
    first: u64,
    second: u64,
)
    requires
        first != second,
    ensures
        entry(
            after_changes(
                start,
                seq![
                    RegistryChange::Admit { user, connection: first },
                    RegistryChange::Admit { user, connection: second },
                    RegistryChange::End { user, connection: first },
                ],
            ),
            user,
        ) == Some(second),
{
    let changes = seq![
        RegistryChange::Admit { user, connection: first },
        RegistryChange::Admit { user, connection: second },
        RegistryChange::End { user, connection: first },
    ];
    reveal_with_fuel(after_changes, 4);
    assert(changes.drop_last() =~= seq![
        RegistryChange::Admit { user, connection: first },
        RegistryChange::Admit { user, connection: second },
    ]);
    assert(changes.drop_last().drop_last() =~= seq![
        RegistryChange::Admit { user, connection: first },
    ]);
    assert(changes.drop_last().drop_last().drop_last() =~= Seq::<RegistryChange>::empty());
}

/// The users of a list of handles, handle by handle.
pub open spec fn handle_users(found: Seq<(i64, ConnectionHandle)>) -> Seq<i64> {
    Seq::new(found.len(), |i: int| found[i].0)
}

/// Whether every handle of a list is the one that `entries` holds for the
/// user it is listed under.
pub open spec fn handles_registered(
    found: Seq<(i64, ConnectionHandle)>,
    entries: Map<i64, u64>,
) -> bool {
    forall|i: int|
        0 <= i < found.len() ==> entries.dom().contains((#[trigger] found[i]).0)
            && found[i].1.number() == entries[found[i].0]
}

/// The registry of connections.
pub struct ConnectionRegistry {
    entries: DashMap<i64, ConnectionHandle, RandomState>,
    counter: TicketCounter,
}

impl View for ConnectionRegistry {
    type V = Map<i64, u64>;

    /// For each user that is connected, the number of the user's
    /// connection.
    closed spec fn view(&self) -> Map<i64, u64> {
        registered_connections(self.entries)
    }
}

impl ConnectionRegistry {
    /// The number that the registry gives out next.
    pub closed spec fn upcoming(&self) -> u64 {
        self.counter.upcoming()
    }

    /// A registry that nobody is connected to.
    pub fn new() -> (registry: Self)
        ensures
            registry@ == no_connections(),
            registry.upcoming() == 0,
    {
        ConnectionRegistry { entries: map_new(), counter: TicketCounter::new() }
    }

    /// Opens the outbound queue of a new connection, of `capacity` frames,
    /// under the number that is due, after which the number that follows
    /// it is due. Both sides of the queue bear that number. Nobody is
    /// registered by this.
    pub fn open_queue(&mut self, capacity: usize) -> (sides: (ConnectionHandle, ConnectionQueue))
        requires
            1 <= capacity <= 0x1fff_ffff,
        ensures
            sides.0.number() == old(self).upcoming(),
            sides.1.number() == old(self).upcoming(),
            final(self).upcoming() == following(old(self).upcoming()),
            final(self)@ == old(self)@,
    {
        let ticket = self.counter.draw();
        new_queue(ticket, capacity)
    }

    /// Registers `handle` for `user_id`, in place of the handle that the
    /// user had, which is returned.
    pub fn insert(&mut self, user_id: i64, handle: ConnectionHandle) -> (previous: Option<
        ConnectionHandle,
    >)
        ensures
            final(self)@ == old(self)@.insert(user_id, handle.number()),
            final(self).upcoming() == old(self).upcoming(),
            previous.is_some() == old(self)@.dom().contains(user_id),
            previous matches Some(replaced) ==> replaced.number() == old(self)@[user_id],
    {
        map_insert(&mut self.entries, user_id, handle)
    }

    /// Takes `user_id` out of the registry and returns the handle that the
    /// user had.
    pub fn remove(&mut self, user_id: i64) -> (removed: Option<ConnectionHandle>)
        ensures
            final(self)@ == old(self)@.remove(user_id),
            final(self).upcoming() == old(self).upcoming(),
            removed.is_some() == old(self)@.dom().contains(user_id),
            removed matches Some(handle) ==> handle.number() == old(self)@[user_id],
    {
        map_remove(&mut self.entries, user_id)
    }

    /// The handle of `user_id`, where the user is connected.
    pub fn get(&self, user_id: i64) -> (handle: Option<ConnectionHandle>)
        ensures
            handle.is_some() == self@.dom().contains(user_id),
            handle matches Some(found) ==> found.number() == self@[user_id],
    {
        map_get(&self.entries, user_id)
    }

    /// Whether `user_id` is connected.
    pub fn contains(&self, user_id: i64) -> (connected: bool)
        ensures
            connected == self@.dom().contains(user_id),
    {
        map_contains(&self.entries, user_id)
    }

    /// The handles of those of `user_ids` that are connected, each with its
    /// user, in the order and as often as `user_ids` lists them. Each
    /// handle is the one registered for the user it stands with.
    pub fn get_many(&self, user_ids: &Vec<i64>) -> (found: Vec<(i64, ConnectionHandle)>)
        ensures
            handle_users(found@) == connected_among(user_ids@, self@.dom()),
            handles_registered(found@, self@),
    {
        let mut found: Vec<(i64, ConnectionHandle)> = Vec::new();
        let mut i: usize = 0;
        proof {
            assert(handle_users(found@) =~= connected_among(user_ids@.take(0), self@.dom()));
        }
        while i < user_ids.len()
            invariant
                i <= user_ids.len(),
                handle_users(found@) == connected_among(user_ids@.take(i as int), self@.dom()),
                handles_registered(found@, self@),
            decreases user_ids.len() - i,
        {
            let user_id = user_ids[i];
            let ghost before = handle_users(found@);
            proof {
                assert(user_ids@.take(i + 1).drop_last() =~= user_ids@.take(i as int));
            }
            match self.get(user_id) {
                Some(handle) => {
                    found.push((user_id, handle));
                    proof {
                        assert(handle_users(found@) =~= before.push(user_id));
                    }
                },
                None => {},
            }
            i = i + 1;
        }
        proof {
            assert(user_ids@.take(i as int) =~= user_ids@);
        }
        found
    }
}

} // verus!
