//! The registry of live sessions, by connection identifier.
//!
//! The sessions are kept in a vector and found by comparing identifiers.
//! What a map would give for free, one session per identifier, is the
//! registry's invariant here; to the outside the registry is the map from
//! identifier to session.

use crate::client::{SSHClient, SSHClientView};
use crate::response::{completed, directory_after, ChannelOutput, ChannelOutputView, CommandResult};
use crate::text::same_text;
use vstd::prelude::*;

verus! {

/// One registered session with the identifier it is registered under.
struct Connection<T> {
    id: String,
    client: SSHClient<T>,
}

/// The sessions that are registered, each under its own identifier.
pub struct ConnectionsStore<T> {
    entries: Vec<Connection<T>>,
}

/// Whether `id` is the identifier of `entries[at]`.
spec fn registered_at<T>(entries: Seq<Connection<T>>, id: Seq<char>, at: int) -> bool {
    0 <= at < entries.len() && entries[at].id@ == id
}

/// A place in `entries` that is registered under `id`, if there is one.
spec fn place_of<T>(entries: Seq<Connection<T>>, id: Seq<char>) -> int {
    choose|at: int| registered_at(entries, id, at)
}

/// No identifier is registered at two places.
spec fn distinct<T>(entries: Seq<Connection<T>>) -> bool {
    forall|a: int, b: int|
        0 <= a < entries.len() && 0 <= b < entries.len() && #[trigger] entries[a].id@
            == #[trigger] entries[b].id@ ==> a == b
}

/// The sessions in `entries`, by identifier.
spec fn sessions<T>(entries: Seq<Connection<T>>) -> Map<Seq<char>, SSHClientView<T>> {
    Map::new(
        |id: Seq<char>| exists|at: int| registered_at(entries, id, at),
        |id: Seq<char>| entries[place_of(entries, id)].client@,
    )
}

/// The texts of `ids`, in their order.
pub open spec fn texts(ids: Seq<String>) -> Seq<Seq<char>> {
    ids.map_values(|id: String| id@)
}

/// The registry after the session under `id` took in what the channel
/// delivered for `command`. Without such a session nothing changes; no
/// other session ever does.
pub open spec fn after_command<T>(
    store: Map<Seq<char>, SSHClientView<T>>,
    id: Seq<char>,
    command: Seq<char>,
    output: ChannelOutputView,
) -> Map<Seq<char>, SSHClientView<T>> {
    if store.contains_key(id) {
        store.insert(
            id,
            SSHClientView {
                session: store[id].session,
                current_directory: directory_after(store[id].current_directory, command, output),
            },
        )
    } else {
        store
    }
}

impl<T> View for ConnectionsStore<T> {
    type V = Map<Seq<char>, SSHClientView<T>>;

    closed spec fn view(&self) -> Map<Seq<char>, SSHClientView<T>> {
        sessions(self.entries@)
    }
}

impl<T> ConnectionsStore<T> {
    #[verifier::type_invariant]
    spec fn well_formed(&self) -> bool {
        distinct(self.entries@)
    }

    /// A registry with no session in it.
    pub fn new() -> (store: Self)
        ensures
            store@ == Map::<Seq<char>, SSHClientView<T>>::empty(),
    {
        let store = ConnectionsStore { entries: Vec::new() };
        assert(store@ =~= Map::<Seq<char>, SSHClientView<T>>::empty());
        store
    }

    /// The place of `id` among the entries.
    fn position(&self, id: &str) -> (place: Option<usize>)
        ensures
            match place {
                Some(at) => registered_at(self.entries@, id@, at as int),
                None => forall|at: int| !registered_at(self.entries@, id@, at),
            },
    {
        let mut at: usize = 0;
        while at < self.entries.len()
            invariant
                at <= self.entries.len(),
                forall|k: int| 0 <= k < at ==> !registered_at(self.entries@, id@, k),
            decreases self.entries.len() - at,
        {
            if same_text(self.entries[at].id.as_str(), id) {
                return Some(at);
            }
            at = at + 1;
        }
        None
    }

    /// Moves the entries out, so that they can be changed one step at a
    /// time; `self` is left empty until they are put back.
    fn take_entries(&mut self) -> (entries: Vec<Connection<T>>)
        ensures
            entries@ == old(self).entries@,
            distinct(entries@),
    {
        proof {
            use_type_invariant(&*self);
        }
        let mut entries: Vec<Connection<T>> = Vec::new();
        core::mem::swap(&mut self.entries, &mut entries);
        entries
    }

    /// Whether a session is registered under `id`.
    pub fn contains(&self, id: &str) -> (present: bool)
        ensures
            present == self@.contains_key(id@),
    {
        self.position(id).is_some()
    }

    /// The session registered under `id`.
    pub fn get(&self, id: &str) -> (found: Option<&SSHClient<T>>)
        ensures
            match found {
                Some(client) => self@.contains_key(id@) && client@ == self@[id@],
                None => !self@.contains_key(id@),
            },
    {
        proof {
            use_type_invariant(self);
        }
        match self.position(id) {
            Some(at) => {
                proof {
                    lemma_session_at(self.entries@, id@, at as int);
                }
                Some(&self.entries[at].client)
            },
            None => None,
        }
    }

    /// Registers `client` under `id`. A session already registered under
    /// `id` is dropped and replaced.
    pub fn insert(&mut self, id: String, client: SSHClient<T>)
        ensures
            final(self)@ == old(self)@.insert(id@, client@),
    {
        let place = self.position(id.as_str());
        let mut entries = self.take_entries();
        let entry = Connection { id, client };
        match place {
            Some(at) => {
                proof {
                    lemma_replaced(entries@, at as int, entry);
                }
                entries.set(at, entry);
            },
            None => {
                proof {
                    lemma_appended(entries@, entry);
                }
                entries.push(entry);
            },
        }
        self.entries = entries;
    }

    /// Drops the session registered under `id` and says whether there was
    /// one.
    pub fn remove(&mut self, id: &str) -> (existed: bool)
        ensures
            existed == old(self)@.contains_key(id@),
            final(self)@ == old(self)@.remove(id@),
    {
        match self.position(id) {
            Some(at) => {
                let mut entries = self.take_entries();
                proof {
                    lemma_removed(entries@, at as int);
                }
                entries.remove(at);
                self.entries = entries;
                true
            },
            None => {
                assert(self@ =~= self@.remove(id@));
                false
            },
        }
    }

    /// The identifiers of all registered sessions, each once, in no
    /// particular order.
    pub fn list_ids(&self) -> (ids: Vec<String>)
        ensures
            texts(ids@).no_duplicates(),
            texts(ids@).to_set() == self@.dom(),
    {
        proof {
            use_type_invariant(self);
        }
        let mut ids: Vec<String> = Vec::new();
        let mut at: usize = 0;
        while at < self.entries.len()
            invariant
                at <= self.entries.len(),
                ids.len() == at,
                forall|k: int| 0 <= k < at ==> #[trigger] ids[k]@ == self.entries[k].id@,
            decreases self.entries.len() - at,
        {
            ids.push(self.entries[at].id.clone());
            at = at + 1;
        }
        proof {
            let names = texts(ids@);
            assert forall|a: int, b: int| 0 <= a < names.len() && 0 <= b < names.len() && a
                != b implies names[a] != names[b] by {
                assert(ids[a]@ == self.entries[a].id@);
                assert(ids[b]@ == self.entries[b].id@);
            }
            assert forall|key: Seq<char>| names.to_set().contains(key) implies self@.dom().contains(
                key,
            ) by {
                let k = choose|k: int| 0 <= k < names.len() && names[k] == key;
                assert(ids[k]@ == self.entries[k].id@);
                assert(registered_at(self.entries@, key, k));
            }
            assert forall|key: Seq<char>| self@.dom().contains(key) implies names.to_set().contains(
                key,
            ) by {
                let k = place_of(self.entries@, key);
                assert(registered_at(self.entries@, key, k));
                assert(ids[k]@ == self.entries[k].id@);
                assert(names[k] == key);
            }
            assert(names.to_set() =~= self@.dom());
        }
        ids
    }

    /// Hands what the channel delivered for `command` to the session
    /// registered under `id` and gives the caller's result; `None` if no
    /// session is registered under `id`.
    pub fn complete_command(&mut self, id: &str, command: &str, output: ChannelOutput) -> (result:
        Option<CommandResult>)
        ensures
            final(self)@ == after_command(old(self)@, id@, command@, output@),
            match result {
                Some(result) => old(self)@.contains_key(id@) && result@ == completed(
                    old(self)@[id@].current_directory,
                    command@,
                    output@,
                ),
                None => !old(self)@.contains_key(id@),
            },
    {
        let ghost store = self@;
        match self.position(id) {
            Some(at) => {
                let mut entries = self.take_entries();
                let ghost before = entries@;
                proof {
                    lemma_session_at(before, id@, at as int);
                }
                let result = entries[at].client.execute_command(command, output);
                proof {
                    assert(entries@ == before.update(at as int, entries@[at as int]));
                    lemma_replaced(before, at as int, entries@[at as int]);
                    assert(store.insert(id@, entries@[at as int].client@) =~= after_command(
                        store,
                        id@,
                        command@,
                        output@,
                    ));
                }
                self.entries = entries;
                Some(result)
            },
            None => None,
        }
    }
}

/// Replacing an entry by one with the same identifier replaces one session.
proof fn lemma_replaced<T>(entries: Seq<Connection<T>>, at: int, entry: Connection<T>)
    requires
        distinct(entries),
        registered_at(entries, entry.id@, at),
    ensures
        distinct(entries.update(at, entry)),
        sessions(entries.update(at, entry)) == sessions(entries).insert(entry.id@, entry.client@),
{
    let after = entries.update(at, entry);
    let wanted = sessions(entries).insert(entry.id@, entry.client@);
    assert forall|a: int, b: int|
        0 <= a < after.len() && 0 <= b < after.len() && #[trigger] after[a].id@
            == #[trigger] after[b].id@ implies a == b by {
        assert(entries[a].id@ == entries[b].id@);
    }
    assert forall|key: Seq<char>| sessions(after).contains_key(key) == wanted.contains_key(key) by {
        if sessions(after).contains_key(key) {
            let k = place_of(after, key);
            assert(registered_at(entries, key, k));
        }
        if sessions(entries).contains_key(key) {
            let k = place_of(entries, key);
            assert(registered_at(after, key, k));
        }
        if key == entry.id@ {
            assert(registered_at(after, key, at));
        }
    }
    assert forall|key: Seq<char>| wanted.contains_key(key) implies wanted[key] == sessions(
        after,
    )[key] by {
        let k = place_of(after, key);
        assert(registered_at(after, key, k));
        lemma_session_at(after, key, k);
        if key != entry.id@ {
            assert(registered_at(entries, key, k));
            lemma_session_at(entries, key, k);
        } else {
            lemma_session_at(after, key, at);
        }
    }
    assert(sessions(after) =~= wanted);
}

/// Appending an entry under a new identifier adds one session.
proof fn lemma_appended<T>(entries: Seq<Connection<T>>, entry: Connection<T>)
    requires
        distinct(entries),
        forall|at: int| !registered_at(entries, entry.id@, at),
    ensures
        distinct(entries.push(entry)),
        sessions(entries.push(entry)) == sessions(entries).insert(entry.id@, entry.client@),
{
    let after = entries.push(entry);
    let last = entries.len() as int;
    let wanted = sessions(entries).insert(entry.id@, entry.client@);
    assert forall|a: int, b: int|
        0 <= a < after.len() && 0 <= b < after.len() && #[trigger] after[a].id@
            == #[trigger] after[b].id@ implies a == b by {
        if a < last && b < last {
            assert(entries[a].id@ == entries[b].id@);
        } else if a < last {
            assert(registered_at(entries, entry.id@, a));
        } else if b < last {
            assert(registered_at(entries, entry.id@, b));
        }
    }
    assert forall|key: Seq<char>| sessions(after).contains_key(key) == wanted.contains_key(key) by {
        if sessions(after).contains_key(key) {
            let k = place_of(after, key);
            if k < last {
                assert(registered_at(entries, key, k));
            }
        }
        if sessions(entries).contains_key(key) {
            let k = place_of(entries, key);
            assert(registered_at(after, key, k));
        }
        if key == entry.id@ {
            assert(registered_at(after, key, last));
        }
    }
    assert forall|key: Seq<char>| wanted.contains_key(key) implies wanted[key] == sessions(
        after,
    )[key] by {
        let k = place_of(after, key);
        assert(registered_at(after, key, k));
        lemma_session_at(after, key, k);
        if key != entry.id@ {
            assert(registered_at(entries, key, k));
            lemma_session_at(entries, key, k);
        } else {
            lemma_session_at(after, key, last);
        }
    }
    assert(sessions(after) =~= wanted);
}

/// Taking an entry out takes out the session under its identifier.
proof fn lemma_removed<T>(entries: Seq<Connection<T>>, at: int)
    requires
        distinct(entries),
        0 <= at < entries.len(),
    ensures
        distinct(entries.remove(at)),
        sessions(entries.remove(at)) == sessions(entries).remove(entries[at].id@),
{
    let after = entries.remove(at);
    let wanted = sessions(entries).remove(entries[at].id@);
    assert forall|a: int, b: int|
        0 <= a < after.len() && 0 <= b < after.len() && #[trigger] after[a].id@
            == #[trigger] after[b].id@ implies a == b by {
        let a0 = if a < at { a } else { a + 1 };
        let b0 = if b < at { b } else { b + 1 };
        assert(entries[a0].id@ == entries[b0].id@);
    }
    assert forall|key: Seq<char>| sessions(after).contains_key(key) == wanted.contains_key(key) by {
        if sessions(after).contains_key(key) {
            let k = place_of(after, key);
            let k0 = if k < at { k } else { k + 1 };
            assert(registered_at(entries, key, k0));
            assert(entries[k0].id@ == entries[at].id@ ==> k0 == at);
        }
        if wanted.contains_key(key) {
            let k0 = place_of(entries, key);
            let k = if k0 < at { k0 } else { k0 - 1 };
            assert(registered_at(after, key, k));
        }
    }
    assert forall|key: Seq<char>| wanted.contains_key(key) implies wanted[key] == sessions(
        after,
    )[key] by {
        let k = place_of(after, key);
        assert(registered_at(after, key, k));
        lemma_session_at(after, key, k);
        let k0 = if k < at { k } else { k + 1 };
        assert(registered_at(entries, key, k0));
        lemma_session_at(entries, key, k0);
    }
    assert(sessions(after) =~= wanted);
}

/// With distinct identifiers, the session found under an identifier is the
/// one at any place registered under it.
proof fn lemma_session_at<T>(entries: Seq<Connection<T>>, id: Seq<char>, at: int)
    requires
        distinct(entries),
        registered_at(entries, id, at),
    ensures
        sessions(entries).contains_key(id),
        sessions(entries)[id] == entries[at].client@,
{
    assert(registered_at(entries, id, place_of(entries, id)));
}

} // verus!
