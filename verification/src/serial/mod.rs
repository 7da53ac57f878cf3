//! Port sessions and the registry that holds them by name.

use vstd::prelude::*;
use vstd::string::*;
use vstd::slice::slice_to_vec;
use crate::config::SerialConnectionConfig;
use crate::text::same_text;

pub mod connection;

pub use connection::SerialConnection;

verus! {

/// One block of bytes, as read from or written to a device in one piece.
pub type SerialData = Vec<u8>;

/// A snapshot of a session's statistics.
#[derive(Debug, Clone, PartialEq, Eq)]
pub struct ConnectionStats {
    /// Name of the serial connection
    pub name: String,
    /// Serial port path
    pub port: String,
    /// Total bytes received from the serial port
    pub bytes_received: u64,
    /// Total bytes sent to the serial port
    pub bytes_sent: u64,
    /// Whether the connection is currently active
    pub is_connected: bool,
    /// Connection uptime in seconds
    pub uptime_seconds: u64,
}

/// Why the registry turned a request down.
#[derive(Debug, Clone, PartialEq, Eq)]
pub enum ManagerError {
    /// No session has this name.
    NotFound(String),
    /// A session with this name is already registered.
    DuplicateName(String),
}

/// What a client is told when no session has the name it asked for.
pub open spec fn not_found_text(name: Seq<char>) -> Seq<char> {
    "Connection not found: "@ + name
}

impl ManagerError {
    /// The text of the error as shown to API clients.
    pub open spec fn message_text(self) -> Seq<char> {
        match self {
            ManagerError::NotFound(name) => not_found_text(name@),
            ManagerError::DuplicateName(name) => "Duplicate connection name: "@ + name@,
        }
    }

    /// Renders the error for API clients.
    pub fn message(&self) -> (text: String)
        ensures
            text@ == self.message_text(),
    {
        match self {
            ManagerError::NotFound(name) => {
                String::from_str("Connection not found: ").concat(name.as_str())
            },
            ManagerError::DuplicateName(name) => {
                String::from_str("Duplicate connection name: ").concat(name.as_str())
            },
        }
    }
}

/// What to do with a descriptor that is offered to the registry.
#[derive(Debug, Clone, Copy, PartialEq, Eq, Structural)]
pub enum Admission {
    /// The port is disabled: succeed without creating anything.
    Skip,
    /// The name is taken: fail without opening the device.
    Duplicate,
    /// Open the device and register the session.
    Open,
}

/// A session that could not be registered, handed back so that it can be
/// stopped and is not leaked.
#[derive(Debug)]
pub struct Rejected<S> {
    pub error: ManagerError,
    pub session: S,
}

/// The decision on a descriptor, given the names already taken.
pub open spec fn admission<S>(
    sessions: Map<Seq<char>, S>,
    config: SerialConnectionConfig,
) -> Admission {
    if !config.enabled {
        Admission::Skip
    } else if sessions.contains_key(config.name@) {
        Admission::Duplicate
    } else {
        Admission::Open
    }
}

/// The sessions after `name` has been asked to be registered with `session`.
pub open spec fn after_add<S>(sessions: Map<Seq<char>, S>, name: Seq<char>, session: S) -> Map<
    Seq<char>,
    S,
> {
    if sessions.contains_key(name) {
        sessions
    } else {
        sessions.insert(name, session)
    }
}

/// The sessions after `name` has been asked to be removed.
pub open spec fn after_remove<S>(sessions: Map<Seq<char>, S>, name: Seq<char>) -> Map<
    Seq<char>,
    S,
> {
    sessions.remove(name)
}

/// The session that a removal of `name` hands out, if there is one.
pub open spec fn removed<S>(sessions: Map<Seq<char>, S>, name: Seq<char>) -> Option<S> {
    if sessions.contains_key(name) {
        Some(sessions[name])
    } else {
        None
    }
}

/// `names` lists the registered names, each exactly once.
pub open spec fn is_listing<S>(sessions: Map<Seq<char>, S>, names: Seq<Seq<char>>) -> bool {
    &&& names.no_duplicates()
    &&& forall|name: Seq<char>| #[trigger] names.contains(name) <==> sessions.contains_key(name)
}

/// `handed` holds the session of each name in `names`, in that order, and
/// `names` lists the registered names.
pub open spec fn is_handover_by<S>(
    sessions: Map<Seq<char>, S>,
    handed: Seq<S>,
    names: Seq<Seq<char>>,
) -> bool {
    &&& is_listing(sessions, names)
    &&& names.len() == handed.len()
    &&& forall|i: int| 0 <= i < handed.len() ==> handed[i] == sessions[#[trigger] names[i]]
}

/// `handed` holds every registered session, once for each name it is
/// registered under.
pub open spec fn is_handover<S>(sessions: Map<Seq<char>, S>, handed: Seq<S>) -> bool {
    exists|names: Seq<Seq<char>>| is_handover_by(sessions, handed, names)
}

/// The texts of a list of names.
pub open spec fn name_texts(names: Seq<String>) -> Seq<Seq<char>> {
    Seq::new(names.len(), |i: int| names[i]@)
}

struct Entry<S> {
    name: String,
    session: S,
}

/// The registry: at most one live session per name.
pub struct SerialManager<S> {
    entries: Vec<Entry<S>>,
}

impl<S> View for SerialManager<S> {
    type V = Map<Seq<char>, S>;

    closed spec fn view(&self) -> Map<Seq<char>, S> {
        Map::new(
            |name: Seq<char>| self.names().contains(name),
            |name: Seq<char>| self.entries@[self.names().index_of(name)].session,
        )
    }
}

impl<S> Default for SerialManager<S> {
    /// An empty registry.
    fn default() -> (manager: SerialManager<S>)
        ensures
            manager.well_formed(),
            manager@ == Map::<Seq<char>, S>::empty(),
    {
        SerialManager::new()
    }
}

impl<S> SerialManager<S> {
    /// The registered names, oldest first.
    spec fn names(&self) -> Seq<Seq<char>> {
        Seq::new(self.entries@.len(), |i: int| self.entries@[i].name@)
    }

    /// The registry's invariant: no name is registered twice. `new`
    /// establishes it and every method keeps it.
    pub closed spec fn well_formed(&self) -> bool {
        self.names().no_duplicates()
    }

    proof fn lemma_entry_at(&self, i: int)
        requires
            self.names().no_duplicates(),
            0 <= i < self.entries@.len(),
        ensures
            self@.contains_key(self.entries@[i].name@),
            self@[self.entries@[i].name@] == self.entries@[i].session,
            self.names().index_of(self.entries@[i].name@) == i,
    {
        let names = self.names();
        assert(names[i] == self.entries@[i].name@);
        assert(names.contains(names[i]));
        let k = names.index_of(names[i]);
        assert(0 <= k < names.len() && names[k] == names[i]);
    }

    proof fn lemma_absent(&self, name: Seq<char>)
        requires
            forall|i: int| 0 <= i < self.entries@.len() ==> self.entries@[i].name@ != name,
        ensures
            !self@.contains_key(name),
    {
        if self.names().contains(name) {
            let k = choose|k: int| 0 <= k < self.names().len() && self.names()[k] == name;
            assert(self.entries@[k].name@ == name);
        }
    }

    /// An empty registry.
    pub fn new() -> (manager: SerialManager<S>)
        ensures
            manager.well_formed(),
            manager@ == Map::<Seq<char>, S>::empty(),
    {
        let manager = SerialManager { entries: Vec::new() };
        assert(manager.names() =~= Seq::<Seq<char>>::empty());
        assert(manager@ =~= Map::<Seq<char>, S>::empty());
        manager
    }

    fn position(&self, name: &str) -> (found: Option<usize>)
        ensures
            match found {
                Some(i) => i < self.entries@.len() && self.entries@[i as int].name@ == name@,
                None => forall|i: int|
                    0 <= i < self.entries@.len() ==> self.entries@[i].name@ != name@,
            },
    {
        let mut i: usize = 0;
        while i < self.entries.len()
            invariant
                i <= self.entries@.len(),
                forall|k: int| 0 <= k < i ==> self.entries@[k].name@ != name@,
            decreases self.entries@.len() - i,
        {
            if same_text(self.entries[i].name.as_str(), name) {
                return Some(i);
            }
            i += 1;
        }
        None
    }

    /// Decides what to do with a descriptor before any device is touched: a
    /// disabled port is skipped, a taken name is refused, anything else is
    /// to be opened. The registry itself is not changed.
    pub fn decide_add(&self, config: &SerialConnectionConfig) -> (decision: Admission)
        requires
            self.well_formed(),
        ensures
            decision == admission(self@, *config),
    {
        if !config.enabled {
            return Admission::Skip;
        }
        match self.position(config.name.as_str()) {
            Some(i) => {
                proof {
                    self.lemma_entry_at(i as int);
                }
                Admission::Duplicate
            },
            None => {
                proof {
                    self.lemma_absent(config.name@);
                }
                Admission::Open
            },
        }
    }

    /// Registers an opened session under `name`. If the name is taken the
    /// registry stays as it was and the session comes back with the error.
    pub fn add_connection(&mut self, name: String, session: S) -> (result: Result<
        (),
        Rejected<S>,
    >)
        requires
            old(self).well_formed(),
        ensures
            final(self).well_formed(),
            final(self)@ == after_add(old(self)@, name@, session),
            match result {
                Ok(()) => !old(self)@.contains_key(name@),
                Err(rejected) => {
                    &&& old(self)@.contains_key(name@)
                    &&& rejected.session == session
                    &&& rejected.error matches ManagerError::DuplicateName(n)
                    &&& n@ == name@
                },
            },
    {
        match self.position(name.as_str()) {
            Some(i) => {
                proof {
                    self.lemma_entry_at(i as int);
                }
                Err(Rejected { error: ManagerError::DuplicateName(name), session })
            },
            None => {
                proof {
                    self.lemma_absent(name@);
                }
                let ghost before = *self;
                self.entries.push(Entry { name, session });
                proof {
                    let after = *self;
                    assert(after.names() =~= before.names().push(name@));
                    assert(after.names().no_duplicates());
                    assert forall|n: Seq<char>| #[trigger]
                        after@.contains_key(n) == before@.insert(name@, session).contains_key(
                            n,
                        ) by {
                        if before.names().contains(n) {
                            let k = before.names().index_of(n);
                            assert(after.names()[k] == n);
                        }
                        if after.names().contains(n) && n != name@ {
                            let k = after.names().index_of(n);
                            assert(before.names()[k] == n);
                        }
                        assert(after.names()[before.names().len() as int] == name@);
                    }
                    assert forall|n: Seq<char>| #[trigger] after@.contains_key(n) implies after@[n]
                        == before@.insert(name@, session)[n] by {
                        let k = after.names().index_of(n);
                        after.lemma_entry_at(k);
                        if n != name@ {
                            assert(before.names()[k] == n);
                            before.lemma_entry_at(k);
                        }
                    }
                    assert(after@ =~= before@.insert(name@, session));
                }
                Ok(())
            },
        }
    }

    /// Takes the session registered under `name` out of the registry and
    /// hands it out to be stopped.
    pub fn remove_connection(&mut self, name: &str) -> (result: Result<S, ManagerError>)
        requires
            old(self).well_formed(),
        ensures
            final(self).well_formed(),
            final(self)@ == after_remove(old(self)@, name@),
            match result {
                Ok(session) => removed(old(self)@, name@) == Some(session),
                Err(error) => {
                    &&& removed(old(self)@, name@) is None
                    &&& error matches ManagerError::NotFound(n)
                    &&& n@ == name@
                },
            },
    {
        match self.position(name) {
            Some(i) => {
                proof {
                    self.lemma_entry_at(i as int);
                }
                let ghost before = *self;
                let entry = self.entries.remove(i);
                proof {
                    let after = *self;
                    assert(after.names() =~= before.names().remove(i as int));
                    assert(after.names().no_duplicates()) by {
                        assert forall|a: int, b: int|
                            0 <= a < after.names().len() && 0 <= b < after.names().len() && a
                                != b implies after.names()[a] != after.names()[b] by {
                            let a0 = if a < i { a } else { a + 1 };
                            let b0 = if b < i { b } else { b + 1 };
                            assert(after.names()[a] == before.names()[a0]);
                            assert(after.names()[b] == before.names()[b0]);
                        }
                    }
                    assert forall|n: Seq<char>| #[trigger]
                        after@.contains_key(n) == before@.remove(name@).contains_key(n) by {
                        if after.names().contains(n) {
                            let k = after.names().index_of(n);
                            let k0 = if k < i { k } else { k + 1 };
                            assert(before.names()[k0] == n);
                        }
                        if before.names().contains(n) && n != name@ {
                            let k = before.names().index_of(n);
                            let k1 = if k < i { k } else { k - 1 };
                            assert(after.names()[k1] == n);
                        }
                    }
                    assert forall|n: Seq<char>| #[trigger] after@.contains_key(n) implies after@[n]
                        == before@.remove(name@)[n] by {
                        let k = after.names().index_of(n);
                        after.lemma_entry_at(k);
                        let k0 = if k < i { k } else { k + 1 };
                        assert(before.names()[k0] == n);
                        before.lemma_entry_at(k0);
                    }
                    assert(after@ =~= before@.remove(name@));
                }
                Ok(entry.session)
            },
            None => {
                proof {
                    self.lemma_absent(name@);
                    assert(self@.remove(name@) =~= self@);
                }
                Err(ManagerError::NotFound(String::from_str(name)))
            },
        }
    }

    /// Looks a session up by name.
    pub fn get_connection(&self, name: &str) -> (found: Option<&S>)
        requires
            self.well_formed(),
        ensures
            match found {
                Some(session) => self@.contains_key(name@) && *session == self@[name@],
                None => !self@.contains_key(name@),
            },
    {
        match self.position(name) {
            Some(i) => {
                proof {
                    self.lemma_entry_at(i as int);
                }
                Some(&self.entries[i].session)
            },
            None => {
                proof {
                    self.lemma_absent(name@);
                }
                None
            },
        }
    }

    /// The session that a block for `name` goes to, with the block copied
    /// for its write mailbox.
    pub fn send_data(&self, name: &str, data: &[u8]) -> (result: Result<(&S, Vec<u8>), ManagerError>)
        requires
            self.well_formed(),
        ensures
            match result {
                Ok((session, block)) => {
                    &&& self@.contains_key(name@)
                    &&& *session == self@[name@]
                    &&& block@ == data@
                },
                Err(error) => {
                    &&& !self@.contains_key(name@)
                    &&& error matches ManagerError::NotFound(n)
                    &&& n@ == name@
                },
            },
    {
        match self.get_connection(name) {
            Some(session) => Ok((session, slice_to_vec(data))),
            None => Err(ManagerError::NotFound(String::from_str(name))),
        }
    }

    /// The session whose broadcast a subscriber for `name` attaches to.
    pub fn subscribe(&self, name: &str) -> (result: Result<&S, ManagerError>)
        requires
            self.well_formed(),
        ensures
            match result {
                Ok(session) => self@.contains_key(name@) && *session == self@[name@],
                Err(error) => {
                    &&& !self@.contains_key(name@)
                    &&& error matches ManagerError::NotFound(n)
                    &&& n@ == name@
                },
            },
    {
        match self.get_connection(name) {
            Some(session) => Ok(session),
            None => Err(ManagerError::NotFound(String::from_str(name))),
        }
    }

    /// The session whose statistics are asked for under `name`.
    pub fn get_stats(&self, name: &str) -> (result: Result<&S, ManagerError>)
        requires
            self.well_formed(),
        ensures
            match result {
                Ok(session) => self@.contains_key(name@) && *session == self@[name@],
                Err(error) => {
                    &&& !self@.contains_key(name@)
                    &&& error matches ManagerError::NotFound(n)
                    &&& n@ == name@
                },
            },
    {
        self.subscribe(name)
    }

    /// The names of the registered sessions, each once. The order is that of
    /// registration; callers should not rely on it.
    pub fn list_connections(&self) -> (names: Vec<String>)
        requires
            self.well_formed(),
        ensures
            is_listing(self@, name_texts(names@)),
            names@.len() == self@.dom().len(),
    {
        let mut names: Vec<String> = Vec::new();
        let mut i: usize = 0;
        while i < self.entries.len()
            invariant
                i <= self.entries@.len(),
                names@.len() == i,
                forall|k: int| 0 <= k < i ==> names@[k]@ == self.entries@[k].name@,
            decreases self.entries@.len() - i,
        {
            names.push(self.entries[i].name.clone());
            i += 1;
        }
        proof {
            assert(name_texts(names@) =~= self.names());
            self.lemma_size();
        }
        names
    }

    proof fn lemma_size(&self)
        requires
            self.names().no_duplicates(),
        ensures
            self@.dom().finite(),
            self@.dom().len() == self.entries@.len(),
    {
        let names = self.names();
        names.unique_seq_to_set();
        assert(self@.dom() =~= names.to_set());
    }

    /// Empties the registry and hands out every session to be stopped. On
    /// an empty registry this does nothing and hands out nothing.
    pub fn shutdown(&mut self) -> (sessions: Vec<S>)
        requires
            old(self).well_formed(),
        ensures
            final(self).well_formed(),
            final(self)@ == after_shutdown(old(self)@),
            is_handover(old(self)@, sessions@),
            sessions@.len() == old(self)@.dom().len(),
    {
        proof {
            self.lemma_size();
        }
        let ghost before = *self;
        let mut sessions: Vec<S> = Vec::new();
        while self.entries.len() > 0
            invariant
                before == *old(self),
                before.names().no_duplicates(),
                self.entries@.len() <= before.entries@.len(),
                self.entries@ == before.entries@.subrange(0, self.entries@.len() as int),
                sessions@.len() + self.entries@.len() == before.entries@.len(),
                forall|k: int|
                    0 <= k < sessions@.len() ==> sessions@[k] == before.entries@[before.entries@.len()
                        - 1 - k].session,
            decreases self.entries@.len(),
        {
            let ghost len = self.entries@.len();
            let entry = self.entries.pop().unwrap();
            sessions.push(entry.session);
            proof {
                assert(self.entries@ =~= before.entries@.subrange(0, len - 1));
            }
        }
        proof {
            assert(self.names() =~= Seq::<Seq<char>>::empty());
            assert(self@ =~= Map::<Seq<char>, S>::empty());
            let n = before.entries@.len() as int;
            let order = Seq::new(n as nat, |i: int| before.names()[n - 1 - i]);
            assert forall|i: int, j: int| 0 <= i < n && 0 <= j < n && i != j implies order[i]
                != order[j] by {
                assert(before.names()[n - 1 - i] != before.names()[n - 1 - j]);
            }
            assert forall|name: Seq<char>| #[trigger]
                order.contains(name) <==> before@.contains_key(name) by {
                if order.contains(name) {
                    let i = choose|i: int| 0 <= i < n && order[i] == name;
                    before.lemma_entry_at(n - 1 - i);
                }
                if before@.contains_key(name) {
                    let k = before.names().index_of(name);
                    assert(order[n - 1 - k] == name);
                }
            }
            assert forall|i: int| 0 <= i < sessions@.len() implies sessions@[i] == before@[
                #[trigger] order[i]
            ] by {
                before.lemma_entry_at(n - 1 - i);
            }
            assert(is_handover_by(before@, sessions@, order));
        }
        sessions
    }
}

/// The sessions after a shutdown: none.
pub open spec fn after_shutdown<S>(sessions: Map<Seq<char>, S>) -> Map<Seq<char>, S> {
    Map::empty()
}

/// Shutting down twice: the second shutdown finds an empty registry, hands
/// out no session and leaves the registry as it is.
pub proof fn lemma_second_shutdown_is_idle<S>(sessions: Map<Seq<char>, S>, handed: Seq<S>)
    requires
        is_handover(after_shutdown(sessions), handed),
    ensures
        handed.len() == 0,
        after_shutdown(after_shutdown(sessions)) == after_shutdown(sessions),
{
    let names = choose|names: Seq<Seq<char>>|
        is_handover_by(after_shutdown(sessions), handed, names);
    if names.len() > 0 {
        assert(names.contains(names[0]));
    }
}

/// Removing a name twice: the second removal finds nothing.
pub proof fn lemma_second_remove_finds_nothing<S>(sessions: Map<Seq<char>, S>, name: Seq<char>)
    ensures
        removed(after_remove(sessions, name), name) is None,
        after_remove(after_remove(sessions, name), name) == after_remove(sessions, name),
{
    assert(sessions.remove(name).remove(name) =~= sessions.remove(name));
}

/// A disabled port is skipped whatever the registry holds, so nothing is
/// opened or registered for it.
pub proof fn lemma_disabled_is_skipped<S>(sessions: Map<Seq<char>, S>, config: SerialConnectionConfig)
    requires
        !config.enabled,
    ensures
        admission(sessions, config) == Admission::Skip,
{
}

/// A name is registered at most once: adding under a taken name keeps the
/// session that was there.
pub proof fn lemma_add_keeps_first<S>(sessions: Map<Seq<char>, S>, name: Seq<char>, first: S, second: S)
    ensures
        after_add(after_add(sessions, name, first), name, second) == after_add(
            sessions,
            name,
            first,
        ),
        after_add(sessions, name, first).contains_key(name),
{
}

} // verus!
