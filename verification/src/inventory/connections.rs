//! Connection identities and per-connection-type lifecycle counters.
use vstd::prelude::*;
use crate::text::str_eq;
use crate::types::{
    lemma_first_match, lemma_index_of, lemma_no_match, seq_index_of, seq_insert, seq_lookup, CloneView,
    CustomTreeMap,
};

verus! {

/// Identifies one connection: a host and the plugin used to reach it.
#[derive(Debug, PartialEq, Eq, Hash)]
pub struct ConnectionKey {
    pub hostname: String,
    pub plugin_name: String,
}

impl View for ConnectionKey {
    type V = (Seq<char>, Seq<char>);

    open spec fn view(&self) -> (Seq<char>, Seq<char>) {
        (self.hostname@, self.plugin_name@)
    }
}

impl ConnectionKey {
    /// The key for `hostname` reached through `plugin_name`.
    pub fn new(hostname: &str, plugin_name: &str) -> (res: Self)
        ensures
            res@ == (hostname@, plugin_name@),
    {
        ConnectionKey {
            hostname: String::from_str(hostname),
            plugin_name: String::from_str(plugin_name),
        }
    }
}

impl Clone for ConnectionKey {
    fn clone(&self) -> (res: Self)
        ensures
            res@ == self@,
    {
        ConnectionKey { hostname: self.hostname.clone(), plugin_name: self.plugin_name.clone() }
    }
}

/// How often connections of one type were created, opened and closed.
#[derive(Debug, Clone, Copy, Default, PartialEq, Eq)]
pub struct ConnectionCounters {
    pub create_calls: usize,
    pub open_calls: usize,
    pub close_calls: usize,
}

impl View for ConnectionCounters {
    type V = ConnectionCounters;

    open spec fn view(&self) -> ConnectionCounters {
        *self
    }
}

impl CloneView for ConnectionCounters {
    fn clone_view(&self) -> (res: Self) {
        *self
    }
}

/// One of the three lifecycle events that are counted.
#[derive(Debug, Clone, Copy, PartialEq, Eq, Structural)]
pub enum ConnectionEvent {
    Create,
    Open,
    Close,
}

/// Counters with one more `event`.
pub open spec fn bumped(c: ConnectionCounters, event: ConnectionEvent) -> ConnectionCounters {
    match event {
        ConnectionEvent::Create => ConnectionCounters { create_calls: (c.create_calls + 1) as usize, ..c },
        ConnectionEvent::Open => ConnectionCounters { open_calls: (c.open_calls + 1) as usize, ..c },
        ConnectionEvent::Close => ConnectionCounters { close_calls: (c.close_calls + 1) as usize, ..c },
    }
}

/// Counters that are all zero.
pub open spec fn zero_counters() -> ConnectionCounters {
    ConnectionCounters { create_calls: 0, open_calls: 0, close_calls: 0 }
}

/// Whether one more `event` can be counted without overflow.
pub open spec fn can_bump(c: ConnectionCounters, event: ConnectionEvent) -> bool {
    match event {
        ConnectionEvent::Create => c.create_calls < usize::MAX,
        ConnectionEvent::Open => c.open_calls < usize::MAX,
        ConnectionEvent::Close => c.close_calls < usize::MAX,
    }
}

/// Counters per connection type.
#[derive(Debug)]
pub struct ConnectionCounterTable {
    entries: CustomTreeMap<ConnectionCounters>,
}

impl View for ConnectionCounterTable {
    type V = Seq<(Seq<char>, ConnectionCounters)>;

    closed spec fn view(&self) -> Seq<(Seq<char>, ConnectionCounters)> {
        self.entries@
    }
}

impl ConnectionCounterTable {
    /// No counters yet.
    pub fn new() -> (res: Self)
        ensures
            res@ == Seq::<(Seq<char>, ConnectionCounters)>::empty(),
    {
        ConnectionCounterTable { entries: CustomTreeMap::new() }
    }

    /// The counters recorded for `connection_type`, if any event was counted for it.
    pub fn counters_for(&self, connection_type: &str) -> (res: Option<ConnectionCounters>)
        ensures
            res == seq_lookup(self@, connection_type@),
    {
        match self.entries.get(connection_type) {
            Some(c) => Some(*c),
            None => None,
        }
    }

    /// Counts one `event` for `connection_type`, starting from zero counters.
    pub fn record(&mut self, connection_type: &str, event: ConnectionEvent)
        requires
            can_bump(
                match seq_lookup(old(self)@, connection_type@) {
                    Some(c) => c,
                    None => zero_counters(),
                },
                event,
            ),
        ensures
            final(self)@ == seq_insert(
                old(self)@,
                connection_type@,
                bumped(
                    match seq_lookup(old(self)@, connection_type@) {
                        Some(c) => c,
                        None => zero_counters(),
                    },
                    event,
                ),
            ),
    {
        let current = match self.entries.get(connection_type) {
            Some(c) => *c,
            None => ConnectionCounters::default_counters(),
        };
        let next = match event {
            ConnectionEvent::Create => ConnectionCounters {
                create_calls: current.create_calls + 1,
                ..current
            },
            ConnectionEvent::Open => ConnectionCounters { open_calls: current.open_calls + 1, ..current },
            ConnectionEvent::Close => ConnectionCounters {
                close_calls: current.close_calls + 1,
                ..current
            },
        };
        self.entries.insert(connection_type, next);
    }

    /// Every connection type with its counters, in the order first counted.
    pub fn snapshot(&self) -> (res: Vec<(String, ConnectionCounters)>)
        ensures
            res@.len() == self@.len(),
            forall|i: int|
                0 <= i < res@.len() ==> (#[trigger] res@[i]).0@ == self@[i].0 && res@[i].1
                    == self@[i].1,
    {
        let mut res: Vec<(String, ConnectionCounters)> = Vec::new();
        let mut i: usize = 0;
        while i < self.entries.len()
            invariant
                i <= self@.len(),
                self@ == self.entries@,
                res@.len() == i,
                forall|j: int|
                    0 <= j < i ==> (#[trigger] res@[j]).0@ == self@[j].0 && res@[j].1 == self@[j].1,
            decreases self@.len() - i,
        {
            let name = self.entries.key_at(i).to_string();
            let c = *self.entries.value_at(i);
            res.push((name, c));
            i = i + 1;
        }
        res
    }
}

impl ConnectionCounters {
    /// All counters at zero.
    pub fn default_counters() -> (res: Self)
        ensures
            res == zero_counters(),
    {
        ConnectionCounters { create_calls: 0, open_calls: 0, close_calls: 0 }
    }
}

/// The counters of `connection_type` in `table` (zero when none were counted).
pub open spec fn current_counters(
    table: Seq<(Seq<char>, ConnectionCounters)>,
    connection_type: Seq<char>,
) -> ConnectionCounters {
    match seq_lookup(table, connection_type) {
        Some(c) => c,
        None => zero_counters(),
    }
}

/// `table` after counting one `event` for `connection_type`.
pub open spec fn counted(
    table: Seq<(Seq<char>, ConnectionCounters)>,
    connection_type: Seq<char>,
    event: ConnectionEvent,
) -> Seq<(Seq<char>, ConnectionCounters)> {
    seq_insert(table, connection_type, bumped(current_counters(table, connection_type), event))
}

/// What happened while a cached connection was being made ready.
#[derive(Debug)]
pub enum OpenEvent {
    /// The connection was looked at; `true` when it was alive already.
    Checked(bool),
    /// Opening the connection succeeded.
    Opened,
    /// Opening the connection failed with this message.
    OpenFailed(String),
}

/// What the caller does next while making a cached connection ready.
#[derive(Debug)]
pub enum OpenAction {
    /// Open the connection, then report how it went.
    Open,
    /// Stop with this result.
    Finish(Result<(), String>),
}

/// What happened while a connection was being replaced by a new one.
#[derive(Debug)]
pub enum ReplaceEvent<C> {
    /// The replacement was asked for.
    Start,
    /// The old connection was closed.
    Closed,
    /// No factory could be had; the message says why.
    FactoryMissing(String),
    /// The factory was asked for a new connection and gave this.
    Created(Option<C>),
    /// The new connection was opened.
    Opened(C),
    /// Opening the new connection failed with this message.
    OpenFailed(String),
}

/// What the caller does next while replacing a connection.
#[derive(Debug)]
pub enum ReplaceAction<C> {
    /// Close this old connection, then report `Closed`.
    Close(C),
    /// Ask the factory for a new connection, then report `Created`.
    Create,
    /// Open this new connection, then report `Opened` or `OpenFailed`.
    Open(C),
    /// Stop: `Ok(true)` when a new connection is stored, `Ok(false)` when the
    /// factory gave none, or the error.
    Finish(Result<bool, String>),
}

/// The live connections of a run, at most one per key, with the lifecycle
/// counters of each connection type. `C` is the connection handle.
pub struct ConnectionRegistry<C> {
    entries: Vec<(ConnectionKey, C)>,
    counters: ConnectionCounterTable,
}

impl<C> ConnectionRegistry<C> {
    /// The connections, by key, in the order they were added.
    pub closed spec fn connections(&self) -> Seq<((Seq<char>, Seq<char>), C)> {
        self.entries@.map_values(|e: (ConnectionKey, C)| (e.0@, e.1))
    }

    /// The counters, by connection type.
    pub closed spec fn counters(&self) -> Seq<(Seq<char>, ConnectionCounters)> {
        self.counters@
    }

    /// No connections and no counts.
    pub fn new() -> (res: Self)
        ensures
            res.connections().len() == 0,
            res.counters().len() == 0,
    {
        let res = ConnectionRegistry { entries: Vec::new(), counters: ConnectionCounterTable::new() };
        proof {
            assert(res.connections() =~= Seq::<((Seq<char>, Seq<char>), C)>::empty());
        }
        res
    }

    /// The number of connections.
    pub fn len(&self) -> (res: usize)
        ensures
            res == self.connections().len(),
    {
        self.entries.len()
    }

    /// The position of the connection for `key`, if any.
    fn index_of(&self, key: &ConnectionKey) -> (res: Option<usize>)
        ensures
            match res {
                Some(i) => seq_index_of(self.connections(), key@) == Some(i as int),
                None => seq_index_of(self.connections(), key@) is None,
            },
    {
        let ghost conns = self.connections();
        let mut i: usize = 0;
        while i < self.entries.len()
            invariant
                i <= self.entries@.len(),
                conns == self.connections(),
                conns.len() == self.entries@.len(),
                forall|j: int| 0 <= j < i ==> conns[j].0 != key@,
            decreases self.entries.len() - i,
        {
            let entry_key = &self.entries[i].0;
            if str_eq(entry_key.hostname.as_str(), key.hostname.as_str()) && str_eq(
                entry_key.plugin_name.as_str(),
                key.plugin_name.as_str(),
            ) {
                proof {
                    assert(conns[i as int].0 == key@);
                    lemma_first_match(conns, key@, i as int);
                }
                return Some(i);
            }
            proof {
                assert(conns[i as int].0 == self.entries@[i as int].0@);
            }
            i = i + 1;
        }
        proof {
            lemma_no_match(conns, key@);
        }
        None
    }

    /// The connection for `key`, if any.
    pub fn get(&self, key: &ConnectionKey) -> (res: Option<&C>)
        ensures
            match res {
                Some(c) => seq_lookup(self.connections(), key@) == Some(*c),
                None => seq_lookup(self.connections(), key@) is None,
            },
    {
        proof {
            lemma_index_of(self.connections(), key@);
        }
        match self.index_of(key) {
            Some(i) => Some(&self.entries[i].1),
            None => None,
        }
    }

    /// Stores `connection` for `key`, replacing the one stored before.
    pub fn insert(&mut self, key: ConnectionKey, connection: C)
        ensures
            final(self).connections() == seq_insert(old(self).connections(), key@, connection),
            final(self).counters() == old(self).counters(),
    {
        let ghost k = key@;
        proof {
            lemma_index_of(self.connections(), key@);
        }
        match self.index_of(&key) {
            Some(i) => {
                self.entries.set(i, (key, connection));
            },
            None => {
                self.entries.push((key, connection));
            },
        }
        proof {
            assert(self.connections() =~= seq_insert(old(self).connections(), k, connection));
        }
    }

    /// Makes sure a connection for `key` exists: an error when there is no
    /// factory (checked first); otherwise an existing connection is kept, or
    /// the factory is asked for one, which is stored and counted as created.
    /// Gives whether a connection for `key` exists afterwards.
    pub fn get_or_create<F: FnOnce(&ConnectionKey) -> Option<C>>(
        &mut self,
        key: &ConnectionKey,
        factory: Option<F>,
    ) -> (res: Result<bool, String>)
        requires
            factory matches Some(f) ==> call_requires(f, (key,)),
            can_bump(current_counters(old(self).counters(), key.plugin_name@), ConnectionEvent::Create),
        ensures
            factory is None ==> (res matches Err(m) && m@ == "connection factory not set"@)
                && final(self).connections() == old(self).connections() && final(self).counters()
                == old(self).counters(),
            factory is Some && seq_lookup(old(self).connections(), key@) is Some ==> res == Ok::<
                bool,
                String,
            >(true) && final(self).connections() == old(self).connections() && final(self).counters()
                == old(self).counters(),
            factory matches Some(f) ==> (seq_lookup(old(self).connections(), key@) is None ==> exists|
                made: Option<C>,
            | #[trigger] call_ensures(f, (key,), made) && match made {
                None => res == Ok::<bool, String>(false) && final(self).connections() == old(self).connections() && final(self).counters() == old(self).counters(),
                Some(c) => res == Ok::<bool, String>(true) && final(self).connections()
                    == seq_insert(old(self).connections(), key@, c) && final(self).counters()
                    == counted(old(self).counters(), key.plugin_name@, ConnectionEvent::Create),
            }),
    {
        let make = match factory {
            Some(f) => f,
            None => {
                return Err(String::from_str("connection factory not set"));
            },
        };
        proof {
            lemma_index_of(self.connections(), key@);
        }
        if self.index_of(key).is_some() {
            return Ok(true);
        }
        match make(key) {
            None => Ok(false),
            Some(connection) => {
                self.counters.record(key.plugin_name.as_str(), ConnectionEvent::Create);
                self.insert(key.clone(), connection);
                Ok(true)
            },
        }
    }

    /// Takes the connection for `key` out of the registry, if there is one.
    pub fn take(&mut self, key: &ConnectionKey) -> (res: Option<C>)
        ensures
            final(self).counters() == old(self).counters(),
            match seq_index_of(old(self).connections(), key@) {
                Some(i) => res == Some(old(self).connections()[i].1) && final(self).connections()
                    == old(self).connections().remove(i),
                None => res is None && final(self).connections() == old(self).connections(),
            },
    {
        proof {
            lemma_index_of(self.connections(), key@);
        }
        match self.index_of(key) {
            Some(i) => {
                let ghost before = self.connections();
                proof {
                    assert(before[i as int].1 == self.entries@[i as int].1);
                }
                let (_, connection) = self.entries.remove(i);
                proof {
                    assert(self.connections() =~= before.remove(i as int));
                }
                Some(connection)
            },
            None => None,
        }
    }

    /// Takes every connection out of the registry, in order.
    pub fn take_all(&mut self) -> (res: Vec<(ConnectionKey, C)>)
        ensures
            res@.len() == old(self).connections().len(),
            forall|i: int|
                0 <= i < res@.len() ==> (#[trigger] res@[i]).0@ == old(self).connections()[i].0
                    && res@[i].1 == old(self).connections()[i].1,
            final(self).connections().len() == 0,
            final(self).counters() == old(self).counters(),
    {
        let mut taken: Vec<(ConnectionKey, C)> = Vec::new();
        std::mem::swap(&mut taken, &mut self.entries);
        proof {
            assert(self.connections() =~= Seq::<((Seq<char>, Seq<char>), C)>::empty());
        }
        taken
    }

    /// Counts one `event` for `connection_type`.
    pub fn record(&mut self, connection_type: &str, event: ConnectionEvent)
        requires
            can_bump(current_counters(old(self).counters(), connection_type@), event),
        ensures
            final(self).counters() == counted(old(self).counters(), connection_type@, event),
            final(self).connections() == old(self).connections(),
    {
        self.counters.record(connection_type, event);
    }

    /// The counters of `connection_type`, if any event was counted for it.
    pub fn counters_for(&self, connection_type: &str) -> (res: Option<ConnectionCounters>)
        ensures
            res == seq_lookup(self.counters(), connection_type@),
    {
        self.counters.counters_for(connection_type)
    }

    /// One step of making the cached connection for `key` ready: a connection
    /// that is alive is kept, one that is not is opened, and a successful
    /// open is counted. A failed open leaves the connection cached, unopened.
    pub fn open_step(&mut self, key: &ConnectionKey, event: OpenEvent) -> (res: OpenAction)
        requires
            event is Opened ==> can_bump(
                current_counters(old(self).counters(), key.plugin_name@),
                ConnectionEvent::Open,
            ),
        ensures
            final(self).connections() == old(self).connections(),
            match event {
                OpenEvent::Checked(alive) => final(self).counters() == old(self).counters() && if alive {
                    res == OpenAction::Finish(Ok(()))
                } else {
                    res == OpenAction::Open
                },
                OpenEvent::Opened => res == OpenAction::Finish(Ok(())) && final(self).counters()
                    == counted(old(self).counters(), key.plugin_name@, ConnectionEvent::Open),
                OpenEvent::OpenFailed(m) => res == OpenAction::Finish(Err(m)) && final(self).counters()
                    == old(self).counters(),
            },
    {
        match event {
            OpenEvent::Checked(alive) => {
                if alive {
                    OpenAction::Finish(Ok(()))
                } else {
                    OpenAction::Open
                }
            },
            OpenEvent::Opened => {
                self.record(key.plugin_name.as_str(), ConnectionEvent::Open);
                OpenAction::Finish(Ok(()))
            },
            OpenEvent::OpenFailed(message) => OpenAction::Finish(Err(message)),
        }
    }

    /// One step of replacing the connection for `key`: the old connection is
    /// taken out and closed (counted), then a new one is made (counted) and
    /// opened (counted), and only an opened one is stored. When the factory
    /// gives none the old one stays out; a failed open stores nothing.
    pub fn replace_step(&mut self, key: &ConnectionKey, event: ReplaceEvent<C>) -> (res: ReplaceAction<C>)
        requires
            event is Closed ==> can_bump(
                current_counters(old(self).counters(), key.plugin_name@),
                ConnectionEvent::Close,
            ),
            event matches ReplaceEvent::Created(Some(_)) ==> can_bump(
                current_counters(old(self).counters(), key.plugin_name@),
                ConnectionEvent::Create,
            ),
            event is Opened ==> can_bump(
                current_counters(old(self).counters(), key.plugin_name@),
                ConnectionEvent::Open,
            ),
        ensures
            match event {
                ReplaceEvent::Start => final(self).counters() == old(self).counters() && match seq_index_of(
                    old(self).connections(),
                    key@,
                ) {
                    Some(i) => res == ReplaceAction::Close(old(self).connections()[i].1)
                        && final(self).connections() == old(self).connections().remove(i),
                    None => res == ReplaceAction::<C>::Create && final(self).connections() == old(self).connections(),
                },
                ReplaceEvent::Closed => res == ReplaceAction::<C>::Create && final(self).connections()
                    == old(self).connections() && final(self).counters() == counted(
                    old(self).counters(),
                    key.plugin_name@,
                    ConnectionEvent::Close,
                ),
                ReplaceEvent::FactoryMissing(m) => res == ReplaceAction::<C>::Finish(Err(m))
                    && final(self).connections() == old(self).connections() && final(self).counters()
                    == old(self).counters(),
                ReplaceEvent::Created(None) => res == ReplaceAction::<C>::Finish(Ok(false))
                    && final(self).connections() == old(self).connections() && final(self).counters()
                    == old(self).counters(),
                ReplaceEvent::Created(Some(c)) => res == ReplaceAction::Open(c) && final(self).connections() == old(self).connections() && final(self).counters() == counted(
                    old(self).counters(),
                    key.plugin_name@,
                    ConnectionEvent::Create,
                ),
                ReplaceEvent::Opened(c) => res == ReplaceAction::<C>::Finish(Ok(true)) && final(self).connections() == seq_insert(old(self).connections(), key@, c) && final(self).counters()
                    == counted(old(self).counters(), key.plugin_name@, ConnectionEvent::Open),
                ReplaceEvent::OpenFailed(m) => res == ReplaceAction::<C>::Finish(Err(m))
                    && final(self).connections() == old(self).connections() && final(self).counters()
                    == old(self).counters(),
            },
    {
        match event {
            ReplaceEvent::Start => match self.take(key) {
                Some(old_connection) => ReplaceAction::Close(old_connection),
                None => ReplaceAction::Create,
            },
            ReplaceEvent::Closed => {
                self.record(key.plugin_name.as_str(), ConnectionEvent::Close);
                ReplaceAction::Create
            },
            ReplaceEvent::FactoryMissing(message) => ReplaceAction::Finish(Err(message)),
            ReplaceEvent::Created(made) => match made {
                None => ReplaceAction::Finish(Ok(false)),
                Some(connection) => {
                    self.record(key.plugin_name.as_str(), ConnectionEvent::Create);
                    ReplaceAction::Open(connection)
                },
            },
            ReplaceEvent::Opened(connection) => {
                self.record(key.plugin_name.as_str(), ConnectionEvent::Open);
                self.insert(key.clone(), connection);
                ReplaceAction::Finish(Ok(true))
            },
            ReplaceEvent::OpenFailed(message) => ReplaceAction::Finish(Err(message)),
        }
    }

    /// Every connection type with its counters, in the order first counted.
    pub fn snapshot(&self) -> (res: Vec<(String, ConnectionCounters)>)
        ensures
            res@.len() == self.counters().len(),
            forall|i: int|
                0 <= i < res@.len() ==> (#[trigger] res@[i]).0@ == self.counters()[i].0 && res@[i].1
                    == self.counters()[i].1,
    {
        self.counters.snapshot()
    }
}

} // verus!
