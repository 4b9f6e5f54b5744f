//! Runtime state for a Genja run: which hosts are in scope, how connection
//! attempts went, and how task executions went.
//!
//! Hosts are in scope until marked failed. Connection attempt counters are kept
//! across status changes: beginning an attempt counts one more, every other
//! transition keeps the count.
use vstd::prelude::*;
use crate::inventory::connections::ConnectionKey;
use crate::text::{opt_view, clone_opt};
use crate::types::{lemma_insert_lookup, seq_insert, seq_lookup, CloneView, CustomTreeMap, NatString, PairMap};

verus! {

/// Whether a host still takes part in the run.
#[derive(Debug, Clone, Copy, PartialEq, Eq, Structural)]
pub enum HostStatus {
    InScope,
    Failed,
}

impl View for HostStatus {
    type V = HostStatus;

    open spec fn view(&self) -> HostStatus {
        *self
    }
}

impl CloneView for HostStatus {
    fn clone_view(&self) -> (res: Self) {
        *self
    }
}

impl Default for HostStatus {
    fn default() -> (res: Self)
        ensures
            res == HostStatus::InScope,
    {
        HostStatus::InScope
    }
}

/// Why a connection attempt failed.
#[derive(Debug, Clone, Copy, PartialEq, Eq, Structural)]
pub enum ConnectionFailureKind {
    Timeout,
    Refused,
    Auth,
    Dns,
    Transport,
    Unknown,
}

/// Where a host's connection through one plugin stands.
#[derive(Debug, Clone, Copy, PartialEq, Eq, Structural)]
pub enum ConnectionStatus {
    NeverTried,
    Connecting,
    Connected,
    RetryPending,
    Failed(ConnectionFailureKind),
}

/// The abstract value of an attempt record.
pub struct AttemptView<S> {
    pub status: S,
    pub attempts: usize,
    pub last_error: Option<Seq<char>>,
}

/// The recorded state of connection attempts for one host and plugin.
#[derive(Debug, PartialEq, Eq)]
pub struct ConnectionAttemptState {
    pub status: ConnectionStatus,
    pub attempts: usize,
    pub last_error: Option<String>,
}

impl View for ConnectionAttemptState {
    type V = AttemptView<ConnectionStatus>;

    open spec fn view(&self) -> AttemptView<ConnectionStatus> {
        AttemptView { status: self.status, attempts: self.attempts, last_error: opt_view(self.last_error) }
    }
}

impl Clone for ConnectionAttemptState {
    fn clone(&self) -> (res: Self)
        ensures
            res@ == self@,
    {
        ConnectionAttemptState {
            status: self.status,
            attempts: self.attempts,
            last_error: clone_opt(&self.last_error),
        }
    }
}

impl CloneView for ConnectionAttemptState {
    fn clone_view(&self) -> (res: Self) {
        self.clone()
    }
}

impl ConnectionAttemptState {
    /// A record with `status`, no attempts and no error.
    pub fn new(status: ConnectionStatus) -> (res: Self)
        ensures
            res@ == (AttemptView { status, attempts: 0usize, last_error: None::<Seq<char>> }),
    {
        ConnectionAttemptState { status, attempts: 0, last_error: None }
    }

    /// The same record with the attempt count set.
    pub fn with_attempts(self, attempts: usize) -> (res: Self)
        ensures
            res@ == (AttemptView { attempts, ..self@ }),
    {
        ConnectionAttemptState { attempts, ..self }
    }

    /// The same record with the last error set.
    pub fn with_last_error(self, last_error: &str) -> (res: Self)
        ensures
            res@ == (AttemptView { last_error: Some(last_error@), ..self@ }),
    {
        ConnectionAttemptState { last_error: Some(String::from_str(last_error)), ..self }
    }
}

/// Identifies one task execution: a host and a task name.
#[derive(Debug)]
pub struct TaskExecutionKey {
    pub host: NatString,
    pub task_name: String,
}

impl View for TaskExecutionKey {
    type V = (Seq<char>, Seq<char>);

    open spec fn view(&self) -> (Seq<char>, Seq<char>) {
        (self.host@, self.task_name@)
    }
}

impl TaskExecutionKey {
    /// The key for `task_name` on `host`.
    pub fn new(host: &str, task_name: &str) -> (res: Self)
        ensures
            res@ == (host@, task_name@),
    {
        TaskExecutionKey { host: NatString::from(host), task_name: String::from_str(task_name) }
    }
}

impl Clone for TaskExecutionKey {
    fn clone(&self) -> (res: Self)
        ensures
            res@ == self@,
    {
        TaskExecutionKey { host: self.host.clone(), task_name: self.task_name.clone() }
    }
}

/// Why a task execution failed.
#[derive(Debug, Clone, Copy, PartialEq, Eq, Structural)]
pub enum TaskFailureKind {
    CommandFailed,
    ParseFailed,
    ValidationFailed,
    Timeout,
    DependencyFailed,
    Unknown,
}

/// Where a task execution on one host stands.
#[derive(Debug, Clone, Copy, PartialEq, Eq, Structural)]
pub enum TaskStatus {
    Pending,
    Running,
    Succeeded,
    RetryPending,
    Failed(TaskFailureKind),
    Skipped,
}

/// The recorded state of a task's execution attempts on one host.
#[derive(Debug, PartialEq, Eq)]
pub struct TaskAttemptState {
    pub status: TaskStatus,
    pub attempts: usize,
    pub last_error: Option<String>,
}

impl View for TaskAttemptState {
    type V = AttemptView<TaskStatus>;

    open spec fn view(&self) -> AttemptView<TaskStatus> {
        AttemptView { status: self.status, attempts: self.attempts, last_error: opt_view(self.last_error) }
    }
}

impl Clone for TaskAttemptState {
    fn clone(&self) -> (res: Self)
        ensures
            res@ == self@,
    {
        TaskAttemptState {
            status: self.status,
            attempts: self.attempts,
            last_error: clone_opt(&self.last_error),
        }
    }
}

impl CloneView for TaskAttemptState {
    fn clone_view(&self) -> (res: Self) {
        self.clone()
    }
}

impl TaskAttemptState {
    /// A record with `status`, no attempts and no error.
    pub fn new(status: TaskStatus) -> (res: Self)
        ensures
            res@ == (AttemptView { status, attempts: 0usize, last_error: None::<Seq<char>> }),
    {
        TaskAttemptState { status, attempts: 0, last_error: None }
    }

    /// The same record with the attempt count set.
    pub fn with_attempts(self, attempts: usize) -> (res: Self)
        ensures
            res@ == (AttemptView { attempts, ..self@ }),
    {
        TaskAttemptState { attempts, ..self }
    }

    /// The same record with the last error set.
    pub fn with_last_error(self, last_error: &str) -> (res: Self)
        ensures
            res@ == (AttemptView { last_error: Some(last_error@), ..self@ }),
    {
        TaskAttemptState { last_error: Some(String::from_str(last_error)), ..self }
    }
}

/// The abstract value of the runtime state.
pub struct StateView {
    pub hosts: Seq<(Seq<char>, HostStatus)>,
    pub connections: Seq<((Seq<char>, Seq<char>), AttemptView<ConnectionStatus>)>,
    pub tasks: Seq<((Seq<char>, Seq<char>), AttemptView<TaskStatus>)>,
}

/// Whether a host with the given tracked status is in scope: only a host
/// marked failed is out of scope.
pub open spec fn in_scope(status: Option<HostStatus>) -> bool {
    status != Some(HostStatus::Failed)
}

/// The attempt count recorded for a connection, zero when none is recorded.
pub open spec fn recorded_attempts(s: StateView, key: (Seq<char>, Seq<char>)) -> usize {
    match seq_lookup(s.connections, key) {
        Some(a) => a.attempts,
        None => 0,
    }
}

/// Scope: after marking a host failed it is out of scope, after marking it in
/// scope it is in scope again, and no other host's scope changes; a host never
/// marked is in scope.
pub proof fn law_scope_marks(hosts: Seq<(Seq<char>, HostStatus)>, name: Seq<char>, other: Seq<char>)
    ensures
        !in_scope(seq_lookup(seq_insert(hosts, name, HostStatus::Failed), name)),
        in_scope(seq_lookup(seq_insert(hosts, name, HostStatus::InScope), name)),
        other != name ==> seq_lookup(seq_insert(hosts, name, HostStatus::Failed), other) == seq_lookup(hosts, other),
        other != name ==> seq_lookup(seq_insert(hosts, name, HostStatus::InScope), other) == seq_lookup(hosts, other),
        seq_lookup(hosts, other) is None ==> in_scope(seq_lookup(hosts, other)),
{
    lemma_insert_lookup(hosts, name, HostStatus::Failed, name);
    lemma_insert_lookup(hosts, name, HostStatus::InScope, name);
    lemma_insert_lookup(hosts, name, HostStatus::Failed, other);
    lemma_insert_lookup(hosts, name, HostStatus::InScope, other);
}

/// Attempt counting: starting an attempt records one more attempt than before
/// (the first attempt counts one), and recording an outcome with
/// `status` keeps the count; entries of other connections are unchanged.
pub proof fn law_attempt_counting(
    s: StateView,
    key: (Seq<char>, Seq<char>),
    status: ConnectionStatus,
    last_error: Option<Seq<char>>,
    other: (Seq<char>, Seq<char>),
)
    requires
        recorded_attempts(s, key) < usize::MAX,
    ensures
        ({
            let begun = StateView {
                connections: seq_insert(
                    s.connections,
                    key,
                    AttemptView {
                        status: ConnectionStatus::Connecting,
                        attempts: (recorded_attempts(s, key) + 1) as usize,
                        last_error: None,
                    },
                ),
                ..s
            };
            let marked = StateView {
                connections: seq_insert(
                    begun.connections,
                    key,
                    AttemptView { status, attempts: recorded_attempts(begun, key), last_error },
                ),
                ..begun
            };
            &&& recorded_attempts(begun, key) == recorded_attempts(s, key) + 1
            &&& recorded_attempts(marked, key) == recorded_attempts(s, key) + 1
            &&& seq_lookup(marked.connections, key) matches Some(a) && a.status == status
            &&& other != key ==> seq_lookup(marked.connections, other) == seq_lookup(s.connections, other)
        }),
{
    let begun_entry = AttemptView {
        status: ConnectionStatus::Connecting,
        attempts: (recorded_attempts(s, key) + 1) as usize,
        last_error: None,
    };
    let begun = seq_insert(s.connections, key, begun_entry);
    lemma_insert_lookup(s.connections, key, begun_entry, key);
    lemma_insert_lookup(s.connections, key, begun_entry, other);
    let marked_entry = AttemptView { status, attempts: begun_entry.attempts, last_error };
    lemma_insert_lookup(begun, key, marked_entry, key);
    lemma_insert_lookup(begun, key, marked_entry, other);
}

/// Per-host execution state for one Genja run. It is held by value and
/// changed through `&mut self`; callers that share it put it behind a lock.
#[derive(Debug)]
pub struct State {
    host_status: CustomTreeMap<HostStatus>,
    connection_state: PairMap<ConnectionAttemptState>,
    task_state: PairMap<TaskAttemptState>,
}

impl View for State {
    type V = StateView;

    closed spec fn view(&self) -> StateView {
        StateView {
            hosts: self.host_status@,
            connections: self.connection_state@,
            tasks: self.task_state@,
        }
    }
}

impl State {
    /// An empty state: every host in scope, nothing recorded.
    pub fn new() -> (res: Self)
        ensures
            res@.hosts.len() == 0,
            res@.connections.len() == 0,
            res@.tasks.len() == 0,
    {
        State {
            host_status: CustomTreeMap::new(),
            connection_state: PairMap::new(),
            task_state: PairMap::new(),
        }
    }

    /// Marks host `name` as failed, which takes it out of scope.
    pub fn mark_failed(&mut self, name: &str)
        ensures
            final(self)@ == (StateView {
                hosts: seq_insert(old(self)@.hosts, name@, HostStatus::Failed),
                ..old(self)@
            }),
    {
        self.host_status.insert(name, HostStatus::Failed);
    }

    /// Marks host `name` as back in scope.
    pub fn mark_in_scope(&mut self, name: &str)
        ensures
            final(self)@ == (StateView {
                hosts: seq_insert(old(self)@.hosts, name@, HostStatus::InScope),
                ..old(self)@
            }),
    {
        self.host_status.insert(name, HostStatus::InScope);
    }

    /// Marks the host named by `key` as back in scope.
    pub fn mark_in_scope_key(&mut self, key: &NatString)
        ensures
            final(self)@ == (StateView {
                hosts: seq_insert(old(self)@.hosts, key@, HostStatus::InScope),
                ..old(self)@
            }),
    {
        self.host_status.insert(key.as_str(), HostStatus::InScope);
    }

    /// Whether host `name` is in scope: true unless it is marked failed.
    pub fn is_in_scope(&self, name: &str) -> (res: bool)
        ensures
            res == in_scope(seq_lookup(self@.hosts, name@)),
    {
        match self.host_status.get(name) {
            Some(status) => *status == HostStatus::InScope,
            None => true,
        }
    }

    /// Whether the host named by `key` is in scope.
    pub fn is_in_scope_key(&self, key: &NatString) -> (res: bool)
        ensures
            res == in_scope(seq_lookup(self@.hosts, key@)),
    {
        self.is_in_scope(key.as_str())
    }

    /// The status recorded for host `name`, if one was ever set.
    pub fn host_status(&self, name: &str) -> (res: Option<HostStatus>)
        ensures
            res == seq_lookup(self@.hosts, name@),
    {
        match self.host_status.get(name) {
            Some(status) => Some(*status),
            None => None,
        }
    }

    /// The status recorded for the host named by `key`, if one was ever set.
    pub fn host_status_key(&self, key: &NatString) -> (res: Option<HostStatus>)
        ensures
            res == seq_lookup(self@.hosts, key@),
    {
        self.host_status(key.as_str())
    }

    /// Records the connection state of `host` through `plugin_name`.
    pub fn set_connection_state(
        &mut self,
        host: &str,
        plugin_name: &str,
        state: ConnectionAttemptState,
    )
        ensures
            final(self)@ == (StateView {
                connections: seq_insert(old(self)@.connections, (host@, plugin_name@), state@),
                ..old(self)@
            }),
    {
        self.connection_state.insert(host, plugin_name, state);
    }

    /// Records the connection state for `key`.
    pub fn set_connection_state_key(&mut self, key: ConnectionKey, state: ConnectionAttemptState)
        ensures
            final(self)@ == (StateView {
                connections: seq_insert(old(self)@.connections, key@, state@),
                ..old(self)@
            }),
    {
        self.connection_state.insert(key.hostname.as_str(), key.plugin_name.as_str(), state);
    }

    /// The connection state recorded for `host` through `plugin_name`.
    pub fn connection_state(&self, host: &str, plugin_name: &str) -> (res: Option<
        ConnectionAttemptState,
    >)
        ensures
            match res {
                Some(s) => seq_lookup(self@.connections, (host@, plugin_name@)) == Some(s@),
                None => seq_lookup(self@.connections, (host@, plugin_name@)) is None,
            },
    {
        match self.connection_state.get(host, plugin_name) {
            Some(s) => Some(s.clone()),
            None => None,
        }
    }

    /// The connection state recorded for `key`.
    pub fn connection_state_key(&self, key: &ConnectionKey) -> (res: Option<ConnectionAttemptState>)
        ensures
            match res {
                Some(s) => seq_lookup(self@.connections, key@) == Some(s@),
                None => seq_lookup(self@.connections, key@) is None,
            },
    {
        self.connection_state(key.hostname.as_str(), key.plugin_name.as_str())
    }

    /// Starts a connection attempt: the status becomes `Connecting` and the
    /// attempt count grows by one (starting from zero).
    pub fn begin_connection_attempt(&mut self, host: &str, plugin_name: &str)
        requires
            recorded_attempts(old(self)@, (host@, plugin_name@)) < usize::MAX,
        ensures
            final(self)@ == (StateView {
                connections: seq_insert(
                    old(self)@.connections,
                    (host@, plugin_name@),
                    AttemptView {
                        status: ConnectionStatus::Connecting,
                        attempts: (recorded_attempts(old(self)@, (host@, plugin_name@)) + 1) as usize,
                        last_error: None,
                    },
                ),
                ..old(self)@
            }),
    {
        let attempts = match self.connection_state.get(host, plugin_name) {
            Some(s) => s.attempts + 1,
            None => 1,
        };
        let state = ConnectionAttemptState::new(ConnectionStatus::Connecting).with_attempts(attempts);
        self.connection_state.insert(host, plugin_name, state);
    }

    /// Starts a connection attempt for `key`.
    pub fn begin_connection_attempt_key(&mut self, key: ConnectionKey)
        requires
            recorded_attempts(old(self)@, key@) < usize::MAX,
        ensures
            final(self)@ == (StateView {
                connections: seq_insert(
                    old(self)@.connections,
                    key@,
                    AttemptView {
                        status: ConnectionStatus::Connecting,
                        attempts: (recorded_attempts(old(self)@, key@) + 1) as usize,
                        last_error: None,
                    },
                ),
                ..old(self)@
            }),
    {
        self.begin_connection_attempt(key.hostname.as_str(), key.plugin_name.as_str());
    }

    /// Records a successful connection, keeping the attempt count.
    pub fn mark_connection_connected(&mut self, host: &str, plugin_name: &str)
        ensures
            final(self)@ == (StateView {
                connections: seq_insert(
                    old(self)@.connections,
                    (host@, plugin_name@),
                    AttemptView {
                        status: ConnectionStatus::Connected,
                        attempts: recorded_attempts(old(self)@, (host@, plugin_name@)),
                        last_error: None,
                    },
                ),
                ..old(self)@
            }),
    {
        let attempts = match self.connection_state.get(host, plugin_name) {
            Some(s) => s.attempts,
            None => 0,
        };
        let state = ConnectionAttemptState::new(ConnectionStatus::Connected).with_attempts(attempts);
        self.connection_state.insert(host, plugin_name, state);
    }

    /// Records a successful connection for `key`.
    pub fn mark_connection_connected_key(&mut self, key: ConnectionKey)
        ensures
            final(self)@ == (StateView {
                connections: seq_insert(
                    old(self)@.connections,
                    key@,
                    AttemptView {
                        status: ConnectionStatus::Connected,
                        attempts: recorded_attempts(old(self)@, key@),
                        last_error: None,
                    },
                ),
                ..old(self)@
            }),
    {
        self.mark_connection_connected(key.hostname.as_str(), key.plugin_name.as_str());
    }

    /// Records that the connection will be retried, keeping the attempt count.
    pub fn mark_connection_retry_pending(&mut self, host: &str, plugin_name: &str, last_error: &str)
        ensures
            final(self)@ == (StateView {
                connections: seq_insert(
                    old(self)@.connections,
                    (host@, plugin_name@),
                    AttemptView {
                        status: ConnectionStatus::RetryPending,
                        attempts: recorded_attempts(old(self)@, (host@, plugin_name@)),
                        last_error: Some(last_error@),
                    },
                ),
                ..old(self)@
            }),
    {
        let attempts = match self.connection_state.get(host, plugin_name) {
            Some(s) => s.attempts,
            None => 0,
        };
        let state = ConnectionAttemptState::new(ConnectionStatus::RetryPending).with_attempts(
            attempts,
        ).with_last_error(last_error);
        self.connection_state.insert(host, plugin_name, state);
    }

    /// Records that the connection for `key` will be retried.
    pub fn mark_connection_retry_pending_key(&mut self, key: ConnectionKey, last_error: &str)
        ensures
            final(self)@ == (StateView {
                connections: seq_insert(
                    old(self)@.connections,
                    key@,
                    AttemptView {
                        status: ConnectionStatus::RetryPending,
                        attempts: recorded_attempts(old(self)@, key@),
                        last_error: Some(last_error@),
                    },
                ),
                ..old(self)@
            }),
    {
        self.mark_connection_retry_pending(key.hostname.as_str(), key.plugin_name.as_str(), last_error);
    }

    /// Records a failed connection, keeping the attempt count.
    pub fn mark_connection_failed(
        &mut self,
        host: &str,
        plugin_name: &str,
        kind: ConnectionFailureKind,
        last_error: &str,
    )
        ensures
            final(self)@ == (StateView {
                connections: seq_insert(
                    old(self)@.connections,
                    (host@, plugin_name@),
                    AttemptView {
                        status: ConnectionStatus::Failed(kind),
                        attempts: recorded_attempts(old(self)@, (host@, plugin_name@)),
                        last_error: Some(last_error@),
                    },
                ),
                ..old(self)@
            }),
    {
        let attempts = match self.connection_state.get(host, plugin_name) {
            Some(s) => s.attempts,
            None => 0,
        };
        let state = ConnectionAttemptState::new(ConnectionStatus::Failed(kind)).with_attempts(
            attempts,
        ).with_last_error(last_error);
        self.connection_state.insert(host, plugin_name, state);
    }

    /// Records a failed connection for `key`.
    pub fn mark_connection_failed_key(
        &mut self,
        key: ConnectionKey,
        kind: ConnectionFailureKind,
        last_error: &str,
    )
        ensures
            final(self)@ == (StateView {
                connections: seq_insert(
                    old(self)@.connections,
                    key@,
                    AttemptView {
                        status: ConnectionStatus::Failed(kind),
                        attempts: recorded_attempts(old(self)@, key@),
                        last_error: Some(last_error@),
                    },
                ),
                ..old(self)@
            }),
    {
        self.mark_connection_failed(key.hostname.as_str(), key.plugin_name.as_str(), kind, last_error);
    }

    /// Records the state of `task_name` on `host`.
    pub fn set_task_state(&mut self, host: &str, task_name: &str, state: TaskAttemptState)
        ensures
            final(self)@ == (StateView {
                tasks: seq_insert(old(self)@.tasks, (host@, task_name@), state@),
                ..old(self)@
            }),
    {
        self.task_state.insert(host, task_name, state);
    }

    /// Records the task state for `key`.
    pub fn set_task_state_key(&mut self, key: TaskExecutionKey, state: TaskAttemptState)
        ensures
            final(self)@ == (StateView {
                tasks: seq_insert(old(self)@.tasks, key@, state@),
                ..old(self)@
            }),
    {
        self.task_state.insert(key.host.as_str(), key.task_name.as_str(), state);
    }

    /// The recorded state of `task_name` on `host`.
    pub fn task_state(&self, host: &str, task_name: &str) -> (res: Option<TaskAttemptState>)
        ensures
            match res {
                Some(s) => seq_lookup(self@.tasks, (host@, task_name@)) == Some(s@),
                None => seq_lookup(self@.tasks, (host@, task_name@)) is None,
            },
    {
        match self.task_state.get(host, task_name) {
            Some(s) => Some(s.clone()),
            None => None,
        }
    }

    /// The recorded task state for `key`.
    pub fn task_state_key(&self, key: &TaskExecutionKey) -> (res: Option<TaskAttemptState>)
        ensures
            match res {
                Some(s) => seq_lookup(self@.tasks, key@) == Some(s@),
                None => seq_lookup(self@.tasks, key@) is None,
            },
    {
        self.task_state(key.host.as_str(), key.task_name.as_str())
    }
}

} // verus!
