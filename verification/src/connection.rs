//! Connections at run time: their state, the set of open ones, and what a
//! saved tab needs to be reopened.
use crate::models::ConnectionType;
use crate::text::{to_chars, trim, trim_chars};
use std::collections::HashSet;
use vstd::prelude::*;

verus! {

broadcast use vstd::std_specs::hash::group_hash_axioms;

/// State of an SSH, SFTP or serial connection.
#[derive(Debug, PartialEq, Eq)]
pub enum ConnectionState {
    Connected,
    Connecting,
    Disconnected { error: Option<String> },
}

/// The ids of the connections open now.
#[derive(Debug)]
pub struct ActiveConnections {
    active_ids: HashSet<i64>,
}

impl ActiveConnections {
    /// The open ids.
    pub closed spec fn ids(&self) -> Set<i64> {
        self.active_ids@
    }

    /// Only finitely many ids are ever open.
    #[verifier::type_invariant]
    spec fn finitely_many(&self) -> bool {
        self.active_ids@.finite()
    }

    /// No connection open.
    pub fn new() -> (r: Self)
        ensures
            r.ids() == Set::<i64>::empty(),
            r.ids().finite(),
    {
        ActiveConnections { active_ids: HashSet::new() }
    }

    /// Marks `conn_id` open.
    pub fn add(&mut self, conn_id: i64)
        ensures
            final(self).ids() == old(self).ids().insert(conn_id),
            final(self).ids().finite(),
    {
        proof {
            use_type_invariant(&*self);
        }
        let mut ids: HashSet<i64> = HashSet::new();
        std::mem::swap(&mut ids, &mut self.active_ids);
        ids.insert(conn_id);
        self.active_ids = ids;
    }

    /// Marks `conn_id` closed.
    pub fn remove(&mut self, conn_id: i64)
        ensures
            final(self).ids() == old(self).ids().remove(conn_id),
            final(self).ids().finite(),
    {
        proof {
            use_type_invariant(&*self);
        }
        let mut ids: HashSet<i64> = HashSet::new();
        std::mem::swap(&mut ids, &mut self.active_ids);
        ids.remove(&conn_id);
        proof {
            assert(ids@ =~= old(self).ids().remove(conn_id));
        }
        self.active_ids = ids;
    }

    /// Whether `conn_id` is open.
    pub fn is_active(&self, conn_id: i64) -> (r: bool)
        ensures
            r == self.ids().contains(conn_id),
            self.ids().finite(),
    {
        proof {
            use_type_invariant(self);
        }
        self.active_ids.contains(&conn_id)
    }

    /// How many connections are open.
    pub fn active_count(&self) -> (r: usize)
        ensures
            r == self.ids().len(),
            self.ids().finite(),
    {
        proof {
            use_type_invariant(self);
        }
        self.active_ids.len()
    }
}

impl Default for ActiveConnections {
    fn default() -> (r: Self)
        ensures
            r.ids() == Set::<i64>::empty(),
            r.ids().finite(),
    {
        Self::new()
    }
}

/// Records that connection `connection_id` (if any) opened or closed.
pub fn set_connection_active(connection_id: Option<i64>, active: bool, state: &mut ActiveConnections)
    ensures
        connection_id is None ==> final(state).ids() == old(state).ids(),
        connection_id matches Some(id) ==> final(state).ids() == if active {
            old(state).ids().insert(id)
        } else {
            old(state).ids().remove(id)
        },
{
    let id = match connection_id {
        Some(id) => id,
        None => return,
    };
    if active {
        state.add(id);
    } else {
        state.remove(id);
    }
}

/// What kind of tab a saved item reopens.
#[derive(Debug, Clone, Copy, PartialEq, Eq, Structural)]
pub enum ConnectionRestoreKind {
    LocalTerminal,
    SshTerminal,
    SerialTerminal,
    Sftp,
    Database,
    DatabaseWorkspace,
    Redis,
    RedisWorkspace,
    MongoDb,
    MongoDbWorkspace,
}

impl ConnectionRestoreKind {
    /// The kind of stored connection the tab opens; none for a local terminal.
    pub open spec fn connection_type_spec(&self) -> Option<ConnectionType> {
        match self {
            ConnectionRestoreKind::LocalTerminal => None,
            ConnectionRestoreKind::SshTerminal | ConnectionRestoreKind::Sftp => Some(
                ConnectionType::SshSftp,
            ),
            ConnectionRestoreKind::SerialTerminal => Some(ConnectionType::Serial),
            ConnectionRestoreKind::Database | ConnectionRestoreKind::DatabaseWorkspace => Some(
                ConnectionType::Database,
            ),
            ConnectionRestoreKind::Redis | ConnectionRestoreKind::RedisWorkspace => Some(
                ConnectionType::Redis,
            ),
            ConnectionRestoreKind::MongoDb | ConnectionRestoreKind::MongoDbWorkspace => Some(
                ConnectionType::MongoDB,
            ),
        }
    }

    /// Whether the tab opens a workspace rather than one connection.
    pub open spec fn is_workspace_spec(&self) -> bool {
        self is DatabaseWorkspace || self is RedisWorkspace || self is MongoDbWorkspace
    }

    /// The kind of stored connection the tab opens.
    pub fn connection_type(&self) -> (r: Option<ConnectionType>)
        ensures
            r == self.connection_type_spec(),
    {
        match self {
            ConnectionRestoreKind::LocalTerminal => None,
            ConnectionRestoreKind::SshTerminal | ConnectionRestoreKind::Sftp => Some(
                ConnectionType::SshSftp,
            ),
            ConnectionRestoreKind::SerialTerminal => Some(ConnectionType::Serial),
            ConnectionRestoreKind::Database | ConnectionRestoreKind::DatabaseWorkspace => Some(
                ConnectionType::Database,
            ),
            ConnectionRestoreKind::Redis | ConnectionRestoreKind::RedisWorkspace => Some(
                ConnectionType::Redis,
            ),
            ConnectionRestoreKind::MongoDb | ConnectionRestoreKind::MongoDbWorkspace => Some(
                ConnectionType::MongoDB,
            ),
        }
    }

    /// Whether the tab opens a workspace.
    pub fn is_workspace(&self) -> (r: bool)
        ensures
            r == self.is_workspace_spec(),
    {
        match self {
            ConnectionRestoreKind::DatabaseWorkspace => true,
            ConnectionRestoreKind::RedisWorkspace => true,
            ConnectionRestoreKind::MongoDbWorkspace => true,
            _ => false,
        }
    }
}

/// What an SSH terminal tab keeps for reopening.
#[derive(Debug)]
pub struct SshTerminalRestoreState {
    pub working_dir: Option<String>,
    pub buffer_content: Option<String>,
    pub theme_name: Option<String>,
}

/// Whether a saved tab can be reopened: it has a title that is not blank,
/// and a local terminal state, a workspace or a connection as its kind needs.
pub open spec fn restore_valid(
    kind: ConnectionRestoreKind,
    title: Seq<char>,
    connection_id: Option<i64>,
    workspace_id: Option<i64>,
    has_local_terminal: bool,
) -> bool {
    trim(title).len() != 0 && if kind is LocalTerminal {
        has_local_terminal
    } else if kind.is_workspace_spec() {
        workspace_id is Some
    } else {
        connection_id is Some
    }
}

/// The workspace kinds (database, Redis and MongoDB workspaces) reopen from
/// a workspace id alone, the connection kinds from a connection id alone,
/// and a local terminal from its saved terminal state; a blank title never
/// reopens.
pub proof fn law_restore_needs_the_right_id(
    kind: ConnectionRestoreKind,
    title: Seq<char>,
    id: i64,
)
    ensures
        trim(title).len() != 0 && (kind is DatabaseWorkspace || kind is RedisWorkspace
            || kind is MongoDbWorkspace) ==> restore_valid(kind, title, None, Some(id), false)
            && !restore_valid(kind, title, Some(id), None, true),
        trim(title).len() != 0 && (kind is SshTerminal || kind is Sftp || kind is SerialTerminal
            || kind is Database || kind is Redis || kind is MongoDb) ==> restore_valid(kind, title, Some(id), None, false) && !restore_valid(
            kind,
            title,
            None,
            Some(id),
            true,
        ),
        trim(title).len() != 0 && kind is LocalTerminal ==> restore_valid(
            kind,
            title,
            None,
            None,
            true,
        ) && !restore_valid(kind, title, Some(id), Some(id), false),
        trim(title).len() == 0 ==> !restore_valid(kind, title, Some(id), Some(id), true),
{
}

/// Whether a saved tab can be reopened; see `restore_valid`.
pub fn restore_payload_is_valid(
    kind: ConnectionRestoreKind,
    title: &str,
    connection_id: Option<i64>,
    workspace_id: Option<i64>,
    has_local_terminal: bool,
) -> (r: bool)
    ensures
        r == restore_valid(kind, title@, connection_id, workspace_id, has_local_terminal),
{
    let t = trim_chars(&to_chars(title));
    if t.len() == 0 {
        return false;
    }
    match kind {
        ConnectionRestoreKind::LocalTerminal => has_local_terminal,
        _ => if kind.is_workspace() {
            workspace_id.is_some()
        } else {
            connection_id.is_some()
        },
    }
}

/// Title of a reopened local terminal saved before titles were kept
/// alongside: the saved one where not blank, else "Local Terminal".
pub fn legacy_terminal_title(title: Option<&str>) -> (r: String)
    ensures
        title is Some && trim(title->0@).len() != 0 ==> r@ == title->0@,
        !(title is Some && trim(title->0@).len() != 0) ==> r@ == "Local Terminal"@,
{
    match title {
        Some(t) => {
            let tv = trim_chars(&to_chars(t));
            if tv.len() != 0 {
                return String::from_str(t);
            }
            String::from_str("Local Terminal")
        },
        None => String::from_str("Local Terminal"),
    }
}

} // verus!
