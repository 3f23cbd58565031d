//! Data that the cloud sync reads: cloud records, local connections,
//! workspaces, certificates and LLM providers, and the view that the planner
//! has of them.
use crate::text::{to_chars, trim, trim_chars};
use vstd::prelude::*;

verus! {

/// A copy of an optional string.
pub fn clone_opt_string(o: &Option<String>) -> (r: Option<String>)
    ensures
        r == *o,
{
    match o {
        Some(s) => Some(s.clone()),
        None => None,
    }
}

// ---------------------------------------------------------------------------
// Cloud records
// ---------------------------------------------------------------------------
/// One record of the cloud sync store.
#[derive(Debug)]
pub struct CloudSyncData {
    /// Cloud id.
    pub id: String,
    /// Owning user.
    pub owner_id: String,
    /// Kind of data (`connection`, `workspace`, ...).
    pub data_type: String,
    /// Plain name (may be empty for records written by older clients).
    pub name: String,
    /// Encrypted payload.
    pub encrypted_data: String,
    /// Version of the key that encrypted the payload.
    pub key_version: u32,
    /// Checksum of the plain payload.
    pub checksum: String,
    /// Record version.
    pub version: i64,
    /// Last update, in milliseconds since the epoch.
    pub updated_at: i64,
    /// Deletion time, when the record was deleted.
    pub deleted_at: Option<i64>,
}

impl Clone for CloudSyncData {
    fn clone(&self) -> (r: Self)
        ensures
            r == *self,
    {
        CloudSyncData {
            id: self.id.clone(),
            owner_id: self.owner_id.clone(),
            data_type: self.data_type.clone(),
            name: self.name.clone(),
            encrypted_data: self.encrypted_data.clone(),
            key_version: self.key_version,
            checksum: self.checksum.clone(),
            version: self.version,
            updated_at: self.updated_at,
            deleted_at: self.deleted_at,
        }
    }
}

impl CloudSyncData {
    /// The record carries a usable name.
    pub open spec fn spec_has_resolved_name(&self) -> bool {
        trim(self.name@).len() > 0
    }

    /// Whether the record carries a usable (non-blank) name.
    pub fn has_resolved_name(&self) -> (r: bool)
        ensures
            r == self.spec_has_resolved_name(),
    {
        let c = to_chars(self.name.as_str());
        trim_chars(&c).len() > 0
    }

    /// Whether the record's name is blank and should be filled from the local
    /// item.
    pub fn needs_name_backfill(&self) -> (r: bool)
        ensures
            r == !self.spec_has_resolved_name(),
    {
        !self.has_resolved_name()
    }
}

// ---------------------------------------------------------------------------
// Connections
// ---------------------------------------------------------------------------
/// Kind of a stored connection.
#[derive(Debug, Clone, Copy, PartialEq, Eq, Structural)]
pub enum ConnectionType {
    Database,
    SshSftp,
    Serial,
    Redis,
    MongoDB,
}

/// A connection saved locally.
#[derive(Debug)]
pub struct StoredConnection {
    pub id: Option<i64>,
    pub name: String,
    pub connection_type: ConnectionType,
    pub sort_order: Option<i32>,
    pub workspace_id: Option<i64>,
    pub params: String,
    pub selected_databases: Option<String>,
    pub remark: Option<String>,
    pub sync_enabled: bool,
    pub cloud_id: Option<String>,
    pub last_synced_at: Option<i64>,
    pub created_at: Option<i64>,
    pub updated_at: Option<i64>,
    pub owner_id: Option<String>,
}

impl Clone for StoredConnection {
    fn clone(&self) -> (r: Self)
        ensures
            r == *self,
    {
        StoredConnection {
            id: self.id,
            name: self.name.clone(),
            connection_type: self.connection_type,
            sort_order: self.sort_order,
            workspace_id: self.workspace_id,
            params: self.params.clone(),
            selected_databases: clone_opt_string(&self.selected_databases),
            remark: clone_opt_string(&self.remark),
            sync_enabled: self.sync_enabled,
            cloud_id: clone_opt_string(&self.cloud_id),
            last_synced_at: self.last_synced_at,
            created_at: self.created_at,
            updated_at: self.updated_at,
            owner_id: clone_opt_string(&self.owner_id),
        }
    }
}

// ---------------------------------------------------------------------------
// Workspaces
// ---------------------------------------------------------------------------
/// A workspace grouping connections.
#[derive(Debug)]
pub struct Workspace {
    pub id: Option<i64>,
    pub name: String,
    pub sort_order: Option<i32>,
    pub color: Option<String>,
    pub icon: Option<String>,
    pub created_at: Option<i64>,
    pub updated_at: Option<i64>,
    pub cloud_id: Option<String>,
    pub last_synced_at: Option<i64>,
}

impl Clone for Workspace {
    fn clone(&self) -> (r: Self)
        ensures
            r == *self,
    {
        Workspace {
            id: self.id,
            name: self.name.clone(),
            sort_order: self.sort_order,
            color: clone_opt_string(&self.color),
            icon: clone_opt_string(&self.icon),
            created_at: self.created_at,
            updated_at: self.updated_at,
            cloud_id: clone_opt_string(&self.cloud_id),
            last_synced_at: self.last_synced_at,
        }
    }
}

impl Workspace {
    /// A new, unsaved and unsynced workspace.
    pub fn new(name: String) -> (r: Self)
        ensures
            r.name == name,
            r.id is None,
            r.sort_order is None,
            r.color is None,
            r.icon is None,
            r.created_at is None,
            r.updated_at is None,
            r.cloud_id is None,
            r.last_synced_at is None,
    {
        Workspace {
            id: None,
            name,
            sort_order: None,
            color: None,
            icon: None,
            created_at: None,
            updated_at: None,
            cloud_id: None,
            last_synced_at: None,
        }
    }
}

// ---------------------------------------------------------------------------
// Certificates
// ---------------------------------------------------------------------------
/// The two kinds of certificate.
#[derive(Debug, Clone, Copy, PartialEq, Eq, Structural)]
pub enum CertificateKind {
    UsernamePassword,
    SshPrivateKey,
}

/// A stored certificate (credentials shared by connections).
#[derive(Debug)]
pub struct Certificate {
    pub id: Option<i64>,
    pub name: String,
    pub kind: CertificateKind,
    /// The certificate's parameters, as JSON text.
    pub params: String,
    pub remark: Option<String>,
    pub sync_enabled: bool,
    pub cloud_id: Option<String>,
    pub last_synced_at: Option<i64>,
    pub created_at: Option<i64>,
    pub updated_at: Option<i64>,
    pub owner_id: Option<String>,
}

impl Clone for Certificate {
    fn clone(&self) -> (r: Self)
        ensures
            r == *self,
    {
        Certificate {
            id: self.id,
            name: self.name.clone(),
            kind: self.kind,
            params: self.params.clone(),
            remark: clone_opt_string(&self.remark),
            sync_enabled: self.sync_enabled,
            cloud_id: clone_opt_string(&self.cloud_id),
            last_synced_at: self.last_synced_at,
            created_at: self.created_at,
            updated_at: self.updated_at,
            owner_id: clone_opt_string(&self.owner_id),
        }
    }
}

// ---------------------------------------------------------------------------
// LLM providers
// ---------------------------------------------------------------------------
/// Kind of an LLM provider.
#[derive(Debug, Clone, Copy, PartialEq, Eq, Structural)]
pub enum ProviderType {
    OpenAI,
    Anthropic,
    OpenAICompatible,
    AzureOpenAI,
    Gemini,
    Ollama,
    DeepSeek,
    Qwen,
    Zhipu,
    Moonshot,
    Doubao,
    /// The built-in provider that ships with the application.
    OmniHub,
}

impl ProviderType {
    /// The built-in provider, under its former name.
    pub const OnetCli: ProviderType = ProviderType::OmniHub;

    /// Whether the provider is the built-in one.
    pub open spec fn spec_is_builtin(&self) -> bool {
        *self == ProviderType::OmniHub
    }

    /// Whether the provider is the built-in one.
    pub fn is_builtin(&self) -> (r: bool)
        ensures
            r == self.spec_is_builtin(),
    {
        match self {
            ProviderType::OmniHub => true,
            _ => false,
        }
    }

    /// Every provider kind.
    pub fn all() -> (r: Vec<ProviderType>)
        ensures
            r@.len() == 12,
            r@ == Self::user_configurable_spec().push(ProviderType::OmniHub),
    {
        let mut v = Self::user_configurable();
        v.push(ProviderType::OmniHub);
        v
    }

    /// The kinds a user configures, in order.
    pub open spec fn user_configurable_spec() -> Seq<ProviderType> {
        seq![
            ProviderType::OpenAI,
            ProviderType::Anthropic,
            ProviderType::OpenAICompatible,
            ProviderType::AzureOpenAI,
            ProviderType::Gemini,
            ProviderType::Ollama,
            ProviderType::DeepSeek,
            ProviderType::Qwen,
            ProviderType::Zhipu,
            ProviderType::Moonshot,
            ProviderType::Doubao,
        ]
    }

    /// The kinds a user configures: all but the built-in one.
    pub fn user_configurable() -> (r: Vec<ProviderType>)
        ensures
            r@ == Self::user_configurable_spec(),
            forall|i: int| 0 <= i < r@.len() ==> !(#[trigger] r@[i]).spec_is_builtin(),
    {
        let v = vec![
            ProviderType::OpenAI,
            ProviderType::Anthropic,
            ProviderType::OpenAICompatible,
            ProviderType::AzureOpenAI,
            ProviderType::Gemini,
            ProviderType::Ollama,
            ProviderType::DeepSeek,
            ProviderType::Qwen,
            ProviderType::Zhipu,
            ProviderType::Moonshot,
            ProviderType::Doubao,
        ];
        assert(v@ =~= Self::user_configurable_spec());
        v
    }
}

/// An LLM provider configuration.
#[derive(Debug)]
pub struct ProviderConfig {
    pub id: i64,
    pub name: String,
    pub provider_type: ProviderType,
    pub api_key: String,
    pub api_base: Option<String>,
    pub api_version: Option<String>,
    pub model: String,
    pub max_tokens: Option<u32>,
    pub thinking_budget: Option<u32>,
    pub enabled: bool,
    pub is_default: bool,
    pub cloud_id: Option<String>,
    pub last_synced_at: Option<i64>,
    pub sync_enabled: bool,
    pub created_at: i64,
    pub updated_at: i64,
}

impl Clone for ProviderConfig {
    fn clone(&self) -> (r: Self)
        ensures
            r == *self,
    {
        ProviderConfig {
            id: self.id,
            name: self.name.clone(),
            provider_type: self.provider_type,
            api_key: self.api_key.clone(),
            api_base: clone_opt_string(&self.api_base),
            api_version: clone_opt_string(&self.api_version),
            model: self.model.clone(),
            max_tokens: self.max_tokens,
            thinking_budget: self.thinking_budget,
            enabled: self.enabled,
            is_default: self.is_default,
            cloud_id: clone_opt_string(&self.cloud_id),
            last_synced_at: self.last_synced_at,
            sync_enabled: self.sync_enabled,
            created_at: self.created_at,
            updated_at: self.updated_at,
        }
    }
}

impl Default for ProviderConfig {
    fn default() -> (r: Self)
        ensures
            r.id == 0,
            r.name@.len() == 0,
            r.provider_type == ProviderType::OpenAI,
            r.cloud_id is None,
            r.last_synced_at is None,
            r.sync_enabled,
            r.enabled,
            !r.is_default,
            r.created_at == 0,
            r.updated_at == 0,
    {
        ProviderConfig {
            id: 0,
            name: String::new(),
            provider_type: ProviderType::OpenAI,
            api_key: String::new(),
            api_base: None,
            api_version: None,
            model: String::new(),
            max_tokens: None,
            thinking_budget: None,
            enabled: true,
            is_default: false,
            cloud_id: None,
            last_synced_at: None,
            sync_enabled: true,
            created_at: 0,
            updated_at: 0,
        }
    }
}

// ---------------------------------------------------------------------------
// Conflicts
// ---------------------------------------------------------------------------
/// How a local and a cloud version of a connection disagree.
#[derive(Debug, Clone, Copy, PartialEq, Eq, Structural)]
pub enum ConflictType {
    /// Both sides changed.
    BothModified,
    /// Deleted locally, changed in the cloud.
    LocalDeletedCloudModified,
    /// Changed locally, deleted in the cloud.
    LocalModifiedCloudDeleted,
}

/// How to settle a conflict.
#[derive(Debug, Clone, Copy, PartialEq, Eq, Structural)]
pub enum ConflictResolution {
    /// Keep the cloud version.
    UseCloud,
    /// Keep the local version.
    UseLocal,
    /// Keep both, the local one as a copy.
    KeepBoth,
}

/// A conflict between a local connection and a cloud record.
#[derive(Debug)]
pub struct SyncConflict {
    pub local: StoredConnection,
    pub cloud: CloudSyncData,
    pub cloud_name: String,
    pub conflict_type: ConflictType,
}

impl Clone for SyncConflict {
    fn clone(&self) -> (r: Self)
        ensures
            r == *self,
    {
        SyncConflict {
            local: self.local.clone(),
            cloud: self.cloud.clone(),
            cloud_name: self.cloud_name.clone(),
            conflict_type: self.conflict_type,
        }
    }
}

// ---------------------------------------------------------------------------
// Items the planner syncs
// ---------------------------------------------------------------------------
/// What the sync planner reads of a local item.
pub trait SyncableItem: Sized {
    spec fn spec_local_id(&self) -> Option<i64>;

    spec fn spec_cloud_id(&self) -> Option<Seq<char>>;

    spec fn spec_name(&self) -> Seq<char>;

    spec fn spec_sync_enabled(&self) -> bool;

    spec fn spec_updated_at(&self) -> Option<i64>;

    spec fn spec_last_synced_at(&self) -> Option<i64>;

    spec fn spec_uses_sync_state(&self) -> bool;

    /// Local id, once saved.
    fn local_id(&self) -> (r: Option<i64>)
        ensures
            r == self.spec_local_id(),
    ;

    /// Linked cloud id.
    fn cloud_id(&self) -> (r: Option<&str>)
        ensures
            match r {
                Some(s) => self.spec_cloud_id() == Some(s@),
                None => self.spec_cloud_id() is None,
            },
    ;

    /// Name used to match cloud records.
    fn item_name(&self) -> (r: &str)
        ensures
            r@ == self.spec_name(),
    ;

    /// Whether the item takes part in sync.
    fn sync_enabled(&self) -> (r: bool)
        ensures
            r == self.spec_sync_enabled(),
    ;

    /// Last local change (seconds).
    fn updated_at(&self) -> (r: Option<i64>)
        ensures
            r == self.spec_updated_at(),
    ;

    /// Last successful sync (seconds).
    fn last_synced_at(&self) -> (r: Option<i64>)
        ensures
            r == self.spec_last_synced_at(),
    ;

    /// Whether changes are judged against the last sync time.
    fn uses_sync_state(&self) -> (r: bool)
        ensures
            r == self.spec_uses_sync_state(),
    ;

    /// An identical copy.
    fn copy_item(&self) -> (r: Self)
        ensures
            r == *self,
    ;
}

/// Views an optional string as an optional character sequence.
pub open spec fn opt_view(o: Option<String>) -> Option<Seq<char>> {
    match o {
        Some(s) => Some(s@),
        None => None,
    }
}

fn opt_as_str(o: &Option<String>) -> (r: Option<&str>)
    ensures
        match r {
            Some(s) => opt_view(*o) == Some(s@),
            None => o is None,
        },
{
    match o {
        Some(s) => Some(s.as_str()),
        None => None,
    }
}

impl SyncableItem for ProviderConfig {
    open spec fn spec_local_id(&self) -> Option<i64> {
        Some(self.id)
    }

    open spec fn spec_cloud_id(&self) -> Option<Seq<char>> {
        opt_view(self.cloud_id)
    }

    open spec fn spec_name(&self) -> Seq<char> {
        self.name@
    }

    open spec fn spec_sync_enabled(&self) -> bool {
        self.sync_enabled
    }

    open spec fn spec_updated_at(&self) -> Option<i64> {
        Some(self.updated_at)
    }

    open spec fn spec_last_synced_at(&self) -> Option<i64> {
        self.last_synced_at
    }

    open spec fn spec_uses_sync_state(&self) -> bool {
        false
    }

    fn local_id(&self) -> (r: Option<i64>) {
        Some(self.id)
    }

    fn cloud_id(&self) -> (r: Option<&str>) {
        opt_as_str(&self.cloud_id)
    }

    fn item_name(&self) -> (r: &str) {
        self.name.as_str()
    }

    fn sync_enabled(&self) -> (r: bool) {
        self.sync_enabled
    }

    fn updated_at(&self) -> (r: Option<i64>) {
        Some(self.updated_at)
    }

    fn last_synced_at(&self) -> (r: Option<i64>) {
        self.last_synced_at
    }

    fn uses_sync_state(&self) -> (r: bool) {
        false
    }

    fn copy_item(&self) -> (r: Self) {
        self.clone()
    }
}

impl SyncableItem for Workspace {
    open spec fn spec_local_id(&self) -> Option<i64> {
        self.id
    }

    open spec fn spec_cloud_id(&self) -> Option<Seq<char>> {
        opt_view(self.cloud_id)
    }

    open spec fn spec_name(&self) -> Seq<char> {
        self.name@
    }

    open spec fn spec_sync_enabled(&self) -> bool {
        true
    }

    open spec fn spec_updated_at(&self) -> Option<i64> {
        self.updated_at
    }

    open spec fn spec_last_synced_at(&self) -> Option<i64> {
        self.last_synced_at
    }

    open spec fn spec_uses_sync_state(&self) -> bool {
        true
    }

    fn local_id(&self) -> (r: Option<i64>) {
        self.id
    }

    fn cloud_id(&self) -> (r: Option<&str>) {
        opt_as_str(&self.cloud_id)
    }

    fn item_name(&self) -> (r: &str) {
        self.name.as_str()
    }

    fn sync_enabled(&self) -> (r: bool) {
        true
    }

    fn updated_at(&self) -> (r: Option<i64>) {
        self.updated_at
    }

    fn last_synced_at(&self) -> (r: Option<i64>) {
        self.last_synced_at
    }

    fn uses_sync_state(&self) -> (r: bool) {
        true
    }

    fn copy_item(&self) -> (r: Self) {
        self.clone()
    }
}

impl SyncableItem for StoredConnection {
    open spec fn spec_local_id(&self) -> Option<i64> {
        self.id
    }

    open spec fn spec_cloud_id(&self) -> Option<Seq<char>> {
        opt_view(self.cloud_id)
    }

    open spec fn spec_name(&self) -> Seq<char> {
        self.name@
    }

    open spec fn spec_sync_enabled(&self) -> bool {
        self.sync_enabled
    }

    open spec fn spec_updated_at(&self) -> Option<i64> {
        self.updated_at
    }

    open spec fn spec_last_synced_at(&self) -> Option<i64> {
        self.last_synced_at
    }

    open spec fn spec_uses_sync_state(&self) -> bool {
        true
    }

    fn local_id(&self) -> (r: Option<i64>) {
        self.id
    }

    fn cloud_id(&self) -> (r: Option<&str>) {
        opt_as_str(&self.cloud_id)
    }

    fn item_name(&self) -> (r: &str) {
        self.name.as_str()
    }

    fn sync_enabled(&self) -> (r: bool) {
        self.sync_enabled
    }

    fn updated_at(&self) -> (r: Option<i64>) {
        self.updated_at
    }

    fn last_synced_at(&self) -> (r: Option<i64>) {
        self.last_synced_at
    }

    fn uses_sync_state(&self) -> (r: bool) {
        true
    }

    fn copy_item(&self) -> (r: Self) {
        self.clone()
    }
}

impl SyncableItem for Certificate {
    open spec fn spec_local_id(&self) -> Option<i64> {
        self.id
    }

    open spec fn spec_cloud_id(&self) -> Option<Seq<char>> {
        opt_view(self.cloud_id)
    }

    open spec fn spec_name(&self) -> Seq<char> {
        self.name@
    }

    open spec fn spec_sync_enabled(&self) -> bool {
        self.sync_enabled
    }

    open spec fn spec_updated_at(&self) -> Option<i64> {
        self.updated_at
    }

    open spec fn spec_last_synced_at(&self) -> Option<i64> {
        self.last_synced_at
    }

    open spec fn spec_uses_sync_state(&self) -> bool {
        true
    }

    fn local_id(&self) -> (r: Option<i64>) {
        self.id
    }

    fn cloud_id(&self) -> (r: Option<&str>) {
        opt_as_str(&self.cloud_id)
    }

    fn item_name(&self) -> (r: &str) {
        self.name.as_str()
    }

    fn sync_enabled(&self) -> (r: bool) {
        self.sync_enabled
    }

    fn updated_at(&self) -> (r: Option<i64>) {
        self.updated_at
    }

    fn last_synced_at(&self) -> (r: Option<i64>) {
        self.last_synced_at
    }

    fn uses_sync_state(&self) -> (r: bool) {
        true
    }

    fn copy_item(&self) -> (r: Self) {
        self.clone()
    }
}

} // verus!
