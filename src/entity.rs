use vstd::prelude::*;

verus! {

/// The kinds of locally owned records that take part in synchronization.
#[derive(Clone, Copy, Debug, PartialEq, Eq, Structural)]
pub enum EntityKind {
    Task,
    Organization,
    Project,
    Tag,
}

/// A task as the user interface edits it. Timestamps are milliseconds since
/// the Unix epoch.
#[derive(Clone, Debug)]
pub struct Task {
    pub id: String,
    pub name: String,
    pub status: String,
    pub priority: Option<String>,
    pub due: Option<String>,
    pub duration: Option<i32>,
    pub notes: Option<String>,
    pub organization_id: Option<String>,
    pub project_id: Option<String>,
    pub parent_id: Option<String>,
    pub prd: Option<String>,
    pub created_at: u64,
    pub updated_at: u64,
    pub synced_at: Option<u64>,
    pub is_dirty: bool,
}

/// What the status display shows: connectivity, the number of rows waiting
/// to be pushed, and when the last sync cycle completed.
#[derive(Clone, Copy, Debug, PartialEq, Eq, Structural)]
pub struct SyncStatus {
    pub is_online: bool,
    pub pending_changes: i32,
    pub last_sync: Option<u64>,
}

/// A stored row of any kind: its domain fields travel as an opaque payload,
/// next to the metadata that synchronization reads and writes.
pub struct Row {
    pub kind: EntityKind,
    pub id: String,
    pub payload: Vec<u8>,
    pub created_at: u64,
    pub updated_at: u64,
    pub synced_at: Option<u64>,
    pub is_dirty: bool,
}

/// The mathematical value of a `Row`.
pub ghost struct RowView {
    pub kind: EntityKind,
    pub id: Seq<char>,
    pub payload: Seq<u8>,
    pub created_at: u64,
    pub updated_at: u64,
    pub synced_at: Option<u64>,
    pub is_dirty: bool,
}

impl View for Row {
    type V = RowView;

    open spec fn view(&self) -> RowView {
        RowView {
            kind: self.kind,
            id: self.id@,
            payload: self.payload@,
            created_at: self.created_at,
            updated_at: self.updated_at,
            synced_at: self.synced_at,
            is_dirty: self.is_dirty,
        }
    }
}

} // verus!
