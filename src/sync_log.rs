use vstd::prelude::*;

use crate::entity::EntityKind;

verus! {

/// What a sync log entry records.
#[derive(Clone, Copy, Debug, PartialEq, Eq, Structural)]
pub enum SyncAction {
    /// Upload of a row that the service had never confirmed.
    Create,
    /// Upload of a row that the service had confirmed before.
    Update,
    /// A remote copy stored locally.
    Pull,
    /// A pulled copy met an unpushed local edit; the local copy won.
    ConflictLocalWins,
}

/// One append-only entry. `synced_at` is the confirmed time, `error` the
/// failure message of an attempt that was not confirmed.
pub struct LogEntry {
    pub id: u64,
    pub entity_type: EntityKind,
    pub entity_id: String,
    pub action: SyncAction,
    pub synced_at: Option<u64>,
    pub error: Option<String>,
}

pub ghost struct LogEntryView {
    pub id: u64,
    pub entity_type: EntityKind,
    pub entity_id: Seq<char>,
    pub action: SyncAction,
    pub synced_at: Option<u64>,
    pub error: Option<Seq<char>>,
}

pub open spec fn text_of(s: Option<String>) -> Option<Seq<char>> {
    match s {
        Some(t) => Some(t@),
        None => None,
    }
}

impl View for LogEntry {
    type V = LogEntryView;

    open spec fn view(&self) -> LogEntryView {
        LogEntryView {
            id: self.id,
            entity_type: self.entity_type,
            entity_id: self.entity_id@,
            action: self.action,
            synced_at: self.synced_at,
            error: text_of(self.error),
        }
    }
}

/// The entry that `record` appends as number `id`.
pub open spec fn entry(
    id: nat,
    entity_type: EntityKind,
    entity_id: Seq<char>,
    action: SyncAction,
    synced_at: Option<u64>,
    error: Option<Seq<char>>,
) -> LogEntryView {
    LogEntryView { id: id as u64, entity_type, entity_id, action, synced_at, error }
}

/// The append-only ledger of sync attempts. Entry ids are their positions.
pub struct SyncLog {
    entries: Vec<LogEntry>,
}

impl View for SyncLog {
    type V = Seq<LogEntryView>;

    closed spec fn view(&self) -> Seq<LogEntryView> {
        self.entries@.map_values(|e: LogEntry| e@)
    }
}

impl SyncLog {
    pub closed spec fn wf(&self) -> bool {
        forall|i: int| 0 <= i < self@.len() ==> (#[trigger] self@[i]).id == i
    }

    pub fn new() -> (l: SyncLog)
        ensures
            l.wf(),
            l@ == Seq::<LogEntryView>::empty(),
    {
        let l = SyncLog { entries: Vec::new() };
        assert(l@ =~= Seq::<LogEntryView>::empty());
        l
    }

    pub fn len(&self) -> (n: usize)
        ensures
            n == self@.len(),
    {
        self.entries.len()
    }

    pub fn entry(&self, i: usize) -> (e: &LogEntry)
        requires
            i < self@.len(),
        ensures
            e@ == self@[i as int],
    {
        &self.entries[i]
    }

    /// Appends one entry, numbered after the ones before it.
    pub fn record(
        &mut self,
        entity_type: EntityKind,
        entity_id: String,
        action: SyncAction,
        synced_at: Option<u64>,
        error: Option<String>,
    )
        requires
            old(self).wf(),
        ensures
            final(self).wf(),
            final(self)@ == old(self)@.push(
                entry(
                    old(self)@.len(),
                    entity_type,
                    entity_id@,
                    action,
                    synced_at,
                    text_of(error),
                ),
            ),
    {
        let ghost e = entry(self@.len(), entity_type, entity_id@, action, synced_at, text_of(error));
        let id = self.entries.len() as u64;
        self.entries.push(LogEntry { id, entity_type, entity_id, action, synced_at, error });
        assert(self@ =~= old(self)@.push(e));
    }
}

} // verus!
