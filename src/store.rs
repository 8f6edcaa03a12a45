use vstd::prelude::*;

use crate::entity::{EntityKind, Row, RowView};

verus! {

/// A row as the remote service hands it out on a pull.
pub struct RemoteRow {
    pub kind: EntityKind,
    pub id: String,
    pub payload: Vec<u8>,
    pub created_at: u64,
    pub updated_at: u64,
}

/// A dirty row captured for upload at the start of a cycle.
pub struct PushJob {
    pub kind: EntityKind,
    pub id: String,
    pub payload: Vec<u8>,
    pub updated_at: u64,
    /// The row has never been confirmed by the service.
    pub first_push: bool,
}

/// The mathematical value of a `PushJob`.
pub ghost struct JobView {
    pub kind: EntityKind,
    pub id: Seq<char>,
    pub payload: Seq<u8>,
    pub updated_at: u64,
    pub first_push: bool,
}

impl View for PushJob {
    type V = JobView;

    open spec fn view(&self) -> JobView {
        JobView {
            kind: self.kind,
            id: self.id@,
            payload: self.payload@,
            updated_at: self.updated_at,
            first_push: self.first_push,
        }
    }
}

/// What applying one pulled row did to the local store.
#[derive(Clone, Copy, Debug, PartialEq, Eq, Structural)]
pub enum PullEffect {
    /// No local row had the key: the remote row was stored, clean.
    Inserted,
    /// A clean local row was older: the remote copy replaced it.
    Overwritten,
    /// A clean local row was as new or newer: nothing changed.
    KeptLocal,
    /// The local row holds an unpushed edit: it was kept, the remote copy dropped.
    ConflictLocalWins,
}

pub open spec fn has_key(r: RowView, kind: EntityKind, id: Seq<char>) -> bool {
    r.kind == kind && r.id == id
}

pub open spec fn in_scope(r: RowView, scope: Option<EntityKind>) -> bool {
    match scope {
        Some(k) => r.kind == k,
        None => true,
    }
}

/// The number of dirty rows within `scope` (every kind when `None`).
pub open spec fn dirty_count(rows: Seq<RowView>, scope: Option<EntityKind>) -> nat
    decreases rows.len(),
{
    if rows.len() == 0 {
        0
    } else {
        dirty_count(rows.drop_last(), scope) + if rows.last().is_dirty && in_scope(
            rows.last(),
            scope,
        ) {
            1nat
        } else {
            0nat
        }
    }
}

pub open spec fn job_of(r: RowView) -> JobView {
    JobView {
        kind: r.kind,
        id: r.id,
        payload: r.payload,
        updated_at: r.updated_at,
        first_push: r.synced_at is None,
    }
}

/// The upload jobs for the dirty rows of `kind`, in store order.
pub open spec fn dirty_jobs(rows: Seq<RowView>, kind: EntityKind) -> Seq<JobView>
    decreases rows.len(),
{
    if rows.len() == 0 {
        Seq::empty()
    } else {
        let prev = dirty_jobs(rows.drop_last(), kind);
        if rows.last().is_dirty && rows.last().kind == kind {
            prev.push(job_of(rows.last()))
        } else {
            prev
        }
    }
}

/// A row after a local create or edit with `payload` at time `now`.
pub open spec fn edited(r: RowView, payload: Seq<u8>, now: u64) -> RowView {
    RowView {
        kind: r.kind,
        id: r.id,
        payload: payload,
        created_at: r.created_at,
        updated_at: now,
        synced_at: r.synced_at,
        is_dirty: true,
    }
}

/// A row created locally, never synced.
pub open spec fn created(kind: EntityKind, id: Seq<char>, payload: Seq<u8>, now: u64) -> RowView {
    RowView {
        kind: kind,
        id: id,
        payload: payload,
        created_at: now,
        updated_at: now,
        synced_at: None,
        is_dirty: true,
    }
}

/// A row after `marked_dirty` at time `now`.
pub open spec fn touched(r: RowView, now: u64) -> RowView {
    RowView { updated_at: now, is_dirty: true, ..r }
}

/// A row after the service accepted `pushed` at time `ts`: it stays dirty
/// exactly when it was edited again after the upload was captured.
pub open spec fn acknowledged(r: RowView, pushed: Seq<u8>, ts: u64) -> RowView {
    RowView { synced_at: Some(ts), is_dirty: r.payload != pushed, ..r }
}

/// The conflict policy: an unpushed local edit always wins; a clean local
/// row yields only to a strictly newer remote copy.
pub open spec fn pull_effect(local: Option<RowView>, remote_updated_at: u64) -> PullEffect {
    match local {
        None => PullEffect::Inserted,
        Some(l) => if l.is_dirty {
            PullEffect::ConflictLocalWins
        } else if l.updated_at < remote_updated_at {
            PullEffect::Overwritten
        } else {
            PullEffect::KeptLocal
        },
    }
}

/// A remote row stored for the first time, clean, at time `pulled_at`.
pub open spec fn inserted(remote: RemoteRow, pulled_at: u64) -> RowView {
    RowView {
        kind: remote.kind,
        id: remote.id@,
        payload: remote.payload@,
        created_at: remote.created_at,
        updated_at: remote.updated_at,
        synced_at: Some(pulled_at),
        is_dirty: false,
    }
}

/// A clean local row replaced by the remote copy at time `pulled_at`.
pub open spec fn overwritten(r: RowView, remote: RemoteRow, pulled_at: u64) -> RowView {
    RowView {
        payload: remote.payload@,
        updated_at: remote.updated_at,
        synced_at: Some(pulled_at),
        is_dirty: false,
        ..r
    }
}

/// How the store moves when the service accepts `job` at time `ts`;
/// `cleared` tells whether the row came out clean.
pub open spec fn push_acknowledged(
    before: Seq<RowView>,
    copies_before: Map<(EntityKind, Seq<char>), Seq<u8>>,
    after: Seq<RowView>,
    copies_after: Map<(EntityKind, Seq<char>), Seq<u8>>,
    job: JobView,
    ts: u64,
    cleared: bool,
) -> bool {
    &&& (forall|i: int| 0 <= i < before.len() ==> !has_key(before[i], job.kind, job.id)) ==> {
        &&& !cleared
        &&& after == before
        &&& copies_after == copies_before
    }
    &&& forall|i: int|
        0 <= i < before.len() && has_key(before[i], job.kind, job.id) ==> {
            &&& after == before.update(i, acknowledged(before[i], job.payload, ts))
            &&& cleared == (before[i].payload == job.payload)
            &&& copies_after == copies_before.insert((job.kind, job.id), job.payload)
        }
}

/// How the store moves when `remote` is pulled at time `pulled_at` with
/// effect `e`.
pub open spec fn pull_applied(
    before: Seq<RowView>,
    copies_before: Map<(EntityKind, Seq<char>), Seq<u8>>,
    after: Seq<RowView>,
    copies_after: Map<(EntityKind, Seq<char>), Seq<u8>>,
    remote: RemoteRow,
    pulled_at: u64,
    e: PullEffect,
) -> bool {
    &&& (forall|i: int| 0 <= i < before.len() ==> !has_key(before[i], remote.kind, remote.id@))
        ==> {
        &&& e == PullEffect::Inserted
        &&& after == before.push(inserted(remote, pulled_at))
        &&& copies_after == copies_before.insert((remote.kind, remote.id@), remote.payload@)
    }
    &&& forall|i: int|
        0 <= i < before.len() && has_key(before[i], remote.kind, remote.id@) ==> {
            &&& e == pull_effect(Some(before[i]), remote.updated_at)
            &&& e == PullEffect::Overwritten ==> after == before.update(
                i,
                overwritten(before[i], remote, pulled_at),
            ) && copies_after == copies_before.insert(
                (remote.kind, remote.id@),
                remote.payload@,
            )
            &&& e != PullEffect::Overwritten ==> after == before && copies_after == copies_before
        }
}

/// No two rows share a kind and an id.
pub open spec fn keys_unique(rows: Seq<RowView>) -> bool {
    forall|i: int, j: int|
        #![trigger rows[i], rows[j]]
        0 <= i < j < rows.len() ==> !has_key(rows[i], rows[j].kind, rows[j].id)
}

/// The positions that hold a dirty row within `scope`.
pub open spec fn dirty_positions(rows: Seq<RowView>, scope: Option<EntityKind>) -> Set<int> {
    Set::new(|i: int| 0 <= i < rows.len() && rows[i].is_dirty && in_scope(rows[i], scope))
}

/// A clean row agrees with the last copy exchanged with the service.
pub open spec fn clean_matches(r: RowView, copies: Map<(EntityKind, Seq<char>), Seq<u8>>) -> bool {
    &&& r.synced_at is Some
    &&& copies.contains_key((r.kind, r.id))
    &&& copies[(r.kind, r.id)] == r.payload
}

/// The local store: one row per key, with, as ghost state, the last payload
/// of each key that was pushed to or pulled from the service.
pub struct LocalStore {
    rows: Vec<Row>,
    confirmed: Ghost<Map<(EntityKind, Seq<char>), Seq<u8>>>,
}

impl View for LocalStore {
    type V = Seq<RowView>;

    closed spec fn view(&self) -> Seq<RowView> {
        self.rows@.map_values(|r: Row| r@)
    }
}

fn bytes_equal(a: &Vec<u8>, b: &Vec<u8>) -> (r: bool)
    ensures
        r == (a@ == b@),
{
    if a.len() != b.len() {
        return false;
    }
    let mut i: usize = 0;
    while i < a.len()
        invariant
            a@.len() == b@.len(),
            i <= a@.len(),
            forall|j: int| 0 <= j < i ==> a@[j] == b@[j],
        decreases a@.len() - i,
    {
        if a[i] != b[i] {
            return false;
        }
        i += 1;
    }
    assert(a@ =~= b@);
    true
}

fn copy_bytes(a: &Vec<u8>) -> (r: Vec<u8>)
    ensures
        r@ == a@,
{
    let mut r: Vec<u8> = Vec::new();
    let mut i: usize = 0;
    while i < a.len()
        invariant
            i <= a@.len(),
            r@ == a@.subrange(0, i as int),
        decreases a@.len() - i,
    {
        r.push(a[i]);
        i += 1;
        assert(r@ =~= a@.subrange(0, i as int));
    }
    assert(a@ =~= a@.subrange(0, a@.len() as int));
    r
}

impl LocalStore {
    /// The last payload of each key exchanged with the service.
    pub closed spec fn server_copies(&self) -> Map<(EntityKind, Seq<char>), Seq<u8>> {
        self.confirmed@
    }

    /// Keys are unique, and every clean row equals its last exchanged copy.
    pub closed spec fn wf(&self) -> bool {
        &&& keys_unique(self@)
        &&& forall|i: int|
            0 <= i < self@.len() && !(#[trigger] self@[i]).is_dirty ==> clean_matches(
                self@[i],
                self.confirmed@,
            )
    }

    /// An empty store.
    pub fn new() -> (s: LocalStore)
        ensures
            s.wf(),
            s@ == Seq::<RowView>::empty(),
            s.server_copies() == Map::<(EntityKind, Seq<char>), Seq<u8>>::empty(),
    {
        let s = LocalStore { rows: Vec::new(), confirmed: Ghost(Map::empty()) };
        assert(s@ =~= Seq::<RowView>::empty());
        s
    }

    pub fn len(&self) -> (n: usize)
        ensures
            n == self@.len(),
    {
        self.rows.len()
    }

    pub fn row(&self, i: usize) -> (r: &Row)
        requires
            i < self@.len(),
        ensures
            r@ == self@[i as int],
    {
        &self.rows[i]
    }

    /// The position of the row with this key, if there is one.
    pub fn find(&self, kind: EntityKind, id: &String) -> (r: Option<usize>)
        ensures
            match r {
                Some(i) => i < self@.len() && has_key(self@[i as int], kind, id@),
                None => forall|i: int| 0 <= i < self@.len() ==> !has_key(self@[i], kind, id@),
            },
    {
        let mut i: usize = 0;
        while i < self.rows.len()
            invariant
                i <= self@.len(),
                self@.len() == self.rows@.len(),
                forall|j: int| 0 <= j < i ==> !has_key(self@[j], kind, id@),
            decreases self@.len() - i,
        {
            if self.rows[i].kind == kind && self.rows[i].id == *id {
                return Some(i);
            }
            i += 1;
        }
        None
    }

    /// Records a local create or edit, in one step with its dirty flag: an
    /// existing row takes the new payload, a new key becomes a never-synced row.
    pub fn write_local(&mut self, kind: EntityKind, id: String, payload: Vec<u8>, now: u64)
        requires
            old(self).wf(),
        ensures
            final(self).wf(),
            final(self).server_copies() == old(self).server_copies(),
            forall|i: int|
                0 <= i < old(self)@.len() && has_key(old(self)@[i], kind, id@) ==> final(self)@
                    == old(self)@.update(i, edited(old(self)@[i], payload@, now)),
            (forall|i: int| 0 <= i < old(self)@.len() ==> !has_key(old(self)@[i], kind, id@))
                ==> final(self)@ == old(self)@.push(created(kind, id@, payload@, now)),
    {
        let ghost p = payload@;
        let ghost key = id@;
        match self.find(kind, &id) {
            Some(i) => {
                let mut row = self.rows.remove(i);
                row.payload = payload;
                row.updated_at = now;
                row.is_dirty = true;
                self.rows.insert(i, row);
                assert(self@ =~= old(self)@.update(i as int, edited(old(self)@[i as int], p, now)));
            },
            None => {
                self.rows.push(
                    Row {
                        kind,
                        id,
                        payload,
                        created_at: now,
                        updated_at: now,
                        synced_at: None,
                        is_dirty: true,
                    },
                );
                assert(self@ =~= old(self)@.push(created(kind, key, p, now)));
            },
        }
    }

    /// Marks the row with this key dirty at time `now`; false when there is
    /// no such row. Marking a dirty row again only refreshes its timestamp.
    pub fn mark_dirty(&mut self, kind: EntityKind, id: &String, now: u64) -> (found: bool)
        requires
            old(self).wf(),
        ensures
            final(self).wf(),
            final(self).server_copies() == old(self).server_copies(),
            found == exists|i: int| 0 <= i < old(self)@.len() && has_key(old(self)@[i], kind, id@),
            forall|i: int|
                0 <= i < old(self)@.len() && has_key(old(self)@[i], kind, id@) ==> final(self)@
                    == old(self)@.update(i, touched(old(self)@[i], now)),
            !found ==> final(self)@ == old(self)@,
    {
        match self.find(kind, id) {
            Some(i) => {
                let mut row = self.rows.remove(i);
                row.updated_at = now;
                row.is_dirty = true;
                self.rows.insert(i, row);
                assert(self@ =~= old(self)@.update(i as int, touched(old(self)@[i as int], now)));
                true
            },
            None => false,
        }
    }

    /// The number of dirty rows within `scope`, counted on the live rows.
    pub fn pending_count(&self, scope: Option<EntityKind>) -> (n: usize)
        ensures
            n == dirty_count(self@, scope),
    {
        let mut n: usize = 0;
        let mut i: usize = 0;
        while i < self.rows.len()
            invariant
                i <= self@.len(),
                self@.len() == self.rows@.len(),
                n <= i,
                n == dirty_count(self@.subrange(0, i as int), scope),
            decreases self@.len() - i,
        {
            assert(self@.subrange(0, i + 1).drop_last() =~= self@.subrange(0, i as int));
            let hit = self.rows[i].is_dirty && match scope {
                Some(k) => self.rows[i].kind == k,
                None => true,
            };
            if hit {
                n += 1;
            }
            i += 1;
        }
        assert(self@.subrange(0, self@.len() as int) =~= self@);
        n
    }

    /// Upload jobs for the dirty rows of `kind`, in store order.
    pub fn dirty_snapshot(&self, kind: EntityKind) -> (jobs: Vec<PushJob>)
        ensures
            jobs@.map_values(|j: PushJob| j@) == dirty_jobs(self@, kind),
    {
        let mut jobs: Vec<PushJob> = Vec::new();
        let mut i: usize = 0;
        while i < self.rows.len()
            invariant
                i <= self@.len(),
                self@.len() == self.rows@.len(),
                jobs@.map_values(|j: PushJob| j@) == dirty_jobs(self@.subrange(0, i as int), kind),
            decreases self@.len() - i,
        {
            assert(self@.subrange(0, i + 1).drop_last() =~= self@.subrange(0, i as int));
            let row = &self.rows[i];
            if row.is_dirty && row.kind == kind {
                let job = PushJob {
                    kind: row.kind,
                    id: row.id.clone(),
                    payload: copy_bytes(&row.payload),
                    updated_at: row.updated_at,
                    first_push: row.synced_at.is_none(),
                };
                let ghost before = jobs@.map_values(|j: PushJob| j@);
                jobs.push(job);
                assert(jobs@.map_values(|j: PushJob| j@) =~= before.push(job_of(self@[i as int])));
            }
            i += 1;
        }
        assert(self@.subrange(0, self@.len() as int) =~= self@);
        jobs
    }

    /// Applies the service's acceptance of `job` at time `ts`. The row is
    /// cleared only when it still holds the payload that was uploaded, so an
    /// edit made while the upload was in flight stays dirty. Returns whether
    /// the row was cleared.
    pub(crate) fn acknowledge_push(&mut self, job: &PushJob, ts: u64) -> (cleared: bool)
        requires
            old(self).wf(),
        ensures
            final(self).wf(),
            push_acknowledged(
                old(self)@,
                old(self).server_copies(),
                final(self)@,
                final(self).server_copies(),
                job@,
                ts,
                cleared,
            ),
    {
        match self.find(job.kind, &job.id) {
            Some(i) => {
                let mut row = self.rows.remove(i);
                let same = bytes_equal(&row.payload, &job.payload);
                row.synced_at = Some(ts);
                row.is_dirty = !same;
                self.rows.insert(i, row);
                self.confirmed = Ghost(self.confirmed@.insert((job.kind, job.id@), job.payload@));
                assert(self@ =~= old(self)@.update(
                    i as int,
                    acknowledged(old(self)@[i as int], job.payload@, ts),
                ));
                same
            },
            None => false,
        }
    }

    /// Applies one pulled row under the conflict policy of `pull_effect`.
    pub(crate) fn apply_remote(&mut self, remote: RemoteRow, pulled_at: u64) -> (e: PullEffect)
        requires
            old(self).wf(),
        ensures
            final(self).wf(),
            pull_applied(
                old(self)@,
                old(self).server_copies(),
                final(self)@,
                final(self).server_copies(),
                remote,
                pulled_at,
                e,
            ),
    {
        let ghost r0 = remote;
        match self.find(remote.kind, &remote.id) {
            Some(i) => {
                if self.rows[i].is_dirty {
                    PullEffect::ConflictLocalWins
                } else if self.rows[i].updated_at < remote.updated_at {
                    let mut row = self.rows.remove(i);
                    row.payload = remote.payload;
                    row.updated_at = remote.updated_at;
                    row.synced_at = Some(pulled_at);
                    row.is_dirty = false;
                    self.rows.insert(i, row);
                    self.confirmed = Ghost(
                        self.confirmed@.insert((r0.kind, r0.id@), r0.payload@),
                    );
                    assert(self@ =~= old(self)@.update(
                        i as int,
                        overwritten(old(self)@[i as int], r0, pulled_at),
                    ));
                    PullEffect::Overwritten
                } else {
                    PullEffect::KeptLocal
                }
            },
            None => {
                self.rows.push(
                    Row {
                        kind: remote.kind,
                        id: remote.id,
                        payload: remote.payload,
                        created_at: remote.created_at,
                        updated_at: remote.updated_at,
                        synced_at: Some(pulled_at),
                        is_dirty: false,
                    },
                );
                self.confirmed = Ghost(self.confirmed@.insert((r0.kind, r0.id@), r0.payload@));
                assert(self@ =~= old(self)@.push(inserted(r0, pulled_at)));
                PullEffect::Inserted
            },
        }
    }
}

/// Every clean row has been synced and holds exactly the payload last pushed
/// to or pulled from the service for its key.
pub proof fn lemma_clean_rows_match_server(s: &LocalStore, i: int)
    requires
        s.wf(),
        0 <= i < s@.len(),
        !s@[i].is_dirty,
    ensures
        s@[i].synced_at is Some,
        s.server_copies().contains_key((s@[i].kind, s@[i].id)),
        s.server_copies()[(s@[i].kind, s@[i].id)] == s@[i].payload,
{
}

/// The pending count is the number of rows that are dirty within the scope.
pub proof fn lemma_pending_count_is_cardinality(rows: Seq<RowView>, scope: Option<EntityKind>)
    ensures
        dirty_positions(rows, scope).finite(),
        dirty_count(rows, scope) == dirty_positions(rows, scope).len(),
    decreases rows.len(),
{
    if rows.len() == 0 {
        assert(dirty_positions(rows, scope) =~= Set::<int>::empty());
    } else {
        let prev = rows.drop_last();
        let n = rows.len() - 1;
        lemma_pending_count_is_cardinality(prev, scope);
        if rows.last().is_dirty && in_scope(rows.last(), scope) {
            assert(dirty_positions(rows, scope) =~= dirty_positions(prev, scope).insert(n));
        } else {
            assert(dirty_positions(rows, scope) =~= dirty_positions(prev, scope));
        }
    }
}

/// A snapshot of one kind holds one job per dirty row of that kind, so a
/// store with nothing pending has nothing to upload.
pub proof fn lemma_snapshot_matches_pending(rows: Seq<RowView>, kind: EntityKind)
    ensures
        dirty_jobs(rows, kind).len() == dirty_count(rows, Some(kind)),
        dirty_count(rows, Some(kind)) <= dirty_count(rows, None),
    decreases rows.len(),
{
    if rows.len() > 0 {
        lemma_snapshot_matches_pending(rows.drop_last(), kind);
    }
}

/// The conflict policy is a function of the two timestamps and the dirty
/// flag: a local copy at least as new as the remote one always stays, and a
/// clean local copy older than the remote one is always replaced.
pub proof fn lemma_conflict_policy(local: RowView, remote_updated_at: u64)
    ensures
        local.updated_at >= remote_updated_at ==> pull_effect(Some(local), remote_updated_at)
            == PullEffect::KeptLocal || pull_effect(Some(local), remote_updated_at)
            == PullEffect::ConflictLocalWins,
        local.updated_at < remote_updated_at && !local.is_dirty ==> pull_effect(
            Some(local),
            remote_updated_at,
        ) == PullEffect::Overwritten,
        local.is_dirty ==> pull_effect(Some(local), remote_updated_at)
            == PullEffect::ConflictLocalWins,
{
}

/// Pulling the same remote row a second time, when the local row was clean
/// or absent before the first pull, changes nothing and records no conflict.
pub proof fn lemma_repeat_pull_is_noop(
    before: Seq<RowView>,
    copies_before: Map<(EntityKind, Seq<char>), Seq<u8>>,
    mid: Seq<RowView>,
    copies_mid: Map<(EntityKind, Seq<char>), Seq<u8>>,
    after: Seq<RowView>,
    copies_after: Map<(EntityKind, Seq<char>), Seq<u8>>,
    remote: RemoteRow,
    first_at: u64,
    second_at: u64,
    first: PullEffect,
    second: PullEffect,
)
    requires
        keys_unique(before),
        forall|i: int|
            0 <= i < before.len() && has_key(before[i], remote.kind, remote.id@)
                ==> !before[i].is_dirty,
        pull_applied(before, copies_before, mid, copies_mid, remote, first_at, first),
        pull_applied(mid, copies_mid, after, copies_after, remote, second_at, second),
    ensures
        second == PullEffect::KeptLocal,
        after == mid,
        copies_after == copies_mid,
{
    if exists|i: int| 0 <= i < before.len() && has_key(before[i], remote.kind, remote.id@) {
        let i = choose|i: int| 0 <= i < before.len() && has_key(before[i], remote.kind, remote.id@);
        assert(has_key(mid[i], remote.kind, remote.id@));
    } else {
        let n = before.len() as int;
        assert(mid[n] == inserted(remote, first_at));
        assert(has_key(mid[n], remote.kind, remote.id@));
    }
}

} // verus!
