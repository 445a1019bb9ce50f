//! Offline-first change tracking: change records, the bounded pending-change
//! queue, conflicts and their resolution policy, sync sessions and the
//! provider contract that a remote store implements.

use vstd::prelude::*;
use vstd::string::*;

use crate::base::{json_null, new_id, now, Id, Timestamp};

verus! {

/// How the store synchronizes with a remote.
#[derive(Clone, Copy, Debug, PartialEq, Eq, Structural)]
pub enum SyncMode {
    /// Fully offline: no remote at all.
    Offline,
    /// Online, synchronizing automatically.
    OnlineAuto,
    /// Online, synchronizing only on request.
    OnlineManual,
    /// Local first, synchronizing periodically.
    Hybrid,
}

impl Default for SyncMode {
    fn default() -> (r: Self)
        ensures
            r == SyncMode::Offline,
    {
        SyncMode::Offline
    }
}

/// How a conflict between a local and a remote edit is settled.
#[derive(Clone, Copy, Debug, PartialEq, Eq, Structural)]
pub enum ConflictStrategy {
    /// The local version overwrites the remote one.
    LocalWins,
    /// The remote version overwrites the local one.
    RemoteWins,
    /// The later edit wins; equal times favour the local side.
    LastWriteWins,
    /// Nothing is settled automatically.
    Manual,
}

/// The kinds of item that are synchronized.
#[derive(Clone, Copy, Debug, PartialEq, Eq, Structural)]
pub enum SyncItemType {
    Collection,
    Folder,
    Request,
    Environment,
}

impl SyncItemType {
    pub fn as_str(&self) -> (r: &'static str)
        ensures
            r@ == match *self {
                SyncItemType::Collection => "collection"@,
                SyncItemType::Folder => "folder"@,
                SyncItemType::Request => "request"@,
                SyncItemType::Environment => "environment"@,
            },
    {
        match self {
            SyncItemType::Collection => "collection",
            SyncItemType::Folder => "folder",
            SyncItemType::Request => "request",
            SyncItemType::Environment => "environment",
        }
    }
}

/// What a change record does to its item.
#[derive(Clone, Copy, Debug, PartialEq, Eq, Structural)]
pub enum SyncOperation {
    Create,
    Update,
    Delete,
}

impl SyncOperation {
    pub fn as_str(&self) -> (r: &'static str)
        ensures
            r@ == match *self {
                SyncOperation::Create => "create"@,
                SyncOperation::Update => "update"@,
                SyncOperation::Delete => "delete"@,
            },
    {
        match self {
            SyncOperation::Create => "create",
            SyncOperation::Update => "update",
            SyncOperation::Delete => "delete",
        }
    }
}

/// One create, update or delete of one item, waiting to be sent to the remote.
#[derive(Debug, PartialEq, Eq)]
pub struct SyncChange {
    pub change_id: Id,
    pub item_type: SyncItemType,
    pub item_id: Id,
    pub operation: SyncOperation,
    /// Per-item version: 1 on create, growing with each later change.
    pub version: i64,
    /// Snapshot of the item; `null` for a delete.
    pub data: serde_json::Value,
    pub timestamp: Timestamp,
    /// Set once the remote has acknowledged the change.
    pub synced: bool,
}

impl Clone for SyncChange {
    fn clone(&self) -> (r: Self)
        ensures
            r == *self,
    {
        SyncChange {
            change_id: self.change_id,
            item_type: self.item_type,
            item_id: self.item_id,
            operation: self.operation,
            version: self.version,
            data: self.data.clone(),
            timestamp: self.timestamp,
            synced: self.synced,
        }
    }
}

impl SyncChange {
    pub fn create(item_type: SyncItemType, item_id: Id, data: serde_json::Value) -> (r: Self)
        ensures
            r.item_type == item_type,
            r.item_id == item_id,
            r.operation == SyncOperation::Create,
            r.version == 1,
            r.data == data,
            !r.synced,
    {
        SyncChange {
            change_id: new_id(),
            item_type,
            item_id,
            operation: SyncOperation::Create,
            version: 1,
            data,
            timestamp: now(),
            synced: false,
        }
    }

    pub fn update(
        item_type: SyncItemType,
        item_id: Id,
        version: i64,
        data: serde_json::Value,
    ) -> (r: Self)
        ensures
            r.item_type == item_type,
            r.item_id == item_id,
            r.operation == SyncOperation::Update,
            r.version == version,
            r.data == data,
            !r.synced,
    {
        SyncChange {
            change_id: new_id(),
            item_type,
            item_id,
            operation: SyncOperation::Update,
            version,
            data,
            timestamp: now(),
            synced: false,
        }
    }

    /// A delete record; its snapshot is JSON `null`.
    pub fn delete(item_type: SyncItemType, item_id: Id, version: i64) -> (r: Self)
        ensures
            r.item_type == item_type,
            r.item_id == item_id,
            r.operation == SyncOperation::Delete,
            r.version == version,
            !r.synced,
    {
        SyncChange {
            change_id: new_id(),
            item_type,
            item_id,
            operation: SyncOperation::Delete,
            version,
            data: json_null(),
            timestamp: now(),
            synced: false,
        }
    }

    pub fn mark_synced(&mut self)
        ensures
            *final(self) == (SyncChange { synced: true, ..*old(self) }),
    {
        self.synced = true;
    }
}

/// Two records are about the same item when their item id and item type agree.
pub open spec fn same_item(a: SyncChange, b: SyncChange) -> bool {
    a.item_id == b.item_id && a.item_type == b.item_type
}

/// The records of `s` that are not about the item of `c`, in their order.
pub open spec fn other_items(s: Seq<SyncChange>, c: SyncChange) -> Seq<SyncChange>
    decreases s.len(),
{
    if s.len() == 0 {
        s
    } else if same_item(s.last(), c) {
        other_items(s.drop_last(), c)
    } else {
        other_items(s.drop_last(), c).push(s.last())
    }
}

/// The records of `s` that are about the item of `c`, in their order.
pub open spec fn records_for(s: Seq<SyncChange>, c: SyncChange) -> Seq<SyncChange>
    decreases s.len(),
{
    if s.len() == 0 {
        s
    } else if same_item(s.last(), c) {
        records_for(s.drop_last(), c).push(s.last())
    } else {
        records_for(s.drop_last(), c)
    }
}

/// The records of `s` not yet acknowledged, in their order.
pub open spec fn unsynced(s: Seq<SyncChange>) -> Seq<SyncChange>
    decreases s.len(),
{
    if s.len() == 0 {
        s
    } else if s.last().synced {
        unsynced(s.drop_last())
    } else {
        unsynced(s.drop_last()).push(s.last())
    }
}

/// How many records of `s` are acknowledged.
pub open spec fn synced_count(s: Seq<SyncChange>) -> nat
    decreases s.len(),
{
    if s.len() == 0 {
        0
    } else if s.last().synced {
        synced_count(s.drop_last()) + 1
    } else {
        synced_count(s.drop_last())
    }
}

/// The records of `s` about items of type `t`, in their order.
pub open spec fn of_type(s: Seq<SyncChange>, t: SyncItemType) -> Seq<SyncChange>
    decreases s.len(),
{
    if s.len() == 0 {
        s
    } else if s.last().item_type == t {
        of_type(s.drop_last(), t).push(s.last())
    } else {
        of_type(s.drop_last(), t)
    }
}

/// No two records of `s` are about the same item.
pub open spec fn distinct_items(s: Seq<SyncChange>) -> bool {
    forall|i: int, j: int| 0 <= i < j < s.len() ==> !same_item(#[trigger] s[i], #[trigger] s[j])
}

/// Whether a queue holding `s`, with room for `capacity` records, takes `c`:
/// once the record it supersedes is set aside, there must be room for it.
pub open spec fn enqueue_accepts(s: Seq<SyncChange>, capacity: nat, c: SyncChange) -> bool {
    other_items(s, c).len() < capacity
}

/// The queue's records after enqueueing `c`: the superseded record of the same
/// item leaves and `c` comes last; if `c` does not fit, nothing changes.
pub open spec fn enqueue_model(s: Seq<SyncChange>, capacity: nat, c: SyncChange) -> Seq<
    SyncChange,
> {
    if enqueue_accepts(s, capacity, c) {
        other_items(s, c).push(c)
    } else {
        s
    }
}

/// What a drain does: it hands out `before`'s records in order and leaves
/// `after` empty, with the same capacity.
pub open spec fn drain_post(
    before: PendingChanges,
    after: PendingChanges,
    out: Seq<SyncChange>,
) -> bool {
    &&& out == before.changes@
    &&& after.changes@.len() == 0
    &&& after.max_size == before.max_size
}

/// The queue after enqueueing each change of `cs` in turn.
pub open spec fn enqueue_all(s: Seq<SyncChange>, capacity: nat, cs: Seq<SyncChange>) -> Seq<
    SyncChange,
>
    decreases cs.len(),
{
    if cs.len() == 0 {
        s
    } else {
        enqueue_model(enqueue_all(s, capacity, cs.drop_last()), capacity, cs.last())
    }
}

/// The last change of `cs` that the queue accepted, if any, when each is
/// enqueued in turn.
pub open spec fn last_accepted(s: Seq<SyncChange>, capacity: nat, cs: Seq<SyncChange>) -> Option<
    SyncChange,
>
    decreases cs.len(),
{
    if cs.len() == 0 {
        None
    } else if enqueue_accepts(enqueue_all(s, capacity, cs.drop_last()), capacity, cs.last()) {
        Some(cs.last())
    } else {
        last_accepted(s, capacity, cs.drop_last())
    }
}

/// Synchronization settings of one store.
#[derive(Clone, Debug, PartialEq, Eq)]
pub struct SyncConfig {
    pub mode: SyncMode,
    /// Remote server, for the online modes.
    pub server_url: Option<String>,
    /// Credential for the remote.
    pub api_key: Option<String>,
    /// Unique per installation.
    pub device_id: Id,
    /// When the last session succeeded.
    pub last_sync: Option<Timestamp>,
    /// Seconds between automatic syncs; 0 disables them.
    pub auto_sync_interval: u64,
    pub conflict_strategy: ConflictStrategy,
}

/// The offline settings a store starts with (any device id).
pub open spec fn is_offline_default(c: SyncConfig) -> bool {
    &&& c.mode == SyncMode::Offline
    &&& c.server_url is None
    &&& c.api_key is None
    &&& c.last_sync is None
    &&& c.auto_sync_interval == 0
    &&& c.conflict_strategy == ConflictStrategy::LastWriteWins
}

impl Default for SyncConfig {
    fn default() -> (r: Self)
        ensures
            is_offline_default(r),
    {
        SyncConfig {
            mode: SyncMode::Offline,
            server_url: None,
            api_key: None,
            device_id: new_id(),
            last_sync: None,
            auto_sync_interval: 0,
            conflict_strategy: ConflictStrategy::LastWriteWins,
        }
    }
}

impl SyncConfig {
    /// Whether the mode lets the store talk to a remote.
    pub open spec fn online_capable(&self) -> bool {
        self.mode != SyncMode::Offline
    }

    pub fn offline() -> (r: Self)
        ensures
            is_offline_default(r),
    {
        Self::default()
    }

    /// Settings for automatic sync with `server_url`, every five minutes.
    pub fn online(server_url: String, api_key: String) -> (r: Self)
        ensures
            r.mode == SyncMode::OnlineAuto,
            r.server_url == Some(server_url),
            r.api_key == Some(api_key),
            r.last_sync is None,
            r.auto_sync_interval == 300,
            r.conflict_strategy == ConflictStrategy::LastWriteWins,
    {
        SyncConfig {
            mode: SyncMode::OnlineAuto,
            server_url: Some(server_url),
            api_key: Some(api_key),
            device_id: new_id(),
            last_sync: None,
            auto_sync_interval: 300,
            conflict_strategy: ConflictStrategy::LastWriteWins,
        }
    }

    pub fn is_online(&self) -> (r: bool)
        ensures
            r == self.online_capable(),
    {
        self.mode != SyncMode::Offline
    }

    /// Auto-sync runs only in an online mode with a positive interval.
    pub fn auto_sync_enabled(&self) -> (r: bool)
        ensures
            r == (self.online_capable() && self.auto_sync_interval > 0),
    {
        self.is_online() && self.auto_sync_interval > 0
    }

    /// Whether a remote can be used: an online mode, a server and a credential.
    ///
    /// Fails with `NotConfigured` otherwise.
    pub fn ensure_configured(&self) -> (r: Result<(), SyncError>)
        ensures
            r is Ok <==> (self.online_capable() && self.server_url is Some
                && self.api_key is Some),
            r is Err ==> r == Err::<(), SyncError>(SyncError::NotConfigured),
    {
        if self.mode == SyncMode::Offline || self.server_url.is_none() || self.api_key.is_none() {
            Err(SyncError::NotConfigured)
        } else {
            Ok(())
        }
    }

    /// Whether a periodic trigger at time `now` should start a session:
    /// auto-sync must be enabled, no session may be running (a trigger is
    /// skipped then, not queued), and the interval must have passed since
    /// the last attempt, if any.
    pub fn auto_sync_due(&self, session_active: bool, now: Timestamp, last_attempt: Option<
        Timestamp,
    >) -> (r: bool)
        ensures
            r == (self.online_capable() && self.auto_sync_interval > 0 && !session_active
                && match last_attempt {
                None => true,
                Some(t) => now - t >= self.auto_sync_interval * 1000,
            }),
    {
        if !self.auto_sync_enabled() || session_active {
            return false;
        }
        match last_attempt {
            None => true,
            Some(t) => {
                let elapsed: i128 = now as i128 - t as i128;
                elapsed >= self.auto_sync_interval as i128 * 1000
            },
        }
    }

    /// Records that a session has just succeeded.
    pub fn mark_synced(&mut self)
        ensures
            final(self).last_sync is Some,
            *final(self) == (SyncConfig { last_sync: final(self).last_sync, ..*old(self) }),
    {
        self.last_sync = Some(now());
    }

    /// Drops the server and credential and switches to offline mode.
    pub fn go_offline(&mut self)
        ensures
            *final(self) == (SyncConfig {
                mode: SyncMode::Offline,
                server_url: None,
                api_key: None,
                ..*old(self)
            }),
    {
        self.mode = SyncMode::Offline;
        self.server_url = None;
        self.api_key = None;
    }
}

/// A divergence between the local and the remote version of one item.
#[derive(Debug, PartialEq, Eq)]
pub struct ConflictInfo {
    pub conflict_id: Id,
    pub item_type: SyncItemType,
    pub item_id: Id,
    pub item_name: String,
    pub local_version: i64,
    pub remote_version: i64,
    pub local_value: serde_json::Value,
    pub remote_value: serde_json::Value,
    pub created_at: Timestamp,
}

impl Clone for ConflictInfo {
    fn clone(&self) -> (r: Self)
        ensures
            r == *self,
    {
        ConflictInfo {
            conflict_id: self.conflict_id,
            item_type: self.item_type,
            item_id: self.item_id,
            item_name: self.item_name.clone(),
            local_version: self.local_version,
            remote_version: self.remote_version,
            local_value: self.local_value.clone(),
            remote_value: self.remote_value.clone(),
            created_at: self.created_at,
        }
    }
}

impl ConflictInfo {
    /// A conflict is only ever raised for differing versions.
    pub open spec fn is_divergent(&self) -> bool {
        self.local_version != self.remote_version
    }
}

/// Compares the local and remote versions of one item, and describes the
/// conflict when they differ.
///
/// Equal versions never give a conflict.
pub fn detect_conflict(
    item_type: SyncItemType,
    item_id: Id,
    item_name: String,
    local_version: i64,
    remote_version: i64,
    local_value: serde_json::Value,
    remote_value: serde_json::Value,
) -> (r: Option<ConflictInfo>)
    ensures
        r is Some <==> local_version != remote_version,
        r matches Some(c) ==> {
            &&& c.is_divergent()
            &&& c.item_type == item_type
            &&& c.item_id == item_id
            &&& c.item_name == item_name
            &&& c.local_version == local_version
            &&& c.remote_version == remote_version
            &&& c.local_value == local_value
            &&& c.remote_value == remote_value
        },
{
    if local_version == remote_version {
        None
    } else {
        Some(
            ConflictInfo {
                conflict_id: new_id(),
                item_type,
                item_id,
                item_name,
                local_version,
                remote_version,
                local_value,
                remote_value,
                created_at: now(),
            },
        )
    }
}

/// Which side a resolution keeps.
#[derive(Debug, PartialEq, Eq)]
pub enum ConflictChoice {
    Local,
    Remote,
    /// An explicit replacement for both sides.
    Merged { value: serde_json::Value },
}

impl Clone for ConflictChoice {
    fn clone(&self) -> (r: Self)
        ensures
            r == *self,
    {
        match self {
            ConflictChoice::Local => ConflictChoice::Local,
            ConflictChoice::Remote => ConflictChoice::Remote,
            ConflictChoice::Merged { value } => ConflictChoice::Merged { value: value.clone() },
        }
    }
}

/// The settlement of one conflict.
#[derive(Clone, Debug, PartialEq, Eq)]
pub struct ConflictResolution {
    pub conflict_id: Id,
    pub resolution: ConflictChoice,
}

/// What a strategy decides for a conflict whose local edit was made at
/// `local_time` and remote edit at `remote_time`; `None` under `Manual`.
pub open spec fn strategy_choice(
    strategy: ConflictStrategy,
    local_time: Timestamp,
    remote_time: Timestamp,
) -> Option<ConflictChoice> {
    match strategy {
        ConflictStrategy::LocalWins => Some(ConflictChoice::Local),
        ConflictStrategy::RemoteWins => Some(ConflictChoice::Remote),
        ConflictStrategy::LastWriteWins => if remote_time > local_time {
            Some(ConflictChoice::Remote)
        } else {
            Some(ConflictChoice::Local)
        },
        ConflictStrategy::Manual => None,
    }
}

/// The resolution that `strategy` generates for `conflict`, given when each
/// side was last edited; `None` under `Manual`, which leaves it to the user.
pub fn resolution_for(
    strategy: ConflictStrategy,
    conflict: &ConflictInfo,
    local_time: Timestamp,
    remote_time: Timestamp,
) -> (r: Option<ConflictResolution>)
    ensures
        r == match strategy_choice(strategy, local_time, remote_time) {
            Some(choice) => Some(
                ConflictResolution { conflict_id: conflict.conflict_id, resolution: choice },
            ),
            None => None::<ConflictResolution>,
        },
{
    let choice = match strategy {
        ConflictStrategy::LocalWins => ConflictChoice::Local,
        ConflictStrategy::RemoteWins => ConflictChoice::Remote,
        ConflictStrategy::LastWriteWins => if remote_time > local_time {
            ConflictChoice::Remote
        } else {
            ConflictChoice::Local
        },
        ConflictStrategy::Manual => {
            return None;
        },
    };
    Some(ConflictResolution { conflict_id: conflict.conflict_id, resolution: choice })
}

/// The resolutions a strategy generates for a batch of conflicts, the i-th
/// edited locally at `edit_times[i].0` and remotely at `edit_times[i].1`.
pub open spec fn batch_resolutions(
    strategy: ConflictStrategy,
    conflicts: Seq<ConflictInfo>,
    edit_times: Seq<(Timestamp, Timestamp)>,
) -> Seq<ConflictResolution> {
    Seq::new(
        conflicts.len(),
        |i: int|
            ConflictResolution {
                conflict_id: conflicts[i].conflict_id,
                resolution: strategy_choice(strategy, edit_times[i].0, edit_times[i].1)->Some_0,
            },
    )
}

/// The resolutions `strategy` generates for `conflicts`, in order; `None`
/// under `Manual`, and when `edit_times` does not give one pair of edit
/// times (local, remote) per conflict.
pub fn resolutions_for(
    strategy: ConflictStrategy,
    conflicts: &Vec<ConflictInfo>,
    edit_times: &Vec<(Timestamp, Timestamp)>,
) -> (r: Option<Vec<ConflictResolution>>)
    ensures
        r is Some <==> (strategy != ConflictStrategy::Manual && edit_times@.len()
            == conflicts@.len()),
        r matches Some(v) ==> v@ == batch_resolutions(strategy, conflicts@, edit_times@),
{
    if strategy == ConflictStrategy::Manual || edit_times.len() != conflicts.len() {
        return None;
    }
    let mut out: Vec<ConflictResolution> = Vec::new();
    let mut i: usize = 0;
    while i < conflicts.len()
        invariant
            i <= conflicts@.len(),
            edit_times@.len() == conflicts@.len(),
            strategy != ConflictStrategy::Manual,
            out@ == batch_resolutions(strategy, conflicts@, edit_times@).take(i as int),
        decreases conflicts@.len() - i,
    {
        let (local_time, remote_time) = edit_times[i];
        let res = resolution_for(strategy, &conflicts[i], local_time, remote_time);
        match res {
            Some(x) => {
                out.push(x);
            },
            None => {},
        }
        i = i + 1;
        assert(out@ =~= batch_resolutions(strategy, conflicts@, edit_times@).take(i as int));
    }
    let ghost all = batch_resolutions(strategy, conflicts@, edit_times@);
    assert(all.take(i as int) =~= all);
    Some(out)
}

/// No two conflicts share an id.
pub open spec fn distinct_conflict_ids(conflicts: Seq<ConflictInfo>) -> bool {
    forall|i: int, j: int|
        0 <= i < j < conflicts.len() ==> conflicts[i].conflict_id != conflicts[j].conflict_id
}

/// Under last write wins, the batch generated for conflicts with distinct ids
/// holds exactly one resolution per conflict, and it keeps the side edited
/// later, the local one when the times are equal.
pub proof fn law_last_write_wins_batch(
    conflicts: Seq<ConflictInfo>,
    edit_times: Seq<(Timestamp, Timestamp)>,
)
    requires
        edit_times.len() == conflicts.len(),
        distinct_conflict_ids(conflicts),
    ensures
        ({
            let b = batch_resolutions(ConflictStrategy::LastWriteWins, conflicts, edit_times);
            &&& b.len() == conflicts.len()
            &&& forall|i: int, j: int|
                0 <= i < conflicts.len() && 0 <= j < b.len() ==> (#[trigger] b[j].conflict_id
                    == #[trigger] conflicts[i].conflict_id <==> j == i)
            &&& forall|i: int|
                0 <= i < conflicts.len() ==> #[trigger] b[i].resolution == if edit_times[i].1
                    > edit_times[i].0 {
                    ConflictChoice::Remote
                } else {
                    ConflictChoice::Local
                }
        }),
{
    let b = batch_resolutions(ConflictStrategy::LastWriteWins, conflicts, edit_times);
    assert forall|i: int, j: int|
        0 <= i < conflicts.len() && 0 <= j < b.len() implies (#[trigger] b[j].conflict_id
        == #[trigger] conflicts[i].conflict_id <==> j == i) by {
        assert(b[j].conflict_id == conflicts[j].conflict_id);
        if j < i {
            assert(conflicts[j].conflict_id != conflicts[i].conflict_id);
        } else if i < j {
            assert(conflicts[i].conflict_id != conflicts[j].conflict_id);
        }
    }
}

/// Last write wins: the side edited later is kept, and equal times keep the
/// local side.
pub proof fn law_last_write_wins(local_time: Timestamp, remote_time: Timestamp)
    ensures
        remote_time > local_time ==> strategy_choice(
            ConflictStrategy::LastWriteWins,
            local_time,
            remote_time,
        ) == Some(ConflictChoice::Remote),
        local_time > remote_time ==> strategy_choice(
            ConflictStrategy::LastWriteWins,
            local_time,
            remote_time,
        ) == Some(ConflictChoice::Local),
        local_time == remote_time ==> strategy_choice(
            ConflictStrategy::LastWriteWins,
            local_time,
            remote_time,
        ) == Some(ConflictChoice::Local),
{
}

/// What a push or a whole exchange reports.
#[derive(Clone, Debug, PartialEq, Eq)]
pub enum SyncResult {
    /// Offline: nothing was exchanged.
    Offline,
    Success { timestamp: Timestamp, changes_pushed: usize, changes_pulled: usize },
    /// Version mismatches that must be resolved before the push is retried.
    Conflict { conflicts: Vec<ConflictInfo> },
}

/// Where synchronization stands.
#[derive(Clone, Debug, PartialEq, Eq)]
pub enum SyncStatus {
    Idle,
    Syncing,
    Success { timestamp: Timestamp },
    Error { message: String },
    Conflict { conflicts: Vec<ConflictInfo> },
}

/// Device information for sync.
#[derive(Clone, Debug, PartialEq, Eq)]
pub struct DeviceInfo {
    pub device_id: Id,
    pub name: String,
    pub device_type: DeviceType,
    pub os_info: Option<String>,
    pub last_seen: Timestamp,
    pub is_online: bool,
}

#[derive(Clone, Copy, Debug, PartialEq, Eq, Structural)]
pub enum DeviceType {
    Desktop,
    Mobile,
    Web,
}

impl DeviceType {
    pub fn as_str(&self) -> (r: &'static str)
        ensures
            r@ == match *self {
                DeviceType::Desktop => "desktop"@,
                DeviceType::Mobile => "mobile"@,
                DeviceType::Web => "web"@,
            },
    {
        match self {
            DeviceType::Desktop => "desktop",
            DeviceType::Mobile => "mobile",
            DeviceType::Web => "web",
        }
    }
}

/// One synchronization attempt: what was pushed, pulled and found in conflict.
#[derive(Clone, Debug, PartialEq, Eq)]
pub struct SyncSession {
    pub session_id: Id,
    pub started_at: Timestamp,
    pub changes_pushed: Vec<SyncChange>,
    pub changes_pulled: Vec<SyncChange>,
    pub conflicts: Vec<ConflictInfo>,
    /// Set once, after the start, when the attempt ends.
    pub completed_at: Option<Timestamp>,
}

impl SyncSession {
    /// The session's invariant: it starts at a time from the epoch on (and
    /// before the latest representable one), and completes strictly after.
    pub open spec fn wf(&self) -> bool {
        &&& 0 <= self.started_at < i64::MAX
        &&& (self.completed_at matches Some(end) ==> end > self.started_at)
    }

    /// A new session, started now. A clock reading before the epoch counts
    /// as the epoch.
    pub fn new() -> (r: Self)
        ensures
            r.wf(),
            r.changes_pushed@.len() == 0,
            r.changes_pulled@.len() == 0,
            r.conflicts@.len() == 0,
            r.completed_at is None,
    {
        let t = now();
        let started_at = if t < 0 {
            0
        } else if t == i64::MAX {
            i64::MAX - 1
        } else {
            t
        };
        SyncSession {
            session_id: new_id(),
            started_at,
            changes_pushed: Vec::new(),
            changes_pulled: Vec::new(),
            conflicts: Vec::new(),
            completed_at: None,
        }
    }

    /// Marks the attempt complete. The completion time is set only once, and
    /// lies strictly after the start.
    pub fn complete(&mut self)
        ensures
            old(self).wf() ==> final(self).wf(),
            old(self).completed_at is Some ==> *final(self) == *old(self),
            old(self).completed_at is None ==> {
                &&& final(self).completed_at is Some
                &&& (old(self).started_at < i64::MAX ==> final(self).completed_at->Some_0
                    > old(self).started_at)
                &&& *final(self) == (SyncSession {
                    completed_at: final(self).completed_at,
                    ..*old(self)
                })
            },
    {
        if self.completed_at.is_none() {
            let t = now();
            let end = if t > self.started_at {
                t
            } else if self.started_at < i64::MAX {
                self.started_at + 1
            } else {
                self.started_at
            };
            self.completed_at = Some(end);
        }
    }

    pub fn is_complete(&self) -> (r: bool)
        ensures
            r == self.completed_at is Some,
    {
        self.completed_at.is_some()
    }

    /// Completion time minus start time, once complete (and when it fits);
    /// positive for a well-formed session.
    pub fn duration(&self) -> (r: Option<i64>)
        ensures
            r == match self.completed_at {
                Some(end) => if i64::MIN <= end - self.started_at <= i64::MAX {
                    Some((end - self.started_at) as i64)
                } else {
                    None
                },
                None => None,
            },
            self.wf() && self.completed_at is Some ==> (r matches Some(d) && d > 0),
    {
        match self.completed_at {
            Some(end) => end.checked_sub(self.started_at),
            None => None,
        }
    }
}

/// The capability a remote store offers. Each call may fail.
pub trait SyncProvider {
    /// Checks a credential with the remote.
    fn authenticate(&self, api_key: &str) -> Result<bool, SyncError>;

    /// Sends local changes; reports `Offline`, `Success` or `Conflict`.
    fn push_changes(&self, changes: Vec<SyncChange>) -> Result<SyncResult, SyncError>;

    /// Fetches remote changes made after `since` (all of them when `None`).
    fn pull_changes(&self, since: Option<Timestamp>) -> Result<Vec<SyncChange>, SyncError>;

    /// Applies a batch of resolutions.
    fn resolve_conflicts(&self, resolutions: Vec<ConflictResolution>) -> Result<(), SyncError>;
}

/// The provider of offline mode: every call succeeds and nothing is exchanged.
#[derive(Clone, Copy, Debug)]
pub struct LocalSyncProvider;

impl SyncProvider for LocalSyncProvider {
    fn authenticate(&self, _api_key: &str) -> (r: Result<bool, SyncError>)
        ensures
            r == Ok::<bool, SyncError>(true),
    {
        Ok(true)
    }

    fn push_changes(&self, _changes: Vec<SyncChange>) -> (r: Result<SyncResult, SyncError>)
        ensures
            r == Ok::<SyncResult, SyncError>(SyncResult::Offline),
    {
        Ok(SyncResult::Offline)
    }

    fn pull_changes(&self, _since: Option<Timestamp>) -> (r: Result<Vec<SyncChange>, SyncError>)
        ensures
            r matches Ok(v) && v@.len() == 0,
    {
        Ok(Vec::new())
    }

    fn resolve_conflicts(&self, _resolutions: Vec<ConflictResolution>) -> (r: Result<
        (),
        SyncError,
    >)
        ensures
            r == Ok::<(), SyncError>(()),
    {
        Ok(())
    }
}

/// A session that delivered nothing: the queue holds `before` again and
/// nothing was pushed or pulled.
pub open spec fn kept_back(
    before: Seq<SyncChange>,
    queue: PendingChanges,
    session: SyncSession,
) -> bool {
    &&& queue.changes@ == before
    &&& session.changes_pushed@.len() == 0
    &&& session.changes_pulled@.len() == 0
}

/// A session that delivered the whole queue: it is empty and the session
/// lists `before` as pushed.
pub open spec fn handed_over(
    before: Seq<SyncChange>,
    queue: PendingChanges,
    session: SyncSession,
) -> bool {
    &&& queue.changes@.len() == 0
    &&& session.changes_pushed@ == before
    &&& session.conflicts@.len() == 0
}

/// Copies of `v`'s records, in order.
fn copy_changes(v: &Vec<SyncChange>) -> (r: Vec<SyncChange>)
    ensures
        r@ == v@,
{
    let mut out: Vec<SyncChange> = Vec::new();
    let mut i: usize = 0;
    while i < v.len()
        invariant
            i <= v@.len(),
            out@ == v@.take(i as int),
        decreases v@.len() - i,
    {
        out.push(v[i].clone());
        i = i + 1;
        assert(out@ =~= v@.take(i as int));
    }
    assert(v@.take(i as int) =~= v@);
    out
}

/// Copies of `v`'s conflicts, in order.
fn copy_conflicts(v: &Vec<ConflictInfo>) -> (r: Vec<ConflictInfo>)
    ensures
        r@ == v@,
{
    let mut out: Vec<ConflictInfo> = Vec::new();
    let mut i: usize = 0;
    while i < v.len()
        invariant
            i <= v@.len(),
            out@ == v@.take(i as int),
        decreases v@.len() - i,
    {
        out.push(v[i].clone());
        i = i + 1;
        assert(out@ =~= v@.take(i as int));
    }
    assert(v@.take(i as int) =~= v@);
    out
}

/// What an authentication answer means for a session: it goes on only when
/// the remote accepted the credential.
pub fn auth_outcome(answer: Result<bool, SyncError>) -> (r: Result<(), SyncError>)
    ensures
        match answer {
            Ok(true) => r == Ok::<(), SyncError>(()),
            Ok(false) => r == Err::<(), SyncError>(SyncError::AuthenticationFailed),
            Err(e) => r == Err::<(), SyncError>(e),
        },
{
    match answer {
        Ok(true) => Ok(()),
        Ok(false) => Err(SyncError::AuthenticationFailed),
        Err(e) => Err(e),
    }
}

/// Where a session goes after its push.
#[derive(Debug)]
pub enum PushStep {
    /// The remote took the records, at `timestamp`: pull next.
    Pushed { timestamp: Timestamp },
    /// The session ends with this outcome.
    Finished(Result<SyncResult, SyncError>),
}

/// Puts `sent` back at the front of the queue, ahead of anything queued
/// since.
fn restore(queue: &mut PendingChanges, sent: Vec<SyncChange>)
    ensures
        final(queue).changes@ == sent@ + old(queue).changes@,
        final(queue).max_size == old(queue).max_size,
{
    let mut restored = sent;
    restored.append(&mut queue.changes);
    queue.changes = restored;
}

/// Records what the push of `sent` came to. A success lists `sent` as pushed
/// and leads to the pull. Conflicts, offline mode or a failure deliver
/// nothing: `sent` goes back to the front of the queue, conflicts are listed
/// in the session, and the session ends with that outcome.
pub fn apply_push_outcome(
    session: &mut SyncSession,
    queue: &mut PendingChanges,
    sent: Vec<SyncChange>,
    outcome: Result<SyncResult, SyncError>,
) -> (r: PushStep)
    ensures
        final(queue).max_size == old(queue).max_size,
        match outcome {
            Ok(SyncResult::Success { timestamp, .. }) => {
                &&& r == PushStep::Pushed { timestamp }
                &&& final(queue).changes@ == old(queue).changes@
                &&& final(session).changes_pushed@ == sent@
                &&& *final(session) == (SyncSession {
                    changes_pushed: final(session).changes_pushed,
                    ..*old(session)
                })
            },
            Ok(SyncResult::Conflict { conflicts }) => {
                &&& r == PushStep::Finished(outcome)
                &&& final(queue).changes@ == sent@ + old(queue).changes@
                &&& final(session).conflicts@ == conflicts@
                &&& *final(session) == (SyncSession {
                    conflicts: final(session).conflicts,
                    ..*old(session)
                })
            },
            _ => {
                &&& r == PushStep::Finished(outcome)
                &&& final(queue).changes@ == sent@ + old(queue).changes@
                &&& *final(session) == *old(session)
            },
        },
{
    match outcome {
        Ok(SyncResult::Success { timestamp, .. }) => {
            session.changes_pushed = sent;
            PushStep::Pushed { timestamp }
        },
        Ok(SyncResult::Conflict { conflicts }) => {
            restore(queue, sent);
            session.conflicts = copy_conflicts(&conflicts);
            PushStep::Finished(Ok(SyncResult::Conflict { conflicts }))
        },
        other => {
            restore(queue, sent);
            PushStep::Finished(other)
        },
    }
}

/// Records what the pull after a push accepted at `timestamp` came to. The
/// pulled records go in the session, the configuration records the sync, and
/// the outcome counts what was pushed and pulled; a failure is passed on and
/// changes nothing.
pub fn apply_pull_outcome(
    session: &mut SyncSession,
    config: &mut SyncConfig,
    timestamp: Timestamp,
    outcome: Result<Vec<SyncChange>, SyncError>,
) -> (r: Result<SyncResult, SyncError>)
    ensures
        match outcome {
            Ok(pulled) => {
                &&& final(session).changes_pulled@ == pulled@
                &&& *final(session) == (SyncSession {
                    changes_pulled: final(session).changes_pulled,
                    ..*old(session)
                })
                &&& r matches Ok(
                    SyncResult::Success { timestamp: t, changes_pushed: p, changes_pulled: q },
                )
                &&& t == timestamp
                &&& p == old(session).changes_pushed@.len()
                &&& q == pulled@.len()
                &&& final(config).last_sync is Some
                &&& *final(config) == (SyncConfig {
                    last_sync: final(config).last_sync,
                    ..*old(config)
                })
            },
            Err(e) => {
                &&& r == Err::<SyncResult, SyncError>(e)
                &&& *final(session) == *old(session)
                &&& *final(config) == *old(config)
            },
        },
{
    match outcome {
        Ok(pulled) => {
            let pushed = session.changes_pushed.len();
            let n_pulled = pulled.len();
            session.changes_pulled = pulled;
            config.mark_synced();
            Ok(SyncResult::Success { timestamp, changes_pushed: pushed, changes_pulled: n_pulled })
        },
        Err(e) => Err(e),
    }
}

/// Runs one synchronization attempt against `provider`.
///
/// In an online mode the server and credential must be configured, and the
/// credential is checked first. The queue is then drained and its records
/// pushed; `apply_push_outcome` and `apply_pull_outcome` record what the
/// remote answered. The session is complete however the attempt ends, and a
/// record that was not delivered is back in the queue.
pub fn run_session<P: SyncProvider>(
    provider: &P,
    config: &mut SyncConfig,
    queue: &mut PendingChanges,
) -> (r: (SyncSession, Result<SyncResult, SyncError>))
    ensures
        r.0.wf(),
        r.0.completed_at is Some,
        final(queue).max_size == old(queue).max_size,
        old(queue).wf() ==> final(queue).wf(),
        kept_back(old(queue).changes@, *final(queue), r.0) || handed_over(
            old(queue).changes@,
            *final(queue),
            r.0,
        ),
        old(config).online_capable() && (old(config).server_url is None || old(config).api_key
            is None) ==> {
            &&& r.1 == Err::<SyncResult, SyncError>(SyncError::NotConfigured)
            &&& kept_back(old(queue).changes@, *final(queue), r.0)
        },
        r.1 matches Ok(SyncResult::Success { changes_pushed, changes_pulled, .. }) ==> {
            &&& handed_over(old(queue).changes@, *final(queue), r.0)
            &&& changes_pushed == old(queue).changes@.len()
            &&& changes_pulled == r.0.changes_pulled@.len()
            &&& final(config).last_sync is Some
            &&& *final(config) == (SyncConfig {
                last_sync: final(config).last_sync,
                ..*old(config)
            })
        },
        r.1 matches Ok(SyncResult::Offline) ==> kept_back(old(queue).changes@, *final(queue), r.0)
            && r.0.conflicts@.len() == 0,
        r.1 matches Ok(SyncResult::Conflict { conflicts }) ==> kept_back(
            old(queue).changes@,
            *final(queue),
            r.0,
        ) && r.0.conflicts@ == conflicts@,
        !(r.1 matches Ok(SyncResult::Success { .. })) ==> *final(config) == *old(config),
{
    let mut session = SyncSession::new();
    if config.is_online() {
        match config.ensure_configured() {
            Ok(()) => {},
            Err(e) => {
                session.complete();
                return (session, Err(e));
            },
        }
        if let Some(key) = &config.api_key {
            match auth_outcome(provider.authenticate(key.as_str())) {
                Ok(()) => {},
                Err(e) => {
                    session.complete();
                    return (session, Err(e));
                },
            }
        }
    }
    let drained = queue.drain();
    let sent = copy_changes(&drained);
    let outcome = provider.push_changes(drained);
    match apply_push_outcome(&mut session, queue, sent, outcome) {
        PushStep::Finished(result) => {
            session.complete();
            (session, result)
        },
        PushStep::Pushed { timestamp } => {
            let pulled = provider.pull_changes(config.last_sync);
            let result = apply_pull_outcome(&mut session, config, timestamp, pulled);
            session.complete();
            (session, result)
        },
    }
}

/// Admits at most one synchronization session at a time per store.
#[derive(Debug)]
pub struct SingleFlight {
    active: bool,
}

impl SingleFlight {
    /// Whether a session is running.
    pub closed spec fn is_active(&self) -> bool {
        self.active
    }

    pub fn new() -> (r: Self)
        ensures
            !r.is_active(),
    {
        SingleFlight { active: false }
    }

    /// Opens a new session: true when none was running; false, changing
    /// nothing, when one is.
    pub fn try_begin(&mut self) -> (r: bool)
        ensures
            r == !old(self).is_active(),
            final(self).is_active(),
    {
        if self.active {
            false
        } else {
            self.active = true;
            true
        }
    }

    /// Ends the running session, so that the next one may start.
    pub fn finish(&mut self)
        ensures
            !final(self).is_active(),
    {
        self.active = false;
    }

    pub fn is_running(&self) -> (r: bool)
        ensures
            r == self.is_active(),
    {
        self.active
    }
}

fn copy_resolutions(v: &Vec<ConflictResolution>) -> (r: Vec<ConflictResolution>)
    ensures
        r@ == v@,
{
    let mut out: Vec<ConflictResolution> = Vec::new();
    let mut i: usize = 0;
    while i < v.len()
        invariant
            i <= v@.len(),
            out@ == v@.take(i as int),
        decreases v@.len() - i,
    {
        out.push(
            ConflictResolution {
                conflict_id: v[i].conflict_id,
                resolution: v[i].resolution.clone(),
            },
        );
        i = i + 1;
        assert(out@ =~= v@.take(i as int));
    }
    assert(v@.take(i as int) =~= v@);
    out
}

/// Settles the conflicts a session reported, as the configured strategy
/// decides, by handing the generated resolutions to `provider`.
///
/// Under `Manual` nothing is generated or sent: the conflicts wait for
/// resolutions from the user. A mismatched `edit_times` is `InvalidData`.
/// Once settled, the records still queued can be pushed again by a new
/// session.
pub fn settle_conflicts<P: SyncProvider>(
    provider: &P,
    strategy: ConflictStrategy,
    conflicts: &Vec<ConflictInfo>,
    edit_times: &Vec<(Timestamp, Timestamp)>,
) -> (r: Result<Vec<ConflictResolution>, SyncError>)
    ensures
        strategy == ConflictStrategy::Manual ==> (r matches Ok(v) && v@.len() == 0),
        (strategy != ConflictStrategy::Manual && edit_times@.len() != conflicts@.len()) ==> (
        r matches Err(
            SyncError::InvalidData(_),
        )),
        strategy != ConflictStrategy::Manual ==> (r matches Ok(v) ==> v@ == batch_resolutions(
            strategy,
            conflicts@,
            edit_times@,
        )),
{
    if strategy == ConflictStrategy::Manual {
        return Ok(Vec::new());
    }
    match resolutions_for(strategy, conflicts, edit_times) {
        None => Err(
            SyncError::InvalidData(String::from_str("one pair of edit times per conflict")),
        ),
        Some(resolutions) => {
            let sent = copy_resolutions(&resolutions);
            match provider.resolve_conflicts(sent) {
                Ok(()) => Ok(resolutions),
                Err(e) => Err(e),
            }
        },
    }
}

/// Errors of synchronization and of the pending-change queue.
#[derive(Clone, Debug, PartialEq, Eq)]
pub enum SyncError {
    /// A sync was attempted while offline or without credentials.
    NotConfigured,
    /// The transport could not reach the remote.
    ConnectionFailed(String),
    /// The remote rejected the credential.
    AuthenticationFailed,
    /// The remote rejected the request.
    ServerError(String),
    /// Local and remote versions of an item diverged.
    Conflict { item_type: String, item_id: String },
    /// The pending-change queue has no room for another item.
    QueueFull,
    /// A timeout or transient I/O failure.
    NetworkError(String),
    /// A malformed payload.
    InvalidData(String),
}

/// The text that describes an error.
pub open spec fn error_message(e: SyncError) -> Seq<char> {
    match e {
        SyncError::NotConfigured => "Sync not configured"@,
        SyncError::ConnectionFailed(m) => "Connection failed: "@ + m@,
        SyncError::AuthenticationFailed => "Authentication failed"@,
        SyncError::ServerError(m) => "Server error: "@ + m@,
        SyncError::Conflict { item_type, item_id } => "Conflict detected for item "@ + item_type@
            + ":"@ + item_id@,
        SyncError::QueueFull => "Queue is full"@,
        SyncError::NetworkError(m) => "Network error: "@ + m@,
        SyncError::InvalidData(m) => "Invalid data: "@ + m@,
    }
}

impl SyncError {
    /// The text that describes this error.
    pub fn message(&self) -> (r: String)
        ensures
            r@ == error_message(*self),
    {
        match self {
            SyncError::NotConfigured => String::from_str("Sync not configured"),
            SyncError::ConnectionFailed(m) => String::from_str("Connection failed: ").concat(
                m.as_str(),
            ),
            SyncError::AuthenticationFailed => String::from_str("Authentication failed"),
            SyncError::ServerError(m) => String::from_str("Server error: ").concat(m.as_str()),
            SyncError::Conflict { item_type, item_id } => String::from_str(
                "Conflict detected for item ",
            ).concat(item_type.as_str()).concat(":").concat(item_id.as_str()),
            SyncError::QueueFull => String::from_str("Queue is full"),
            SyncError::NetworkError(m) => String::from_str("Network error: ").concat(m.as_str()),
            SyncError::InvalidData(m) => String::from_str("Invalid data: ").concat(m.as_str()),
        }
    }
}

/// The bounded, deduplicating queue of changes waiting to be pushed.
///
/// Insertion order is push order. At most one record per item is pending, and
/// the queue never holds more than `max_size` records.
#[derive(Debug)]
pub struct PendingChanges {
    pub changes: Vec<SyncChange>,
    pub max_size: usize,
}

impl Default for PendingChanges {
    fn default() -> (r: Self)
        ensures
            r.changes@.len() == 0,
            r.max_size == 0,
    {
        PendingChanges { changes: Vec::new(), max_size: 0 }
    }
}

impl PendingChanges {
    /// The queue's invariant: one record per item, and within capacity.
    pub open spec fn wf(&self) -> bool {
        &&& distinct_items(self.changes@)
        &&& self.changes@.len() <= self.max_size
    }

    pub fn new(max_size: usize) -> (r: Self)
        ensures
            r.changes@.len() == 0,
            r.max_size == max_size,
            r.wf(),
    {
        PendingChanges { changes: Vec::with_capacity(max_size), max_size }
    }

    /// Enqueues `change`, superseding any pending record of the same item.
    ///
    /// Fails with `QueueFull`, leaving the queue as it was, when the queue
    /// would exceed its capacity.
    pub fn push(&mut self, change: SyncChange) -> (r: Result<(), SyncError>)
        ensures
            final(self).max_size == old(self).max_size,
            final(self).changes@ == enqueue_model(
                old(self).changes@,
                old(self).max_size as nat,
                change,
            ),
            r is Ok <==> enqueue_accepts(old(self).changes@, old(self).max_size as nat, change),
            r is Err ==> r == Err::<(), SyncError>(SyncError::QueueFull),
            old(self).wf() ==> final(self).wf(),
    {
        let n = self.changes.len();
        let mut i: usize = 0;
        let mut kept: usize = 0;
        while i < n
            invariant
                n == self.changes@.len(),
                i <= n,
                kept == other_items(self.changes@.take(i as int), change).len(),
            decreases n - i,
        {
            proof {
                lemma_other_items_len(self.changes@.take(i as int), change);
                assert(self.changes@.take(i + 1).drop_last() =~= self.changes@.take(i as int));
            }
            if !(self.changes[i].item_id == change.item_id && self.changes[i].item_type
                == change.item_type) {
                kept = kept + 1;
            }
            i = i + 1;
        }
        assert(self.changes@.take(n as int) =~= self.changes@);
        proof {
            lemma_enqueue_keeps_invariant(self.changes@, self.max_size as nat, change);
        }
        if kept >= self.max_size {
            return Err(SyncError::QueueFull);
        }
        let ghost orig = self.changes@;
        let mut i: usize = 0;
        let ghost mut j: int = 0;
        while i < self.changes.len()
            invariant
                0 <= j <= orig.len(),
                i <= self.changes@.len(),
                self.changes@.take(i as int) == other_items(orig.take(j), change),
                self.changes@.skip(i as int) == orig.skip(j),
                self.max_size == old(self).max_size,
            decreases self.changes@.len() - i,
        {
            let ghost cur = self.changes@;
            proof {
                assert(orig.skip(j).len() == cur.skip(i as int).len());
                assert(cur[i as int] == orig[j]) by {
                    assert(cur.skip(i as int)[0] == orig.skip(j)[0]);
                }
                assert(orig.take(j + 1).drop_last() =~= orig.take(j));
            }
            if self.changes[i].item_id == change.item_id && self.changes[i].item_type
                == change.item_type {
                self.changes.remove(i);
                proof {
                    assert(self.changes@.take(i as int) =~= cur.take(i as int));
                    assert(self.changes@.skip(i as int) =~= cur.skip(i as int).skip(1));
                    assert(orig.skip(j + 1) =~= orig.skip(j).skip(1));
                }
            } else {
                i = i + 1;
                proof {
                    assert(self.changes@.take(i as int) =~= cur.take(i - 1).push(cur[i - 1]));
                    assert(self.changes@.skip(i as int) =~= cur.skip(i - 1).skip(1));
                    assert(orig.skip(j + 1) =~= orig.skip(j).skip(1));
                }
            }
            proof {
                j = j + 1;
            }
        }
        proof {
            assert(orig.skip(j).len() == 0);
            assert(orig.take(j) =~= orig);
            assert(self.changes@.take(i as int) =~= self.changes@);
        }
        self.changes.push(change);
        Ok(())
    }

    /// Hands out every queued record, in order, and empties the queue.
    pub fn drain(&mut self) -> (r: Vec<SyncChange>)
        ensures
            drain_post(*old(self), *final(self), r@),
            old(self).wf() ==> final(self).wf(),
    {
        let mut out: Vec<SyncChange> = Vec::new();
        core::mem::swap(&mut self.changes, &mut out);
        out
    }

    pub fn is_empty(&self) -> (r: bool)
        ensures
            r == (self.changes@.len() == 0),
    {
        self.changes.len() == 0
    }

    pub fn len(&self) -> (r: usize)
        ensures
            r == self.changes@.len(),
    {
        self.changes.len()
    }

    /// The queued records about items of type `item_type`, in queue order.
    pub fn for_item_type(&self, item_type: SyncItemType) -> (r: Vec<&SyncChange>)
        ensures
            r@.len() == of_type(self.changes@, item_type).len(),
            forall|k: int| 0 <= k < r@.len() ==> *r@[k] == of_type(self.changes@, item_type)[k],
    {
        let mut out: Vec<&SyncChange> = Vec::new();
        let mut i: usize = 0;
        while i < self.changes.len()
            invariant
                i <= self.changes@.len(),
                out@.len() == of_type(self.changes@.take(i as int), item_type).len(),
                forall|k: int|
                    0 <= k < out@.len() ==> *out@[k] == of_type(
                        self.changes@.take(i as int),
                        item_type,
                    )[k],
            decreases self.changes@.len() - i,
        {
            proof {
                assert(self.changes@.take(i + 1).drop_last() =~= self.changes@.take(i as int));
            }
            if self.changes[i].item_type == item_type {
                out.push(&self.changes[i]);
            }
            i = i + 1;
        }
        assert(self.changes@.take(i as int) =~= self.changes@);
        out
    }

    /// Deletes every acknowledged record, keeping the others in order.
    pub fn remove_synced(&mut self)
        ensures
            final(self).changes@ == unsynced(old(self).changes@),
            final(self).max_size == old(self).max_size,
            old(self).wf() ==> final(self).wf(),
    {
        proof {
            lemma_unsynced_keeps_invariant(self.changes@);
        }
        let ghost orig = self.changes@;
        let mut i: usize = 0;
        let ghost mut j: int = 0;
        while i < self.changes.len()
            invariant
                0 <= j <= orig.len(),
                i <= self.changes@.len(),
                self.changes@.take(i as int) == unsynced(orig.take(j)),
                self.changes@.skip(i as int) == orig.skip(j),
                self.max_size == old(self).max_size,
            decreases self.changes@.len() - i,
        {
            let ghost cur = self.changes@;
            proof {
                assert(orig.skip(j).len() == cur.skip(i as int).len());
                assert(cur[i as int] == orig[j]) by {
                    assert(cur.skip(i as int)[0] == orig.skip(j)[0]);
                }
                assert(orig.take(j + 1).drop_last() =~= orig.take(j));
            }
            if self.changes[i].synced {
                self.changes.remove(i);
                proof {
                    assert(self.changes@.take(i as int) =~= cur.take(i as int));
                    assert(self.changes@.skip(i as int) =~= cur.skip(i as int).skip(1));
                    assert(orig.skip(j + 1) =~= orig.skip(j).skip(1));
                }
            } else {
                i = i + 1;
                proof {
                    assert(self.changes@.take(i as int) =~= cur.take(i - 1).push(cur[i - 1]));
                    assert(self.changes@.skip(i as int) =~= cur.skip(i - 1).skip(1));
                    assert(orig.skip(j + 1) =~= orig.skip(j).skip(1));
                }
            }
            proof {
                j = j + 1;
            }
        }
        proof {
            assert(orig.skip(j).len() == 0);
            assert(orig.take(j) =~= orig);
            assert(self.changes@.take(i as int) =~= self.changes@);
        }
    }
}

/// Enqueueing any sequence of changes to one item never leaves more than one
/// record for that item, and the record kept is the last change the queue
/// accepted.
pub proof fn law_one_record_per_item(
    s: Seq<SyncChange>,
    capacity: nat,
    x: SyncChange,
    cs: Seq<SyncChange>,
)
    requires
        records_for(s, x).len() <= 1,
        forall|k: int| 0 <= k < cs.len() ==> same_item(#[trigger] cs[k], x),
    ensures
        records_for(enqueue_all(s, capacity, cs), x).len() <= 1,
        last_accepted(s, capacity, cs) matches Some(c) ==> records_for(
            enqueue_all(s, capacity, cs),
            x,
        ) == seq![c],
    decreases cs.len(),
{
    if cs.len() > 0 {
        let cs1 = cs.drop_last();
        assert forall|k: int| 0 <= k < cs1.len() implies same_item(#[trigger] cs1[k], x) by {
            assert(cs1[k] == cs[k]);
        }
        law_one_record_per_item(s, capacity, x, cs1);
        let q = enqueue_all(s, capacity, cs1);
        let c = cs.last();
        assert(same_item(c, x)) by {
            assert(cs[cs.len() - 1] == c);
        }
        if enqueue_accepts(q, capacity, c) {
            let t = other_items(q, c);
            lemma_other_items_members(q, c);
            lemma_no_records_for(t, x);
            assert(t.push(c).drop_last() =~= t);
            assert(records_for(t.push(c), x) =~= seq![c]);
        }
    }
}

/// A queue filled to its capacity refuses a change to an item it does not
/// hold, and keeps its length.
pub proof fn law_full_queue_refuses_new_item(s: Seq<SyncChange>, capacity: nat, c: SyncChange)
    requires
        s.len() == capacity,
        records_for(s, c).len() == 0,
    ensures
        !enqueue_accepts(s, capacity, c),
        enqueue_model(s, capacity, c) == s,
        enqueue_model(s, capacity, c).len() == capacity,
{
    lemma_split_len(s, c);
}

/// Draining twice in a row: the first drain hands out the queued records, the
/// second hands out nothing.
pub proof fn law_drain_twice(
    q0: PendingChanges,
    q1: PendingChanges,
    first: Seq<SyncChange>,
    q2: PendingChanges,
    second: Seq<SyncChange>,
)
    requires
        drain_post(q0, q1, first),
        drain_post(q1, q2, second),
    ensures
        first == q0.changes@,
        second.len() == 0,
        q2.changes@.len() == 0,
{
}

/// Removing the acknowledged records shortens the queue by exactly their
/// number; every record that remains is unacknowledged and was there before,
/// and every unacknowledged record remains.
pub proof fn law_remove_synced(s: Seq<SyncChange>)
    ensures
        unsynced(s).len() == s.len() - synced_count(s),
        forall|k: int|
            0 <= k < unsynced(s).len() ==> s.contains(#[trigger] unsynced(s)[k])
                && !unsynced(s)[k].synced,
        forall|k: int| 0 <= k < s.len() && !s[k].synced ==> unsynced(s).contains(#[trigger] s[k]),
    decreases s.len(),
{
    lemma_unsynced_members(s);
    if s.len() > 0 {
        let s1 = s.drop_last();
        law_remove_synced(s1);
        assert forall|k: int| 0 <= k < s.len() && !s[k].synced implies unsynced(s).contains(
            #[trigger] s[k],
        ) by {
            if k < s.len() - 1 {
                assert(s1[k] == s[k]);
                let m = choose|m: int| 0 <= m < unsynced(s1).len() && unsynced(s1)[m] == s1[k];
                if !s.last().synced {
                    assert(unsynced(s)[m] == unsynced(s1)[m]);
                }
            } else {
                assert(unsynced(s)[unsynced(s).len() - 1] == s.last());
            }
        }
    }
}

proof fn lemma_no_records_for(t: Seq<SyncChange>, x: SyncChange)
    requires
        forall|k: int| 0 <= k < t.len() ==> !same_item(#[trigger] t[k], x),
    ensures
        records_for(t, x).len() == 0,
    decreases t.len(),
{
    if t.len() > 0 {
        let t1 = t.drop_last();
        assert forall|k: int| 0 <= k < t1.len() implies !same_item(#[trigger] t1[k], x) by {
            assert(t1[k] == t[k]);
        }
        lemma_no_records_for(t1, x);
        assert(t[t.len() - 1] == t.last());
    }
}

proof fn lemma_split_len(s: Seq<SyncChange>, c: SyncChange)
    ensures
        other_items(s, c).len() + records_for(s, c).len() == s.len(),
    decreases s.len(),
{
    if s.len() > 0 {
        lemma_split_len(s.drop_last(), c);
    }
}

proof fn lemma_other_items_members(s: Seq<SyncChange>, c: SyncChange)
    ensures
        forall|k: int|
            0 <= k < other_items(s, c).len() ==> s.contains(#[trigger] other_items(s, c)[k])
                && !same_item(other_items(s, c)[k], c),
    decreases s.len(),
{
    if s.len() > 0 {
        let s1 = s.drop_last();
        lemma_other_items_members(s1, c);
        assert forall|k: int| 0 <= k < other_items(s, c).len() implies s.contains(
            #[trigger] other_items(s, c)[k],
        ) && !same_item(other_items(s, c)[k], c) by {
            if k < other_items(s1, c).len() {
                let m = choose|m: int| 0 <= m < s1.len() && s1[m] == other_items(s1, c)[k];
                assert(s[m] == s1[m]);
            } else {
                assert(s[s.len() - 1] == s.last());
            }
        }
    }
}

proof fn lemma_other_items_distinct(s: Seq<SyncChange>, c: SyncChange)
    requires
        distinct_items(s),
    ensures
        distinct_items(other_items(s, c)),
    decreases s.len(),
{
    if s.len() > 0 {
        let s1 = s.drop_last();
        assert(distinct_items(s1)) by {
            assert forall|i: int, j: int| 0 <= i < j < s1.len() implies !same_item(
                #[trigger] s1[i],
                #[trigger] s1[j],
            ) by {
                assert(s1[i] == s[i] && s1[j] == s[j]);
            }
        }
        lemma_other_items_distinct(s1, c);
        lemma_other_items_members(s1, c);
        let t = other_items(s, c);
        let t1 = other_items(s1, c);
        if !same_item(s.last(), c) {
            assert forall|i: int, j: int| 0 <= i < j < t.len() implies !same_item(
                #[trigger] t[i],
                #[trigger] t[j],
            ) by {
                if j < t1.len() {
                    assert(t[i] == t1[i] && t[j] == t1[j]);
                } else {
                    assert(t[i] == t1[i]);
                    assert(s1.contains(t1[i]));
                    let m = choose|m: int| 0 <= m < s1.len() && s1[m] == t1[i];
                    assert(s[m] == t1[i]);
                    assert(!same_item(s[m], s[s.len() - 1]));
                }
            }
        }
    }
}

proof fn lemma_unsynced_members(s: Seq<SyncChange>)
    ensures
        unsynced(s).len() <= s.len(),
        forall|k: int|
            0 <= k < unsynced(s).len() ==> s.contains(#[trigger] unsynced(s)[k])
                && !unsynced(s)[k].synced,
    decreases s.len(),
{
    if s.len() > 0 {
        let s1 = s.drop_last();
        lemma_unsynced_members(s1);
        assert forall|k: int| 0 <= k < unsynced(s).len() implies s.contains(
            #[trigger] unsynced(s)[k],
        ) && !unsynced(s)[k].synced by {
            if k < unsynced(s1).len() {
                let m = choose|m: int| 0 <= m < s1.len() && s1[m] == unsynced(s1)[k];
                assert(s[m] == s1[m]);
            } else {
                assert(s[s.len() - 1] == s.last());
            }
        }
    }
}

proof fn lemma_unsynced_distinct(s: Seq<SyncChange>)
    requires
        distinct_items(s),
    ensures
        distinct_items(unsynced(s)),
    decreases s.len(),
{
    if s.len() > 0 {
        let s1 = s.drop_last();
        assert(distinct_items(s1)) by {
            assert forall|i: int, j: int| 0 <= i < j < s1.len() implies !same_item(
                #[trigger] s1[i],
                #[trigger] s1[j],
            ) by {
                assert(s1[i] == s[i] && s1[j] == s[j]);
            }
        }
        lemma_unsynced_distinct(s1);
        lemma_unsynced_members(s1);
        let t = unsynced(s);
        let t1 = unsynced(s1);
        if !s.last().synced {
            assert forall|i: int, j: int| 0 <= i < j < t.len() implies !same_item(
                #[trigger] t[i],
                #[trigger] t[j],
            ) by {
                if j < t1.len() {
                    assert(t[i] == t1[i] && t[j] == t1[j]);
                } else {
                    assert(t[i] == t1[i]);
                    assert(s1.contains(t1[i]));
                    let m = choose|m: int| 0 <= m < s1.len() && s1[m] == t1[i];
                    assert(s[m] == t1[i]);
                    assert(!same_item(s[m], s[s.len() - 1]));
                }
            }
        }
    }
}

proof fn lemma_enqueue_keeps_invariant(s: Seq<SyncChange>, capacity: nat, c: SyncChange)
    ensures
        distinct_items(s) && s.len() <= capacity ==> distinct_items(enqueue_model(s, capacity, c))
            && enqueue_model(s, capacity, c).len() <= capacity,
{
    if distinct_items(s) && s.len() <= capacity && enqueue_accepts(s, capacity, c) {
        lemma_other_items_distinct(s, c);
        lemma_other_items_members(s, c);
        let t = other_items(s, c);
        let u = t.push(c);
        assert forall|i: int, j: int| 0 <= i < j < u.len() implies !same_item(
            #[trigger] u[i],
            #[trigger] u[j],
        ) by {
            if j < t.len() {
                assert(u[i] == t[i] && u[j] == t[j]);
            } else {
                assert(u[i] == t[i]);
                assert(!same_item(t[i], c));
            }
        }
    }
}

proof fn lemma_unsynced_keeps_invariant(s: Seq<SyncChange>)
    ensures
        distinct_items(s) ==> distinct_items(unsynced(s)),
        unsynced(s).len() <= s.len(),
{
    lemma_unsynced_members(s);
    if distinct_items(s) {
        lemma_unsynced_distinct(s);
    }
}

proof fn lemma_other_items_len(s: Seq<SyncChange>, c: SyncChange)
    ensures
        other_items(s, c).len() <= s.len(),
    decreases s.len(),
{
    if s.len() > 0 {
        lemma_other_items_len(s.drop_last(), c);
    }
}

} // verus!
