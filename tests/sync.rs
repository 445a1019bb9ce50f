use postboy_sync::base::{new_id, Id, Timestamp};
use postboy_sync::sync::{
    apply_pull_outcome, apply_push_outcome, auth_outcome, detect_conflict, resolution_for, resolutions_for, run_session, settle_conflicts, ConflictChoice, ConflictInfo,
    ConflictResolution, ConflictStrategy, DeviceType, LocalSyncProvider, PendingChanges,
    SyncChange, SyncConfig, SyncError, SyncItemType, SyncMode, SyncOperation, SyncProvider,
    PushStep, SingleFlight, SyncResult, SyncSession,
};

fn json(text: &str) -> serde_json::Value {
    serde_json::from_str(text).unwrap()
}

fn change_for(item_type: SyncItemType, item_id: Id) -> SyncChange {
    SyncChange::create(item_type, item_id, json("{}"))
}

fn sample_conflict(local_version: i64, remote_version: i64) -> ConflictInfo {
    detect_conflict(
        SyncItemType::Request,
        new_id(),
        "Get users".to_string(),
        local_version,
        remote_version,
        json("{\"v\":3}"),
        json("{\"v\":4}"),
    )
    .unwrap()
}

#[test]
fn test_sync_config_offline() {
    let config = SyncConfig::offline();
    assert!(!config.is_online());
    assert!(!config.auto_sync_enabled());
    assert!(config.server_url.is_none());
}

#[test]
fn test_sync_config_online() {
    let config = SyncConfig::online("https://api.postboy.app".to_string(), "test-key".to_string());
    assert!(config.is_online());
    assert!(config.auto_sync_enabled());
    assert_eq!(config.server_url, Some("https://api.postboy.app".to_string()));
}

#[test]
fn sync_test_pending_changes() {
    let mut pending = PendingChanges::new(10);
    let change = SyncChange::create(SyncItemType::Request, new_id(), json("{\"name\": \"Test\"}"));
    assert!(pending.push(change.clone()).is_ok());
    assert_eq!(pending.len(), 1);
    assert!(!pending.is_empty());
    let drained = pending.drain();
    assert_eq!(drained.len(), 1);
    assert!(pending.is_empty());
}

#[test]
fn test_pending_changes_dedup() {
    let mut pending = PendingChanges::new(10);
    let id = new_id();
    let change1 = SyncChange::create(SyncItemType::Request, id, json("{\"v\": 1}"));
    let change2 = SyncChange::update(SyncItemType::Request, id, 2, json("{\"v\": 2}"));
    pending.push(change1).unwrap();
    pending.push(change2).unwrap();
    assert_eq!(pending.len(), 1);
    assert_eq!(pending.changes[0].version, 2);
}

#[test]
fn test_sync_session() {
    let mut session = SyncSession::new();
    assert!(!session.is_complete());
    assert!(session.duration().is_none());
    session.complete();
    assert!(session.is_complete());
    assert!(session.duration().is_some());
}

#[test]
fn test_sync_item_type() {
    assert_eq!(SyncItemType::Collection.as_str(), "collection");
    assert_eq!(SyncItemType::Request.as_str(), "request");
    assert_eq!(SyncItemType::Environment.as_str(), "environment");
}

#[test]
fn test_device_type() {
    assert_eq!(DeviceType::Desktop.as_str(), "desktop");
    assert_eq!(DeviceType::Mobile.as_str(), "mobile");
    assert_eq!(DeviceType::Web.as_str(), "web");
}

#[test]
fn folder_and_operation_names() {
    assert_eq!(SyncItemType::Folder.as_str(), "folder");
    assert_eq!(SyncOperation::Create.as_str(), "create");
    assert_eq!(SyncOperation::Update.as_str(), "update");
    assert_eq!(SyncOperation::Delete.as_str(), "delete");
}

#[test]
fn create_then_update_keeps_only_the_update() {
    let mut pending = PendingChanges::new(10);
    let a = new_id();
    pending.push(SyncChange::create(SyncItemType::Request, a, json("{\"v\":1}"))).unwrap();
    pending.push(SyncChange::update(SyncItemType::Request, a, 2, json("{\"v\":2}"))).unwrap();
    assert_eq!(pending.len(), 1);
    assert_eq!(pending.changes[0].item_id, a);
    assert_eq!(pending.changes[0].version, 2);
    assert_eq!(pending.changes[0].operation, SyncOperation::Update);
}

#[test]
fn capacity_two_refuses_a_third_item() {
    let mut pending = PendingChanges::new(2);
    let a = new_id();
    let b = new_id();
    let c = new_id();
    assert!(pending.push(change_for(SyncItemType::Request, a)).is_ok());
    assert!(pending.push(change_for(SyncItemType::Request, b)).is_ok());
    assert_eq!(pending.len(), 2);
    assert_eq!(pending.push(change_for(SyncItemType::Request, c)), Err(SyncError::QueueFull));
    assert_eq!(pending.len(), 2);
    assert_eq!(pending.changes[0].item_id, a);
    assert_eq!(pending.changes[1].item_id, b);
}

#[test]
fn full_queue_still_takes_a_change_to_a_queued_item() {
    let mut pending = PendingChanges::new(2);
    let a = new_id();
    let b = new_id();
    pending.push(change_for(SyncItemType::Request, a)).unwrap();
    pending.push(change_for(SyncItemType::Request, b)).unwrap();
    let update = SyncChange::update(SyncItemType::Request, a, 2, json("{}"));
    assert!(pending.push(update).is_ok());
    assert_eq!(pending.len(), 2);
    assert_eq!(pending.changes[0].item_id, b);
    assert_eq!(pending.changes[1].item_id, a);
    assert_eq!(pending.changes[1].version, 2);
}

#[test]
fn same_id_of_another_type_is_another_item() {
    let mut pending = PendingChanges::new(10);
    let id = new_id();
    pending.push(change_for(SyncItemType::Request, id)).unwrap();
    pending.push(change_for(SyncItemType::Folder, id)).unwrap();
    assert_eq!(pending.len(), 2);
}

#[test]
fn zero_capacity_refuses_everything() {
    let mut pending = PendingChanges::default();
    assert_eq!(pending.push(change_for(SyncItemType::Request, new_id())), Err(SyncError::QueueFull));
    assert!(pending.is_empty());
}

#[test]
fn repeated_enqueues_keep_one_record_the_last_accepted() {
    let mut pending = PendingChanges::new(1);
    let a = new_id();
    for v in 1..6 {
        pending.push(SyncChange::update(SyncItemType::Environment, a, v, json("{}"))).unwrap();
        assert_eq!(pending.len(), 1);
        assert_eq!(pending.changes[0].version, v);
    }
    assert_eq!(pending.push(change_for(SyncItemType::Environment, new_id())), Err(SyncError::QueueFull));
    assert_eq!(pending.len(), 1);
    assert_eq!(pending.changes[0].version, 5);
}

#[test]
fn draining_twice_gives_nothing_the_second_time() {
    let mut pending = PendingChanges::new(5);
    pending.push(change_for(SyncItemType::Request, new_id())).unwrap();
    pending.push(change_for(SyncItemType::Collection, new_id())).unwrap();
    let first = pending.drain();
    let second = pending.drain();
    assert_eq!(first.len(), 2);
    assert!(second.is_empty());
    assert_eq!(pending.max_size, 5);
}

#[test]
fn remove_synced_drops_exactly_the_acknowledged() {
    let mut pending = PendingChanges::new(5);
    let ids: Vec<Id> = (0..4).map(|_| new_id()).collect();
    for id in &ids {
        pending.push(change_for(SyncItemType::Request, *id)).unwrap();
    }
    pending.changes[1].mark_synced();
    pending.changes[3].mark_synced();
    pending.remove_synced();
    assert_eq!(pending.len(), 2);
    assert_eq!(pending.changes[0].item_id, ids[0]);
    assert_eq!(pending.changes[1].item_id, ids[2]);
    assert!(pending.changes.iter().all(|c| !c.synced));
}

#[test]
fn for_item_type_lists_matching_records_in_order() {
    let mut pending = PendingChanges::new(5);
    let a = new_id();
    let b = new_id();
    pending.push(change_for(SyncItemType::Request, a)).unwrap();
    pending.push(change_for(SyncItemType::Folder, new_id())).unwrap();
    pending.push(change_for(SyncItemType::Request, b)).unwrap();
    let requests = pending.for_item_type(SyncItemType::Request);
    assert_eq!(requests.len(), 2);
    assert_eq!(requests[0].item_id, a);
    assert_eq!(requests[1].item_id, b);
    assert!(pending.for_item_type(SyncItemType::Environment).is_empty());
    assert_eq!(pending.len(), 3);
}

#[test]
fn constructors_set_version_operation_and_flag() {
    let id = new_id();
    let created = SyncChange::create(SyncItemType::Collection, id, json("{\"a\":1}"));
    assert_eq!(created.version, 1);
    assert_eq!(created.operation, SyncOperation::Create);
    assert!(!created.synced);
    let deleted = SyncChange::delete(SyncItemType::Collection, id, 7);
    assert_eq!(deleted.version, 7);
    assert_eq!(deleted.operation, SyncOperation::Delete);
    assert!(deleted.data.is_null());
    let mut marked = created.clone();
    marked.mark_synced();
    assert!(marked.synced);
    assert_eq!(marked.change_id, created.change_id);
}

#[test]
fn equal_versions_raise_no_conflict() {
    let none = detect_conflict(
        SyncItemType::Request,
        new_id(),
        "x".to_string(),
        3,
        3,
        json("1"),
        json("1"),
    );
    assert!(none.is_none());
    let some = sample_conflict(3, 4);
    assert_eq!(some.local_version, 3);
    assert_eq!(some.remote_version, 4);
    assert_eq!(some.item_name, "Get users");
}

#[test]
fn push_conflict_resolutions_by_strategy() {
    let conflict = sample_conflict(3, 4);
    let local_wins = resolution_for(ConflictStrategy::LocalWins, &conflict, 100, 200);
    assert_eq!(
        local_wins,
        Some(ConflictResolution { conflict_id: conflict.conflict_id, resolution: ConflictChoice::Local })
    );
    let lww = resolution_for(ConflictStrategy::LastWriteWins, &conflict, 100, 200);
    assert_eq!(
        lww,
        Some(ConflictResolution { conflict_id: conflict.conflict_id, resolution: ConflictChoice::Remote })
    );
}

#[test]
fn last_write_wins_ties_favour_local() {
    let conflict = sample_conflict(1, 2);
    let pick = |l: Timestamp, r: Timestamp| {
        resolution_for(ConflictStrategy::LastWriteWins, &conflict, l, r).unwrap().resolution
    };
    assert_eq!(pick(500, 500), ConflictChoice::Local);
    assert_eq!(pick(501, 500), ConflictChoice::Local);
    assert_eq!(pick(499, 500), ConflictChoice::Remote);
    assert_eq!(
        resolution_for(ConflictStrategy::RemoteWins, &conflict, 900, 1).unwrap().resolution,
        ConflictChoice::Remote
    );
    assert!(resolution_for(ConflictStrategy::Manual, &conflict, 1, 2).is_none());
}

#[test]
fn offline_session_exchanges_nothing() {
    let mut config = SyncConfig::offline();
    let before = config.clone();
    let mut pending = PendingChanges::new(10);
    let a = new_id();
    pending.push(change_for(SyncItemType::Request, a)).unwrap();
    pending.push(change_for(SyncItemType::Folder, new_id())).unwrap();
    let (session, result) = run_session(&LocalSyncProvider, &mut config, &mut pending);
    assert_eq!(result, Ok(SyncResult::Offline));
    assert!(session.changes_pushed.is_empty());
    assert!(session.changes_pulled.is_empty());
    assert!(session.conflicts.is_empty());
    assert!(session.is_complete());
    assert_eq!(pending.len(), 2);
    assert_eq!(pending.changes[0].item_id, a);
    assert_eq!(config, before);
}

#[test]
fn offline_session_with_empty_queue() {
    let mut config = SyncConfig::offline();
    let mut pending = PendingChanges::new(3);
    let (session, result) = run_session(&LocalSyncProvider, &mut config, &mut pending);
    assert_eq!(result, Ok(SyncResult::Offline));
    assert!(session.changes_pushed.is_empty() && session.changes_pulled.is_empty());
    assert!(session.is_complete());
}

struct Remote {
    push: Result<SyncResult, SyncError>,
    pull: Result<Vec<SyncChange>, SyncError>,
    accept_key: bool,
}

impl SyncProvider for Remote {
    fn authenticate(&self, _api_key: &str) -> Result<bool, SyncError> {
        Ok(self.accept_key)
    }

    fn push_changes(&self, _changes: Vec<SyncChange>) -> Result<SyncResult, SyncError> {
        self.push.clone()
    }

    fn pull_changes(&self, _since: Option<Timestamp>) -> Result<Vec<SyncChange>, SyncError> {
        self.pull.clone()
    }

    fn resolve_conflicts(&self, _resolutions: Vec<ConflictResolution>) -> Result<(), SyncError> {
        Ok(())
    }
}

#[test]
fn successful_session_pushes_everything_and_pulls() {
    let remote = Remote {
        push: Ok(SyncResult::Success { timestamp: 42, changes_pushed: 0, changes_pulled: 0 }),
        pull: Ok(vec![change_for(SyncItemType::Environment, new_id())]),
        accept_key: true,
    };
    let mut config = SyncConfig::online("https://example.com".to_string(), "k".to_string());
    let mut pending = PendingChanges::new(10);
    pending.push(change_for(SyncItemType::Request, new_id())).unwrap();
    pending.push(change_for(SyncItemType::Request, new_id())).unwrap();
    let (session, result) = run_session(&remote, &mut config, &mut pending);
    assert_eq!(
        result,
        Ok(SyncResult::Success { timestamp: 42, changes_pushed: 2, changes_pulled: 1 })
    );
    assert!(pending.is_empty());
    assert_eq!(session.changes_pushed.len(), 2);
    assert_eq!(session.changes_pulled.len(), 1);
    assert!(config.last_sync.is_some());
    assert!(session.is_complete());
}

#[test]
fn failed_push_restores_the_queue() {
    let remote = Remote {
        push: Err(SyncError::NetworkError("timeout".to_string())),
        pull: Ok(Vec::new()),
        accept_key: true,
    };
    let mut config = SyncConfig::online("https://example.com".to_string(), "k".to_string());
    let mut pending = PendingChanges::new(10);
    let a = new_id();
    pending.push(change_for(SyncItemType::Request, a)).unwrap();
    let (session, result) = run_session(&remote, &mut config, &mut pending);
    assert_eq!(result, Err(SyncError::NetworkError("timeout".to_string())));
    assert_eq!(pending.len(), 1);
    assert_eq!(pending.changes[0].item_id, a);
    assert!(session.changes_pushed.is_empty());
    assert!(config.last_sync.is_none());
    assert!(session.is_complete());
}

#[test]
fn conflicting_push_keeps_records_and_lists_conflicts() {
    let conflict = sample_conflict(3, 4);
    let remote = Remote {
        push: Ok(SyncResult::Conflict { conflicts: vec![conflict.clone()] }),
        pull: Ok(Vec::new()),
        accept_key: true,
    };
    let mut config = SyncConfig::online("https://example.com".to_string(), "k".to_string());
    let mut pending = PendingChanges::new(10);
    pending.push(change_for(SyncItemType::Request, new_id())).unwrap();
    let (session, result) = run_session(&remote, &mut config, &mut pending);
    assert_eq!(result, Ok(SyncResult::Conflict { conflicts: vec![conflict.clone()] }));
    assert_eq!(session.conflicts, vec![conflict]);
    assert_eq!(pending.len(), 1);
}

#[test]
fn rejected_credential_aborts_before_draining() {
    let remote = Remote {
        push: Ok(SyncResult::Offline),
        pull: Ok(Vec::new()),
        accept_key: false,
    };
    let mut config = SyncConfig::online("https://example.com".to_string(), "bad".to_string());
    let mut pending = PendingChanges::new(10);
    pending.push(change_for(SyncItemType::Request, new_id())).unwrap();
    let (session, result) = run_session(&remote, &mut config, &mut pending);
    assert_eq!(result, Err(SyncError::AuthenticationFailed));
    assert_eq!(pending.len(), 1);
    assert!(session.is_complete());
}

#[test]
fn configuration_checks_and_switches() {
    let mut config = SyncConfig::online("https://example.com".to_string(), "k".to_string());
    assert_eq!(config.auto_sync_interval, 300);
    assert_eq!(config.conflict_strategy, ConflictStrategy::LastWriteWins);
    assert!(config.ensure_configured().is_ok());
    config.mark_synced();
    assert!(config.last_sync.is_some());
    config.go_offline();
    assert_eq!(config.mode, SyncMode::Offline);
    assert!(config.api_key.is_none());
    assert_eq!(config.ensure_configured(), Err(SyncError::NotConfigured));
    assert_eq!(SyncConfig::offline().ensure_configured(), Err(SyncError::NotConfigured));
    let mut manual = SyncConfig::online("u".to_string(), "k".to_string());
    manual.mode = SyncMode::OnlineManual;
    manual.auto_sync_interval = 0;
    assert!(manual.is_online());
    assert!(!manual.auto_sync_enabled());
    assert_eq!(SyncMode::default(), SyncMode::Offline);
}

#[test]
fn error_messages() {
    assert_eq!(SyncError::NotConfigured.message(), "Sync not configured");
    assert_eq!(SyncError::QueueFull.message(), "Queue is full");
    assert_eq!(
        SyncError::ConnectionFailed("refused".to_string()).message(),
        "Connection failed: refused"
    );
    assert_eq!(
        SyncError::Conflict { item_type: "request".to_string(), item_id: "42".to_string() }
            .message(),
        "Conflict detected for item request:42"
    );
    assert_eq!(SyncError::InvalidData("bad".to_string()).message(), "Invalid data: bad");
}

#[test]
fn completion_is_set_once_and_after_start() {
    let mut session = SyncSession::new();
    session.complete();
    let end = session.completed_at.unwrap();
    assert!(end > session.started_at);
    session.complete();
    assert_eq!(session.completed_at, Some(end));
    assert_eq!(session.duration(), Some(end - session.started_at));
}

#[test]
fn local_provider_is_trivial() {
    let p = LocalSyncProvider;
    assert_eq!(p.authenticate("anything"), Ok(true));
    assert_eq!(p.push_changes(Vec::new()), Ok(SyncResult::Offline));
    assert_eq!(p.pull_changes(None), Ok(Vec::new()));
    assert_eq!(p.resolve_conflicts(Vec::new()), Ok(()));
}

#[test]
fn only_one_session_at_a_time() {
    let mut flight = SingleFlight::new();
    assert!(!flight.is_running());
    assert!(flight.try_begin());
    assert!(!flight.try_begin());
    assert!(flight.is_running());
    flight.finish();
    assert!(flight.try_begin());
}

#[test]
fn auto_sync_trigger_is_skipped_while_running_or_too_early() {
    let config = SyncConfig::online("u".to_string(), "k".to_string());
    assert!(config.auto_sync_due(false, 1_000_000, None));
    assert!(!config.auto_sync_due(true, 1_000_000, None));
    assert!(!config.auto_sync_due(false, 1_000_000, Some(1_000_000 - 299_999)));
    assert!(config.auto_sync_due(false, 1_000_000, Some(1_000_000 - 300_000)));
    assert!(!SyncConfig::offline().auto_sync_due(false, 1_000_000, None));
}

#[test]
fn push_reporting_a_conflict_then_policy_resolutions() {
    let conflict = sample_conflict(3, 4);
    let remote = Remote {
        push: Ok(SyncResult::Conflict { conflicts: vec![conflict.clone()] }),
        pull: Ok(Vec::new()),
        accept_key: true,
    };
    let mut config = SyncConfig::online("https://example.com".to_string(), "k".to_string());
    let mut pending = PendingChanges::new(4);
    pending.push(change_for(SyncItemType::Request, conflict.item_id)).unwrap();
    let (session, _) = run_session(&remote, &mut config, &mut pending);
    let times = vec![(100, 200)];
    let local = resolutions_for(ConflictStrategy::LocalWins, &session.conflicts, &times).unwrap();
    assert_eq!(
        local,
        vec![ConflictResolution { conflict_id: conflict.conflict_id, resolution: ConflictChoice::Local }]
    );
    let lww = resolutions_for(ConflictStrategy::LastWriteWins, &session.conflicts, &times).unwrap();
    assert_eq!(
        lww,
        vec![ConflictResolution { conflict_id: conflict.conflict_id, resolution: ConflictChoice::Remote }]
    );
    assert!(resolutions_for(ConflictStrategy::Manual, &session.conflicts, &times).is_none());
    assert!(resolutions_for(ConflictStrategy::LocalWins, &session.conflicts, &vec![]).is_none());
}

#[test]
fn settling_sends_generated_resolutions_except_under_manual() {
    let conflicts = vec![sample_conflict(1, 2), sample_conflict(5, 3)];
    let times = vec![(10, 5), (10, 10)];
    let sent = settle_conflicts(&LocalSyncProvider, ConflictStrategy::RemoteWins, &conflicts, &times).unwrap();
    assert_eq!(sent.len(), 2);
    assert!(sent.iter().all(|r| r.resolution == ConflictChoice::Remote));
    assert_eq!(sent[1].conflict_id, conflicts[1].conflict_id);
    let manual = settle_conflicts(&LocalSyncProvider, ConflictStrategy::Manual, &conflicts, &times).unwrap();
    assert!(manual.is_empty());
    assert!(matches!(
        settle_conflicts(&LocalSyncProvider, ConflictStrategy::LocalWins, &conflicts, &vec![(1, 1)]),
        Err(SyncError::InvalidData(_))
    ));
}

#[test]
fn authentication_answers() {
    assert_eq!(auth_outcome(Ok(true)), Ok(()));
    assert_eq!(auth_outcome(Ok(false)), Err(SyncError::AuthenticationFailed));
    assert_eq!(
        auth_outcome(Err(SyncError::ConnectionFailed("down".to_string()))),
        Err(SyncError::ConnectionFailed("down".to_string()))
    );
}

#[test]
fn push_outcomes_restore_or_record() {
    let a = new_id();
    let sent = vec![change_for(SyncItemType::Request, a)];
    let newer = new_id();

    let mut session = SyncSession::new();
    let mut queue = PendingChanges::new(5);
    queue.push(change_for(SyncItemType::Folder, newer)).unwrap();
    let step = apply_push_outcome(&mut session, &mut queue, sent.clone(), Ok(SyncResult::Offline));
    assert!(matches!(step, PushStep::Finished(Ok(SyncResult::Offline))));
    assert_eq!(queue.len(), 2);
    assert_eq!(queue.changes[0].item_id, a);
    assert_eq!(queue.changes[1].item_id, newer);
    assert!(session.changes_pushed.is_empty());

    let mut queue = PendingChanges::new(5);
    let conflict = sample_conflict(1, 2);
    let step = apply_push_outcome(
        &mut session,
        &mut queue,
        sent.clone(),
        Ok(SyncResult::Conflict { conflicts: vec![conflict.clone()] }),
    );
    assert!(matches!(step, PushStep::Finished(Ok(SyncResult::Conflict { .. }))));
    assert_eq!(session.conflicts, vec![conflict]);
    assert_eq!(queue.len(), 1);

    let mut session = SyncSession::new();
    let mut queue = PendingChanges::new(5);
    let step = apply_push_outcome(&mut session, &mut queue, sent.clone(), Err(SyncError::QueueFull));
    assert!(matches!(step, PushStep::Finished(Err(SyncError::QueueFull))));
    assert_eq!(queue.len(), 1);

    let step = apply_push_outcome(
        &mut session,
        &mut PendingChanges::new(5),
        sent,
        Ok(SyncResult::Success { timestamp: 9, changes_pushed: 0, changes_pulled: 0 }),
    );
    assert!(matches!(step, PushStep::Pushed { timestamp: 9 }));
    assert_eq!(session.changes_pushed.len(), 1);
}

#[test]
fn pull_outcomes_count_and_mark_synced() {
    let mut session = SyncSession::new();
    session.changes_pushed = vec![change_for(SyncItemType::Request, new_id()); 3];
    let mut config = SyncConfig::online("u".to_string(), "k".to_string());
    let failed = apply_pull_outcome(&mut session, &mut config, 5, Err(SyncError::ServerError("x".to_string())));
    assert_eq!(failed, Err(SyncError::ServerError("x".to_string())));
    assert!(config.last_sync.is_none());
    let pulled = vec![change_for(SyncItemType::Folder, new_id()); 2];
    let done = apply_pull_outcome(&mut session, &mut config, 5, Ok(pulled));
    assert_eq!(done, Ok(SyncResult::Success { timestamp: 5, changes_pushed: 3, changes_pulled: 2 }));
    assert_eq!(session.changes_pulled.len(), 2);
    assert!(config.last_sync.is_some());
}

#[test]
fn online_session_without_credential_is_not_configured() {
    let remote = Remote {
        push: Ok(SyncResult::Success { timestamp: 1, changes_pushed: 0, changes_pulled: 0 }),
        pull: Ok(Vec::new()),
        accept_key: true,
    };
    let mut config = SyncConfig::online("https://example.com".to_string(), "k".to_string());
    config.api_key = None;
    let mut pending = PendingChanges::new(3);
    pending.push(change_for(SyncItemType::Request, new_id())).unwrap();
    let (session, result) = run_session(&remote, &mut config, &mut pending);
    assert_eq!(result, Err(SyncError::NotConfigured));
    assert_eq!(pending.len(), 1);
    assert!(session.is_complete());
    assert!(config.last_sync.is_none());
}

#[test]
fn completed_session_has_positive_duration() {
    let mut session = SyncSession::new();
    assert!(session.started_at >= 0);
    session.complete();
    assert!(session.duration().unwrap() > 0);
}
