use rddns::state::StateManager;

#[test]
fn test_state_manager_lifecycle() {
    let mut mgr = StateManager::new();
    let state = mgr.get_task_state("task1");
    assert_eq!(state.consecutive_failures, 0);
    assert_eq!(state.check_counter, 0);
    assert!(state.last_error.is_none());

    let mut s = mgr.get_task_state("task1");
    s.consecutive_failures = 2;
    s.last_error = Some("连接超时".to_string());
    s.synced_domains
        .insert("sub.example.com:A".to_string(), "1.2.3.4".to_string());
    mgr.update_task_state("task1", s);

    let updated = mgr.get_task_state("task1");
    assert_eq!(updated.consecutive_failures, 2);
    assert_eq!(updated.last_error.as_deref(), Some("连接超时"));
    assert_eq!(
        updated.synced_domains.get("sub.example.com:A"),
        Some(&"1.2.3.4".to_string())
    );

    mgr.get_task_state("obsolete_task");
    assert_eq!(mgr.task_count(), 2);
    mgr.retain_active_tasks(&["task1".to_string()]);
    assert_eq!(mgr.task_count(), 1);
    assert!(mgr.has_task("task1"));
    assert!(!mgr.has_task("obsolete_task"));
}

#[test]
fn snapshot_is_independent_of_the_stored_state() {
    let mut mgr = StateManager::new();
    let mut copy = mgr.get_task_state("a");
    copy.check_counter = 7;
    // Changing the copy does not change what is stored until it is written back.
    assert_eq!(mgr.get_task_state("a").check_counter, 0);
    mgr.update_task_state("a", copy);
    assert_eq!(mgr.get_task_state("a").check_counter, 7);
    // Retaining nothing drops every task.
    mgr.retain_active_tasks(&[]);
    assert_eq!(mgr.task_count(), 0);
}
