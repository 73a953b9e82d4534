use browser_window::task::TaskTable;

#[test]
fn spawned_task_waits_for_its_first_poll() {
    let mut tasks: TaskTable<&str> = TaskTable::new();
    let id = tasks.spawn("future").unwrap();
    assert_eq!(id, 0);
    assert!(tasks.is_alive(id));
    assert_eq!(tasks.begin_poll(id), Some("future"));
}

#[test]
fn second_poll_while_polling_gets_nothing() {
    let mut tasks: TaskTable<u32> = TaskTable::new();
    let id = tasks.spawn(9).unwrap();
    assert_eq!(tasks.begin_poll(id), Some(9));
    assert_eq!(tasks.begin_poll(id), None);
    assert_eq!(tasks.begin_poll(id), None);
    assert!(tasks.is_alive(id));
}

#[test]
fn pending_task_is_polled_again() {
    let mut tasks: TaskTable<u32> = TaskTable::new();
    let id = tasks.spawn(1).unwrap();
    let f = tasks.begin_poll(id).unwrap();
    tasks.end_poll(id, f + 1, false);
    assert_eq!(tasks.begin_poll(id), Some(2));
}

#[test]
fn completed_task_is_released() {
    let mut tasks: TaskTable<u32> = TaskTable::new();
    let id = tasks.spawn(1).unwrap();
    let f = tasks.begin_poll(id).unwrap();
    tasks.end_poll(id, f, true);
    assert!(!tasks.is_alive(id));
    assert_eq!(tasks.begin_poll(id), None);
}

#[test]
fn end_poll_of_abandoned_task_drops_future() {
    let mut tasks: TaskTable<u32> = TaskTable::new();
    let id = tasks.spawn(1).unwrap();
    let f = tasks.begin_poll(id).unwrap();
    tasks.abandon(id);
    tasks.end_poll(id, f, false);
    assert!(!tasks.is_alive(id));
}

#[test]
fn clear_drops_all_tasks() {
    let mut tasks: TaskTable<u32> = TaskTable::new();
    let a = tasks.spawn(1).unwrap();
    let b = tasks.spawn(2).unwrap();
    assert_ne!(a, b);
    tasks.clear();
    assert!(!tasks.is_alive(a));
    assert!(!tasks.is_alive(b));
}
