use browser_window::dispatch::DispatchTable;

#[test]
fn accepted_unit_is_taken_once() {
    let mut table: DispatchTable<&str> = DispatchTable::new();
    let token = table.dispatch("work").unwrap();
    assert_eq!(table.take(token), Some("work"));
    assert_eq!(table.take(token), None);
}

#[test]
fn tokens_are_fresh_and_increasing() {
    let mut table: DispatchTable<u32> = DispatchTable::new();
    let a = table.dispatch(1).unwrap();
    let b = table.dispatch(2).unwrap();
    assert_eq!(a, 0);
    assert_eq!(b, 1);
    assert_eq!(table.take(b), Some(2));
    let c = table.dispatch(3).unwrap();
    assert_eq!(c, 2);
    assert_eq!(table.take(a), Some(1));
    assert_eq!(table.take(c), Some(3));
}

#[test]
fn unknown_token_yields_nothing() {
    let mut table: DispatchTable<u32> = DispatchTable::new();
    assert_eq!(table.take(7), None);
    let t = table.dispatch(5).unwrap();
    assert_eq!(table.take(t + 1), None);
    assert_eq!(table.take(t), Some(5));
}

#[test]
fn closed_table_hands_unit_back() {
    let mut table: DispatchTable<String> = DispatchTable::new();
    assert!(table.accepts());
    table.close();
    assert!(!table.accepts());
    assert_eq!(table.dispatch("late".to_string()), Err("late".to_string()));
}

#[test]
fn close_drops_undelivered_units_without_running_them() {
    let ran = std::rc::Rc::new(std::cell::Cell::new(0u32));
    let mut table: DispatchTable<Box<dyn FnOnce()>> = DispatchTable::new();
    let r = ran.clone();
    let token = table.dispatch(Box::new(move || r.set(r.get() + 1))).ok().unwrap();
    assert_eq!(std::rc::Rc::strong_count(&ran), 2);
    table.close();
    assert_eq!(std::rc::Rc::strong_count(&ran), 1);
    assert!(table.take(token).is_none());
    assert_eq!(ran.get(), 0);
}

#[test]
fn delivered_closure_runs_exactly_once() {
    let ran = std::rc::Rc::new(std::cell::Cell::new(0u32));
    let mut table: DispatchTable<Box<dyn FnOnce()>> = DispatchTable::new();
    let r = ran.clone();
    let token = table.dispatch(Box::new(move || r.set(r.get() + 1))).ok().unwrap();
    for _ in 0..3 {
        if let Some(unit) = table.take(token) {
            unit();
        }
    }
    assert_eq!(ran.get(), 1);
    assert_eq!(std::rc::Rc::strong_count(&ran), 1);
}
